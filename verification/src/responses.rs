//! The answers to tasks once the ledger has replied.

use vstd::prelude::*;
use vstd::string::*;
use crate::error::{report_with_entry, reported_with_entry, ErrorKind, ErrorReport};
use crate::handlers::{is_plain_response, plain_response};
use crate::ledger::{ItemRejection, LedgerAccount, LedgerReply, LedgerTransfer, WriteOutcome};
use crate::task::{
    split_u128, task_type_of, Account, AccountResult, TaskRequest, TaskResponse, TaskType, Transfer,
    TransferResult,
};
use crate::text::{decimal, i32_string, join, joined, push_decimal, push_signed_decimal, signed_decimal};
use crate::worker::{system_time_to_u64, uint128_to_proto};

verus! {

pub open spec fn reasons(items: Seq<ItemRejection>) -> Seq<Seq<char>> {
    items.map_values(|it: ItemRejection| it.reason@)
}

/// `label[index]: reason`.
pub open spec fn labelled_reason(label: Seq<char>, it: ItemRejection) -> Seq<char> {
    label + "["@ + decimal(it.index as nat) + "]: "@ + it.reason@
}

pub open spec fn labelled_reasons(label: Seq<char>, items: Seq<ItemRejection>) -> Seq<Seq<char>> {
    items.map_values(|it: ItemRejection| labelled_reason(label, it))
}

/// Verdict and message after creating one account.
pub open spec fn create_account_verdict(o: WriteOutcome) -> (bool, Seq<char>) {
    match o {
        WriteOutcome::Accepted => (true, "Account created"@),
        WriteOutcome::Rejected(items) => (
            false,
            "Failed to create account: "@ + joined(reasons(items@), ";"@),
        ),
        WriteOutcome::SendFailed { reason: _, summary } => (
            false,
            "Failed to create account: "@ + summary@,
        ),
        WriteOutcome::Failed(s) => (false, "Failed to create account: "@ + s@),
    }
}

/// Verdict and message after creating a batch of `n` accounts.
pub open spec fn create_account_batch_verdict(n: nat, o: WriteOutcome) -> (bool, Seq<char>) {
    match o {
        WriteOutcome::Accepted => (true, "Created "@ + decimal(n) + " accounts"@),
        WriteOutcome::Rejected(items) => (
            false,
            "Failed to create account batch: "@ + joined(
                labelled_reasons("Account"@, items@),
                "; "@,
            ),
        ),
        WriteOutcome::SendFailed { reason, summary: _ } => (
            false,
            "Network/Transport Error: "@ + reason@,
        ),
        WriteOutcome::Failed(s) => (false, "Failed to create account batch: "@ + s@),
    }
}

/// Verdict and message after creating one transfer.
pub open spec fn create_transfer_verdict(o: WriteOutcome) -> (bool, Seq<char>) {
    match o {
        WriteOutcome::Accepted => (true, "Transfer created"@),
        WriteOutcome::Rejected(items) => (
            false,
            "Failed to create transfer: "@ + joined(labelled_reasons("transfer"@, items@), "; "@),
        ),
        WriteOutcome::SendFailed { reason, summary: _ } => (
            false,
            "Network/Transport Error: "@ + reason@,
        ),
        WriteOutcome::Failed(s) => (false, "Unexpected Error: "@ + s@),
    }
}

/// Verdict and message after creating a batch of `n` transfers.
pub open spec fn create_transfer_batch_verdict(n: nat, o: WriteOutcome) -> (bool, Seq<char>) {
    match o {
        WriteOutcome::Accepted => (true, "Created "@ + decimal(n) + " transfers"@),
        WriteOutcome::Rejected(items) => (
            false,
            "Failed to create transfer batch: "@ + joined(
                labelled_reasons("Transfer"@, items@),
                "; "@,
            ),
        ),
        WriteOutcome::SendFailed { reason, summary: _ } => (
            false,
            "Network/Transport Error: "@ + reason@,
        ),
        WriteOutcome::Failed(s) => (false, "Unexpected error creating transfer batch: "@ + s@),
    }
}

fn reason_list(items: &Vec<ItemRejection>) -> (r: Vec<String>)
    ensures
        crate::text::views(r@) == reasons(items@),
{
    let mut r: Vec<String> = Vec::new();
    let mut i: usize = 0;
    while i < items.len()
        invariant
            i <= items@.len(),
            crate::text::views(r@) == reasons(items@.take(i as int)),
        decreases items@.len() - i,
    {
        let ghost before = r@;
        r.push(String::from_str(items[i].reason.as_str()));
        assert(crate::text::views(r@) =~= crate::text::views(before).push(items@[i as int].reason@));
        assert(reasons(items@.take(i + 1)) =~= reasons(items@.take(i as int)).push(
            items@[i as int].reason@,
        ));
        i = i + 1;
    }
    assert(items@.take(items@.len() as int) =~= items@);
    r
}

fn labelled_list(label: &str, items: &Vec<ItemRejection>) -> (r: Vec<String>)
    ensures
        crate::text::views(r@) == labelled_reasons(label@, items@),
{
    let mut r: Vec<String> = Vec::new();
    let mut i: usize = 0;
    while i < items.len()
        invariant
            i <= items@.len(),
            crate::text::views(r@) == labelled_reasons(label@, items@.take(i as int)),
        decreases items@.len() - i,
    {
        let ghost before = r@;
        let mut s = String::from_str(label);
        s.append("[");
        push_decimal(&mut s, items[i].index as u128);
        s.append("]: ");
        s.append(items[i].reason.as_str());
        assert(s@ =~= labelled_reason(label@, items@[i as int]));
        r.push(s);
        assert(crate::text::views(r@) =~= crate::text::views(before).push(
            labelled_reason(label@, items@[i as int]),
        ));
        assert(labelled_reasons(label@, items@.take(i + 1)) =~= labelled_reasons(
            label@,
            items@.take(i as int),
        ).push(labelled_reason(label@, items@[i as int])));
        i = i + 1;
    }
    assert(items@.take(items@.len() as int) =~= items@);
    r
}

fn prefixed(prefix: &str, rest: &str) -> (r: String)
    ensures
        r@ == prefix@ + rest@,
{
    let mut r = String::from_str(prefix);
    r.append(rest);
    r
}

/// The answer after creating one account.
pub fn create_account_response(task: &TaskRequest, outcome: &WriteOutcome) -> (r: TaskResponse)
    ensures
        is_plain_response(
            r,
            *task,
            create_account_verdict(*outcome).0,
            create_account_verdict(*outcome).1,
        ),
{
    match outcome {
        WriteOutcome::Accepted => plain_response(task, true, "Account created"),
        WriteOutcome::Rejected(items) => {
            let list = reason_list(items);
            let all = join(&list, ";");
            let msg = prefixed("Failed to create account: ", all.as_str());
            plain_response(task, false, msg.as_str())
        },
        WriteOutcome::SendFailed { reason: _, summary } => {
            let msg = prefixed("Failed to create account: ", summary.as_str());
            plain_response(task, false, msg.as_str())
        },
        WriteOutcome::Failed(s) => {
            let msg = prefixed("Failed to create account: ", s.as_str());
            plain_response(task, false, msg.as_str())
        },
    }
}

/// The answer after creating a batch of accounts.
pub fn create_account_batch_response(task: &TaskRequest, outcome: &WriteOutcome) -> (r:
    TaskResponse)
    ensures
        is_plain_response(
            r,
            *task,
            create_account_batch_verdict(task.account_batch@.len(), *outcome).0,
            create_account_batch_verdict(task.account_batch@.len(), *outcome).1,
        ),
{
    match outcome {
        WriteOutcome::Accepted => {
            let msg = crate::text::with_number(
                "Created ",
                task.account_batch.len() as u128,
                " accounts",
            );
            plain_response(task, true, msg.as_str())
        },
        WriteOutcome::Rejected(items) => {
            let list = labelled_list("Account", items);
            let all = join(&list, "; ");
            let msg = prefixed("Failed to create account batch: ", all.as_str());
            plain_response(task, false, msg.as_str())
        },
        WriteOutcome::SendFailed { reason, summary: _ } => {
            let msg = prefixed("Network/Transport Error: ", reason.as_str());
            plain_response(task, false, msg.as_str())
        },
        WriteOutcome::Failed(s) => {
            let msg = prefixed("Failed to create account batch: ", s.as_str());
            plain_response(task, false, msg.as_str())
        },
    }
}

/// The answer after creating one transfer.
pub fn create_transfer_response(task: &TaskRequest, outcome: &WriteOutcome) -> (r: TaskResponse)
    ensures
        is_plain_response(
            r,
            *task,
            create_transfer_verdict(*outcome).0,
            create_transfer_verdict(*outcome).1,
        ),
{
    match outcome {
        WriteOutcome::Accepted => plain_response(task, true, "Transfer created"),
        WriteOutcome::Rejected(items) => {
            let list = labelled_list("transfer", items);
            let all = join(&list, "; ");
            let msg = prefixed("Failed to create transfer: ", all.as_str());
            plain_response(task, false, msg.as_str())
        },
        WriteOutcome::SendFailed { reason, summary: _ } => {
            let msg = prefixed("Network/Transport Error: ", reason.as_str());
            plain_response(task, false, msg.as_str())
        },
        WriteOutcome::Failed(s) => {
            let msg = prefixed("Unexpected Error: ", s.as_str());
            plain_response(task, false, msg.as_str())
        },
    }
}

/// The answer after creating a batch of transfers.
pub fn create_transfer_batch_response(task: &TaskRequest, outcome: &WriteOutcome) -> (r:
    TaskResponse)
    ensures
        is_plain_response(
            r,
            *task,
            create_transfer_batch_verdict(task.transfer_batch@.len(), *outcome).0,
            create_transfer_batch_verdict(task.transfer_batch@.len(), *outcome).1,
        ),
{
    match outcome {
        WriteOutcome::Accepted => {
            let msg = crate::text::with_number(
                "Created ",
                task.transfer_batch.len() as u128,
                " transfers",
            );
            plain_response(task, true, msg.as_str())
        },
        WriteOutcome::Rejected(items) => {
            let list = labelled_list("Transfer", items);
            let all = join(&list, "; ");
            let msg = prefixed("Failed to create transfer batch: ", all.as_str());
            plain_response(task, false, msg.as_str())
        },
        WriteOutcome::SendFailed { reason, summary: _ } => {
            let msg = prefixed("Network/Transport Error: ", reason.as_str());
            plain_response(task, false, msg.as_str())
        },
        WriteOutcome::Failed(s) => {
            let msg = prefixed("Unexpected error creating transfer batch: ", s.as_str());
            plain_response(task, false, msg.as_str())
        },
    }
}

/// The time stamp reported for a ledger time stamp.
pub open spec fn timestamp_of(since_epoch_nanos: Option<u128>) -> u64 {
    match since_epoch_nanos {
        Some(n) => (n % 0x1_0000_0000_0000_0000) as u64,
        None => 0,
    }
}

/// An account is reported as the ledger holds it.
pub open spec fn account_reported(a: Account, l: LedgerAccount) -> bool {
    &&& a.id == Some(split_u128(l.id))
    &&& a.debits_pending == Some(split_u128(l.debits_pending))
    &&& a.debits_posted == Some(split_u128(l.debits_posted))
    &&& a.credits_pending == Some(split_u128(l.credits_pending))
    &&& a.credits_posted == Some(split_u128(l.credits_posted))
    &&& a.ledger == l.ledger
    &&& a.code == l.code as u32
    &&& a.flags == l.flags as u32
    &&& a.timestamp == timestamp_of(l.since_epoch_nanos)
}

/// A transfer is reported as the ledger holds it.
pub open spec fn transfer_reported(t: Transfer, l: LedgerTransfer) -> bool {
    &&& t.id == Some(split_u128(l.id))
    &&& t.debit_account_id == Some(split_u128(l.debit_account_id))
    &&& t.credit_account_id == Some(split_u128(l.credit_account_id))
    &&& t.amount == Some(split_u128(l.amount))
    &&& t.ledger == l.ledger
    &&& t.code == l.code as u32
    &&& t.flags == l.flags as u32
    &&& t.timestamp == timestamp_of(l.since_epoch_nanos)
}

pub fn report_account(l: &LedgerAccount) -> (a: Account)
    ensures
        account_reported(a, *l),
{
    Account {
        id: Some(uint128_to_proto(l.id)),
        debits_pending: Some(uint128_to_proto(l.debits_pending)),
        debits_posted: Some(uint128_to_proto(l.debits_posted)),
        credits_pending: Some(uint128_to_proto(l.credits_pending)),
        credits_posted: Some(uint128_to_proto(l.credits_posted)),
        ledger: l.ledger,
        code: l.code as u32,
        flags: l.flags as u32,
        timestamp: system_time_to_u64(l.since_epoch_nanos),
    }
}

pub fn report_transfer(l: &LedgerTransfer) -> (t: Transfer)
    ensures
        transfer_reported(t, *l),
{
    Transfer {
        id: Some(uint128_to_proto(l.id)),
        debit_account_id: Some(uint128_to_proto(l.debit_account_id)),
        credit_account_id: Some(uint128_to_proto(l.credit_account_id)),
        amount: Some(uint128_to_proto(l.amount)),
        ledger: l.ledger,
        code: l.code as u32,
        flags: l.flags as u32,
        timestamp: system_time_to_u64(l.since_epoch_nanos),
    }
}

/// The count of found accounts, capped at the largest `i32`.
pub open spec fn capped_count(n: nat) -> i32 {
    if n > i32::MAX {
        i32::MAX
    } else {
        n as i32
    }
}

/// The answer listing the found accounts.
pub open spec fn is_accounts_response(r: TaskResponse, task: TaskRequest, found: Seq<LedgerAccount>) -> bool {
    &&& r.id@ == task.id@
    &&& r.task_type@ == signed_decimal(task.task_type as int)
    &&& r.success
    &&& r.message@ == "Accounts found"@
    &&& r.transfer_result is None
    &&& r.account_result matches Some(ar) && ar.count == capped_count(found.len()) && ar.accounts@.len()
        == found.len() && forall|i: int|
        0 <= i < found.len() ==> account_reported(#[trigger] ar.accounts@[i], found[i])
}

/// The answer listing the found transfers; the count is the number of
/// transfers cut to 32 bits.
pub open spec fn is_transfers_response(r: TaskResponse, task: TaskRequest, found: Seq<LedgerTransfer>) -> bool {
    &&& r.id@ == task.id@
    &&& r.task_type@ == signed_decimal(task.task_type as int)
    &&& r.success
    &&& r.message@ == "Found "@ + signed_decimal((found.len() as i32) as int) + " transfers"@
    &&& r.account_result is None
    &&& r.transfer_result matches Some(tr) && tr.count == found.len() as i32 && tr.transfers@.len()
        == found.len() && forall|i: int|
        0 <= i < found.len() ==> transfer_reported(#[trigger] tr.transfers@[i], found[i])
}

/// The answer to an account lookup: the found accounts, or a failure report
/// naming how many ids were asked for.
pub fn lookup_accounts_response(task: &TaskRequest, result: &Result<Vec<LedgerAccount>, String>) -> (r:
    Result<TaskResponse, ErrorReport>)
    ensures
        match *result {
            Ok(found) => r is Ok && is_accounts_response(r->Ok_0, *task, found@),
            Err(e) => r is Err && r->Err_0@ == report_with_entry(
                ErrorKind::TigerBeetle,
                "lookup_accounts"@,
                "Failed to lookup accounts: "@ + e@,
                "account_count"@,
                decimal(task.lookup_ids@.len()),
            ),
        },
{
    match result {
        Err(e) => {
            let msg = prefixed("Failed to lookup accounts: ", e.as_str());
            let count = crate::text::decimal_string(task.lookup_ids.len() as u128);
            Err(
                reported_with_entry(
                    ErrorKind::TigerBeetle,
                    "lookup_accounts",
                    msg.as_str(),
                    "account_count",
                    count.as_str(),
                ),
            )
        },
        Ok(found) => {
            let mut accounts: Vec<Account> = Vec::new();
            let mut i: usize = 0;
            while i < found.len()
                invariant
                    i <= found@.len(),
                    accounts@.len() == i,
                    forall|k: int|
                        0 <= k < i ==> account_reported(#[trigger] accounts@[k], found@[k]),
                decreases found@.len() - i,
            {
                accounts.push(report_account(&found[i]));
                i = i + 1;
            }
            let n = found.len();
            let count: i32 = if n > 0x7fff_ffffusize {
                0x7fff_ffffi32
            } else {
                n as i32
            };
            Ok(
                TaskResponse {
                    id: String::from_str(task.id.as_str()),
                    task_type: i32_string(task.task_type),
                    success: true,
                    message: String::from_str("Accounts found"),
                    account_result: Some(AccountResult { count, accounts }),
                    transfer_result: None,
                },
            )
        },
    }
}

/// The answer to a transfer lookup: the found transfers, or an unsuccessful
/// answer carrying the failure.
pub fn lookup_transfers_response(task: &TaskRequest, result: &Result<Vec<LedgerTransfer>, String>) -> (r:
    TaskResponse)
    ensures
        match *result {
            Ok(found) => is_transfers_response(r, *task, found@),
            Err(e) => is_plain_response(r, *task, false, "Failed to lookup transfers: "@ + e@),
        },
{
    match result {
        Err(e) => {
            let msg = prefixed("Failed to lookup transfers: ", e.as_str());
            plain_response(task, false, msg.as_str())
        },
        Ok(found) => {
            let mut transfers: Vec<Transfer> = Vec::new();
            let mut i: usize = 0;
            while i < found.len()
                invariant
                    i <= found@.len(),
                    transfers@.len() == i,
                    forall|k: int|
                        0 <= k < i ==> transfer_reported(#[trigger] transfers@[k], found@[k]),
                decreases found@.len() - i,
            {
                transfers.push(report_transfer(&found[i]));
                i = i + 1;
            }
            let count = found.len() as i32;
            let mut msg = String::from_str("Found ");
            push_signed_decimal(&mut msg, count as i128);
            msg.append(" transfers");
            TaskResponse {
                id: String::from_str(task.id.as_str()),
                task_type: i32_string(task.task_type),
                success: true,
                message: msg,
                account_result: None,
                transfer_result: Some(TransferResult { count, transfers }),
            }
        },
    }
}

/// The ledger's reply is of the kind that the task's request asks for.
pub open spec fn reply_fits(task: TaskRequest, reply: LedgerReply) -> bool {
    match task_type_of(task.task_type) {
        Some(TaskType::CreateAccount) => reply is Written,
        Some(TaskType::BatchAccounts) => reply is Written,
        Some(TaskType::CreateTransfer) => reply is Written,
        Some(TaskType::BatchTransfers) => reply is Written,
        Some(TaskType::LookupAccounts) => reply is Accounts,
        Some(TaskType::LookupTransfers) => reply is Transfers,
        _ => false,
    }
}

/// The answer to a task once the ledger has replied to its request.
pub fn finish_task(task: &TaskRequest, reply: &LedgerReply) -> (r: Result<TaskResponse, ErrorReport>)
    requires
        reply_fits(*task, *reply),
    ensures
        match *reply {
            LedgerReply::Written(o) => r is Ok && match task_type_of(task.task_type) {
                Some(TaskType::CreateAccount) => is_plain_response(
                    r->Ok_0,
                    *task,
                    create_account_verdict(o).0,
                    create_account_verdict(o).1,
                ),
                Some(TaskType::BatchAccounts) => is_plain_response(
                    r->Ok_0,
                    *task,
                    create_account_batch_verdict(task.account_batch@.len(), o).0,
                    create_account_batch_verdict(task.account_batch@.len(), o).1,
                ),
                Some(TaskType::CreateTransfer) => is_plain_response(
                    r->Ok_0,
                    *task,
                    create_transfer_verdict(o).0,
                    create_transfer_verdict(o).1,
                ),
                _ => is_plain_response(
                    r->Ok_0,
                    *task,
                    create_transfer_batch_verdict(task.transfer_batch@.len(), o).0,
                    create_transfer_batch_verdict(task.transfer_batch@.len(), o).1,
                ),
            },
            LedgerReply::Accounts(res) => match res {
                Ok(found) => r is Ok && is_accounts_response(r->Ok_0, *task, found@),
                Err(e) => r is Err && r->Err_0@ == report_with_entry(
                    ErrorKind::TigerBeetle,
                    "lookup_accounts"@,
                    "Failed to lookup accounts: "@ + e@,
                    "account_count"@,
                    decimal(task.lookup_ids@.len()),
                ),
            },
            LedgerReply::Transfers(res) => r is Ok && match res {
                Ok(found) => is_transfers_response(r->Ok_0, *task, found@),
                Err(e) => is_plain_response(
                    r->Ok_0,
                    *task,
                    false,
                    "Failed to lookup transfers: "@ + e@,
                ),
            },
        },
{
    match reply {
        LedgerReply::Written(o) => {
            let t = TaskType::try_from_i32(task.task_type);
            match t {
                Some(TaskType::CreateAccount) => Ok(create_account_response(task, o)),
                Some(TaskType::BatchAccounts) => Ok(create_account_batch_response(task, o)),
                Some(TaskType::CreateTransfer) => Ok(create_transfer_response(task, o)),
                _ => Ok(create_transfer_batch_response(task, o)),
            }
        },
        LedgerReply::Accounts(res) => lookup_accounts_response(task, res),
        LedgerReply::Transfers(res) => Ok(lookup_transfers_response(task, res)),
    }
}

} // verus!
