//! Properties that hold across the library's functions.

use vstd::prelude::*;
use crate::config::{digit_value, is_digit, parse_u16_spec, scan_digits};
use crate::error::{kind_tag, message_with_layer, AppErrorModel, ErrorKind, ErrorStatus, ReportModel};
use crate::error::ErrorReport;
use crate::handlers::{account_batch_plan, step_follows, task_plan, transfer_batch_plan, PlanModel, TaskStep};
use crate::ledger::{LedgerRequest, NewTransfer};
use crate::kinds::{
    delay_of, kind_found_fits, kind_found_in, kind_in_chain, kind_rank, lemma_fitting_kind_retry,
    retryable_of, shows_tag,
};
use crate::ledger::LedgerReply;
use crate::responses::reply_fits;
use crate::task::{
    opt_u128_value, split_u128, task_type_of, u128_value, CreateAccountRequest, CreateTransferRequest,
    TaskRequest, TaskType, UInt128,
};
use crate::text::{contains_seq, decimal, digit_char, occurs_at};
use crate::worker::{content_type_of, ContentType};

verus! {

/// Splitting a 128-bit integer into halves and joining them gives it back.
pub proof fn lemma_uint128_split_join(v: u128)
    ensures
        u128_value(split_u128(v)) == v,
{
}

/// Joining two halves and splitting the result gives the halves back.
pub proof fn lemma_uint128_join_split(h: UInt128)
    ensures
        split_u128(u128_value(h)) == h,
{
    assert(h.high as int * 0x1_0000_0000_0000_0000 + h.low as int <= u128::MAX);
}

/// The string of a content type names that content type.
pub proof fn lemma_content_type_roundtrip(c: ContentType)
    ensures
        content_type_of(c.spec_as_str()) == c,
{
    reveal_strlit("application/json");
    reveal_strlit("application/x-protobuf");
    if c == ContentType::Protobuf {
        assert("application/x-protobuf"@.len() != "application/json"@.len());
    }
}

/// A kind is retried exactly when it has a positive retry delay.
pub proof fn lemma_retryable_iff_positive_delay(k: ErrorKind)
    ensures
        k.spec_is_retryable() <==> k.spec_retry_delay_ms() > 0,
{
}

/// A kind is retried exactly when its errors start out temporary.
pub proof fn lemma_retryable_iff_temporary(k: ErrorKind)
    ensures
        k.spec_is_retryable() <==> k.spec_status() == ErrorStatus::Temporary,
{
}

/// An error whose status follows its kind (as `new`, `with_message` and
/// `kind` leave it) is retryable exactly when its kind is.
pub proof fn lemma_error_retryable_follows_kind(e: AppErrorModel)
    requires
        e.status == e.kind.spec_status(),
    ensures
        e.is_retryable() == e.kind.spec_is_retryable(),
{
}

/// The report an error turns into shows the error's kind tag, and keeps the
/// source's root message and layers underneath its own.
pub proof fn lemma_report_shows_kind(e: AppErrorModel)
    ensures
        e.report().outermost() == kind_tag(e.kind),
        e.source matches Some(s) ==> e.report().root == s.root && e.report().layers.take(
            s.layers.len() as int,
        ) == s.layers,
        e.source is None ==> e.report().root == e.message,
{
    let r = e.report();
    if let Some(s) = e.source {
        assert(r.layers.take(s.layers.len() as int) =~= s.layers);
    }
}

/// The kind found in a chain is mentioned by one of its causes.
pub proof fn lemma_found_kind_is_mentioned(chain: Seq<Seq<char>>)
    ensures
        kind_in_chain(chain) matches Some(k) ==> exists|i: int|
            0 <= i < chain.len() && contains_seq(#[trigger] chain[i], kind_tag(k)),
    decreases chain.len(),
{
    if chain.len() > 0 {
        lemma_found_kind_is_mentioned(chain.drop_first());
        if let Some(k) = kind_in_chain(chain) {
            if kind_found_in(chain[0]) is Some {
                assert(contains_seq(chain[0], kind_tag(k)));
            } else {
                let i = choose|i: int|
                    0 <= i < chain.drop_first().len() && contains_seq(
                        #[trigger] chain.drop_first()[i],
                        kind_tag(k),
                    );
                assert(chain[i + 1] == chain.drop_first()[i]);
            }
        }
    }
}

/// When some cause mentions some kind tag, a kind is found.
pub proof fn lemma_mentioned_kind_is_found(chain: Seq<Seq<char>>, i: int, k: ErrorKind)
    requires
        0 <= i < chain.len(),
        contains_seq(chain[i], kind_tag(k)),
    ensures
        kind_in_chain(chain) is Some,
    decreases chain.len(),
{
    if kind_found_in(chain[0]) is None {
        if i == 0 {
            assert(kind_found_in(chain[0]) is Some) by {
                match k {
                    ErrorKind::NetworkTimeout => {},
                    ErrorKind::DatabaseUnavailable => {},
                    ErrorKind::TemporaryOverload => {},
                    ErrorKind::InvalidTaskFormat => {},
                    ErrorKind::InvalidInput => {},
                    ErrorKind::AccountAlreadyExists => {},
                    ErrorKind::InsufficientBalance => {},
                    ErrorKind::InvalidOperation => {},
                    ErrorKind::ProtobufDecode => {},
                    ErrorKind::TigerBeetle => {},
                    ErrorKind::RabbitMQ => {},
                }
            }
        } else {
            assert(chain.drop_first()[i - 1] == chain[i]);
            lemma_mentioned_kind_is_found(chain.drop_first(), i - 1, k);
        }
    }
}

/// The tags of two different kinds do not occur in each other.
proof fn lemma_tags_apart(k: ErrorKind, j: ErrorKind)
    requires
        k != j,
    ensures
        !contains_seq(kind_tag(k), kind_tag(j)),
{
    reveal_strlit("ErrorKind::");
    reveal_strlit("NetworkTimeout");
    reveal_strlit("DatabaseUnavailable");
    reveal_strlit("TemporaryOverload");
    reveal_strlit("InvalidTaskFormat");
    reveal_strlit("InvalidInput");
    reveal_strlit("AccountAlreadyExists");
    reveal_strlit("InsufficientBalance");
    reveal_strlit("InvalidOperation");
    reveal_strlit("ProtobufDecode");
    reveal_strlit("TigerBeetle");
    reveal_strlit("RabbitMQ");
    let tk = kind_tag(k);
    let tj = kind_tag(j);
    assert forall|i: int| !occurs_at(tk, tj, i) by {
        if occurs_at(tk, tj, i) {
            let sub = tk.subrange(i, i + tj.len());
            if i == 0 {
                assert(sub[11] == tj[11] && sub[12] == tj[12] && sub[13] == tj[13] && sub[14]
                    == tj[14]);
                assert(sub[15] == tj[15] && sub[16] == tj[16] && sub[17] == tj[17] && sub[18]
                    == tj[18]);
            } else {
                assert(sub[0] == tj[0]);
            }
        }
    }
}

/// The tag of a kind, searched for kinds, is found to be that kind.
pub proof fn lemma_tag_names_its_kind(k: ErrorKind)
    ensures
        kind_found_in(kind_tag(k)) == Some(k),
{
    let t = kind_tag(k);
    assert(occurs_at(t, t, 0)) by {
        assert(t.subrange(0, t.len() as int) =~= t);
    }
    if k != ErrorKind::NetworkTimeout {
        lemma_tags_apart(k, ErrorKind::NetworkTimeout);
    }
    if k != ErrorKind::DatabaseUnavailable {
        lemma_tags_apart(k, ErrorKind::DatabaseUnavailable);
    }
    if k != ErrorKind::TemporaryOverload {
        lemma_tags_apart(k, ErrorKind::TemporaryOverload);
    }
    if k != ErrorKind::InvalidTaskFormat {
        lemma_tags_apart(k, ErrorKind::InvalidTaskFormat);
    }
    if k != ErrorKind::AccountAlreadyExists {
        lemma_tags_apart(k, ErrorKind::AccountAlreadyExists);
    }
    if k != ErrorKind::InsufficientBalance {
        lemma_tags_apart(k, ErrorKind::InsufficientBalance);
    }
    if k != ErrorKind::InvalidOperation {
        lemma_tags_apart(k, ErrorKind::InvalidOperation);
    }
    if k != ErrorKind::ProtobufDecode {
        lemma_tags_apart(k, ErrorKind::ProtobufDecode);
    }
    if k != ErrorKind::TigerBeetle {
        lemma_tags_apart(k, ErrorKind::TigerBeetle);
    }
    if k != ErrorKind::RabbitMQ {
        lemma_tags_apart(k, ErrorKind::RabbitMQ);
    }
    if k != ErrorKind::InvalidInput {
        lemma_tags_apart(k, ErrorKind::InvalidInput);
    }
}

/// A tag occurs in itself.
proof fn lemma_tag_in_itself(k: ErrorKind)
    ensures
        contains_seq(kind_tag(k), kind_tag(k)),
{
    let t = kind_tag(k);
    assert(t.subrange(0, t.len() as int) =~= t);
    assert(occurs_at(t, t, 0));
}

/// The report that an error turns into (`into_anyhow`) shows the error's
/// kind tag.
pub proof fn lemma_error_report_shows_its_kind(e: AppErrorModel)
    ensures
        shows_tag(e.report(), e.kind),
{
    let m = e.report();
    lemma_tag_in_itself(e.kind);
    assert(m.layers[m.layers.len() - 1] == kind_tag(e.kind));
}

/// A message tagged with a kind (the kind constructors) shows that kind's
/// tag.
pub proof fn lemma_tagged_message_shows_its_kind(message: Seq<char>, k: ErrorKind)
    ensures
        shows_tag(message_with_layer(message, kind_tag(k)), k),
{
    lemma_tag_in_itself(k);
    assert(message_with_layer(message, kind_tag(k)).layers[0] == kind_tag(k));
}

/// A report wrapped in a kind's tag (`with_kind`) shows that tag.
pub proof fn lemma_wrapped_report_shows_its_kind(m: ReportModel, k: ErrorKind)
    ensures
        shows_tag(m.wrap(kind_tag(k)), k),
{
    lemma_tag_in_itself(k);
    assert(m.wrap(kind_tag(k)).layers[m.layers.len() as int] == kind_tag(k));
}

/// A report that shows a kind's tag keeps that kind for the search: the
/// kind found is that kind or one tried before it; a kind to retry leaves the
/// report retried with a positive delay; `NetworkTimeout` is found exactly,
/// with its delay of 100 ms.
pub proof fn lemma_tagged_report_keeps_kind(m: ReportModel, k: ErrorKind, found: Option<ErrorKind>)
    requires
        shows_tag(m, k),
        kind_found_fits(m, found),
    ensures
        found matches Some(j) && kind_rank(j) <= kind_rank(k),
        k.spec_is_retryable() ==> retryable_of(found) && delay_of(found) > 0,
        k == ErrorKind::NetworkTimeout ==> found == Some(ErrorKind::NetworkTimeout) && delay_of(found)
            == 100,
{
    lemma_fitting_kind_retry(m, found);
}

/// When the first rendered cause shows one kind's tag and no other, that kind
/// is found, with its own retry policy and delay; so a report built by
/// `into_anyhow`, `with_kind` or a kind's constructor keeps its kind exactly
/// whenever its renderings hold no other tag.
pub proof fn lemma_sole_tag_is_found(chain: Seq<Seq<char>>, k: ErrorKind)
    requires
        chain.len() >= 1,
        contains_seq(chain[0], kind_tag(k)),
        forall|j: ErrorKind| j != k ==> !contains_seq(chain[0], #[trigger] kind_tag(j)),
    ensures
        kind_in_chain(chain) == Some(k),
        retryable_of(kind_in_chain(chain)) == k.spec_is_retryable(),
        delay_of(kind_in_chain(chain)) == k.spec_retry_delay_ms(),
{
    assert(kind_found_in(chain[0]) == Some(k));
}

/// A batch of accounts that is sent to the ledger holds one account per item,
/// in the items' order, each with its item's id, ledger, code and user data.
pub proof fn lemma_account_batch_keeps_items(batch: Seq<CreateAccountRequest>)
    ensures
        account_batch_plan(batch) matches Ok(accounts) ==> {
            &&& accounts.len() == batch.len()
            &&& forall|i: int|
                0 <= i < batch.len() ==> {
                    &&& batch[i].id is Some
                    &&& (#[trigger] accounts[i]).id == u128_value(batch[i].id->0)
                    &&& accounts[i].ledger == batch[i].ledger
                    &&& accounts[i].code as int == batch[i].code as int
                    &&& accounts[i].user_data_128 == opt_u128_value(batch[i].user_data_128)
                    &&& accounts[i].user_data_64 == batch[i].user_data_64
                    &&& accounts[i].user_data_32 == batch[i].user_data_32
                }
        },
    decreases batch.len(),
{
    if batch.len() > 0 {
        lemma_account_batch_keeps_items(batch.drop_last());
        if let Ok(accounts) = account_batch_plan(batch) {
            let prev = account_batch_plan(batch.drop_last())->Ok_0;
            assert forall|i: int| 0 <= i < batch.len() implies {
                &&& batch[i].id is Some
                &&& (#[trigger] accounts[i]).id == u128_value(batch[i].id->0)
                &&& accounts[i].ledger == batch[i].ledger
                &&& accounts[i].code as int == batch[i].code as int
                &&& accounts[i].user_data_128 == opt_u128_value(batch[i].user_data_128)
                &&& accounts[i].user_data_64 == batch[i].user_data_64
                &&& accounts[i].user_data_32 == batch[i].user_data_32
            } by {
                if i < batch.len() - 1 {
                    assert(batch.drop_last()[i] == batch[i]);
                    assert(accounts[i] == prev[i]);
                }
            }
        }
    }
}

/// The number that the two halves of a wire id stand for.
pub open spec fn halves_value(u: UInt128) -> int {
    u.high as int * 0x1_0000_0000_0000_0000 + u.low as int
}

/// A wire id present gives the number of its halves; one absent gives none.
pub open spec fn carries(v: Option<u128>, u: Option<UInt128>) -> bool {
    match u {
        Some(x) => v matches Some(n) && n as int == halves_value(x),
        None => v is None,
    }
}

/// Exactly three kinds are retried: network timeouts after 100 ms, an
/// unavailable database after 1000 ms and a temporary overload after 500 ms,
/// and errors of these kinds start out temporary. Every other kind is
/// permanent and has no retry delay.
pub proof fn lemma_retry_policy(k: ErrorKind)
    ensures
        k.spec_is_retryable() <==> (k == ErrorKind::NetworkTimeout || k == ErrorKind::DatabaseUnavailable
            || k == ErrorKind::TemporaryOverload),
        k == ErrorKind::NetworkTimeout ==> k.spec_retry_delay_ms() == 100,
        k == ErrorKind::DatabaseUnavailable ==> k.spec_retry_delay_ms() == 1000,
        k == ErrorKind::TemporaryOverload ==> k.spec_retry_delay_ms() == 500,
        k.spec_is_retryable() ==> k.spec_status() == ErrorStatus::Temporary,
        !k.spec_is_retryable() ==> k.spec_retry_delay_ms() == 0 && k.spec_status()
            == ErrorStatus::Permanent,
{
}

/// A create-account task whose id, ledger and code are given, with a code
/// that fits in 16 bits, is sent to the ledger as one account carrying the
/// task's id, ledger, code and user data; any other such task is not sent.
pub proof fn lemma_create_account_request(task: TaskRequest, r: Result<TaskStep, ErrorReport>)
    requires
        task_type_of(task.task_type) == Some(TaskType::CreateAccount),
        step_follows(task, r, task_plan(task)),
    ensures
        (task.account_id is Some && task.ledger is Some && task.code is Some && task.code->0 <= 0xffff)
            <==> r matches Ok(TaskStep::Call(LedgerRequest::CreateAccounts(_))),
        r matches Ok(TaskStep::Call(LedgerRequest::CreateAccounts(v))) ==> {
            &&& v@.len() == 1
            &&& v@[0].id as int == halves_value(task.account_id->0)
            &&& v@[0].ledger == task.ledger->0
            &&& v@[0].code as int == task.code->0 as int
            &&& carries(v@[0].user_data_128, task.user_data_128)
            &&& v@[0].user_data_64 == task.user_data_64
            &&& v@[0].user_data_32 == task.user_data_32
        },
{
}

/// A batch of accounts sent to the ledger holds, for each item in order, an
/// account with the item's id, ledger, code and user data.
pub proof fn lemma_account_batch_request(task: TaskRequest, r: Result<TaskStep, ErrorReport>)
    requires
        task_type_of(task.task_type) == Some(TaskType::BatchAccounts),
        step_follows(task, r, task_plan(task)),
    ensures
        r matches Ok(TaskStep::Call(LedgerRequest::CreateAccounts(v))) ==> {
            &&& v@.len() == task.account_batch@.len()
            &&& forall|i: int|
                0 <= i < v@.len() ==> {
                    &&& task.account_batch@[i].id is Some
                    &&& (#[trigger] v@[i]).id as int == halves_value(task.account_batch@[i].id->0)
                    &&& v@[i].ledger == task.account_batch@[i].ledger
                    &&& v@[i].code as int == task.account_batch@[i].code as int
                    &&& carries(v@[i].user_data_128, task.account_batch@[i].user_data_128)
                    &&& v@[i].user_data_64 == task.account_batch@[i].user_data_64
                    &&& v@[i].user_data_32 == task.account_batch@[i].user_data_32
                }
        },
{
    lemma_account_batch_keeps_items(task.account_batch@);
}

/// A transfer lookup with ids asks the ledger for every listed id, in order;
/// one without ids fails.
pub proof fn lemma_transfer_lookup_request(task: TaskRequest, r: Result<TaskStep, ErrorReport>)
    requires
        task_type_of(task.task_type) == Some(TaskType::LookupTransfers),
        step_follows(task, r, task_plan(task)),
    ensures
        task.lookup_ids@.len() == 0 <==> r is Err,
        task.lookup_ids@.len() > 0 ==> (r matches Ok(TaskStep::Call(LedgerRequest::LookupTransfers(v)))
            && v@.len() == task.lookup_ids@.len() && forall|i: int|
            0 <= i < v@.len() ==> (#[trigger] v@[i]) as int == halves_value(task.lookup_ids@[i])),
{
}

/// An account lookup asks the ledger for every listed id, in order.
pub proof fn lemma_account_lookup_request(task: TaskRequest, r: Result<TaskStep, ErrorReport>)
    requires
        task_type_of(task.task_type) == Some(TaskType::LookupAccounts),
        step_follows(task, r, task_plan(task)),
    ensures
        r matches Ok(TaskStep::Call(LedgerRequest::LookupAccounts(v))) && v@.len()
            == task.lookup_ids@.len() && forall|i: int|
            0 <= i < v@.len() ==> (#[trigger] v@[i]) as int == halves_value(task.lookup_ids@[i]),
{
}

/// A batch of transfers that is sent to the ledger holds one transfer per
/// item, in the items' order, each with its item's accounts, amount, id,
/// ledger and code (a missing ledger or code counts as 0).
pub proof fn lemma_transfer_batch_keeps_items(batch: Seq<CreateTransferRequest>)
    ensures
        transfer_batch_plan(batch) matches PlanModel::Transfers(items) ==> {
            &&& items.len() == batch.len()
            &&& forall|i: int|
                0 <= i < batch.len() ==> {
                    &&& (#[trigger] items[i]).debit_account_id == u128_value(
                        batch[i].debit_account_id->0,
                    )
                    &&& items[i].credit_account_id == u128_value(batch[i].credit_account_id->0)
                    &&& items[i].amount == u128_value(batch[i].amount->0)
                    &&& items[i].amount != 0
                    &&& items[i].debit_account_id != items[i].credit_account_id
                    &&& items[i].id == opt_u128_value(batch[i].id)
                    &&& items[i].ledger == (match batch[i].ledger {
                        Some(l) => l,
                        None => 0,
                    })
                    &&& items[i].code as int == (match batch[i].code {
                        Some(c) => c as int,
                        None => 0,
                    })
                }
        },
    decreases batch.len(),
{
    if batch.len() > 0 {
        lemma_transfer_batch_keeps_items(batch.drop_last());
        if let PlanModel::Transfers(items) = transfer_batch_plan(batch) {
            let prev = transfer_batch_plan(batch.drop_last());
            assert(prev is Transfers);
            let prev_items = prev->Transfers_0;
            assert forall|i: int| 0 <= i < batch.len() implies {
                &&& (#[trigger] items[i]).debit_account_id == u128_value(
                    batch[i].debit_account_id->0,
                )
                &&& items[i].credit_account_id == u128_value(batch[i].credit_account_id->0)
                &&& items[i].amount == u128_value(batch[i].amount->0)
                &&& items[i].amount != 0
                &&& items[i].debit_account_id != items[i].credit_account_id
                &&& items[i].id == opt_u128_value(batch[i].id)
                &&& items[i].ledger == (match batch[i].ledger {
                    Some(l) => l,
                    None => 0,
                })
                &&& items[i].code as int == (match batch[i].code {
                    Some(c) => c as int,
                    None => 0,
                })
            } by {
                if i < batch.len() - 1 {
                    assert(batch.drop_last()[i] == batch[i]);
                    assert(items[i] == prev_items[i]);
                }
            }
        }
    }
}

/// A transfer sent to the ledger for a wire request: its accounts and
/// amount are the request's, nonzero and distinct; its id is the request's,
/// or a random version-4 id where none is given.
pub open spec fn sent_for(t: NewTransfer, id: Option<UInt128>, debit: UInt128, credit: UInt128, amount: UInt128) -> bool {
    &&& t.debit_account_id as int == halves_value(debit)
    &&& t.credit_account_id as int == halves_value(credit)
    &&& t.amount as int == halves_value(amount)
    &&& t.amount != 0
    &&& t.debit_account_id != t.credit_account_id
    &&& match id {
        Some(x) => t.id as int == halves_value(x),
        None => (t.id >> 76u32) & 0xfu128 == 4u128,
    }
}

/// A single transfer sent to the ledger carries the task's accounts,
/// amount, ledger, code and id (a random one where none is given).
pub proof fn lemma_create_transfer_request(task: TaskRequest, r: Result<TaskStep, ErrorReport>)
    requires
        task_type_of(task.task_type) == Some(TaskType::CreateTransfer),
        step_follows(task, r, task_plan(task)),
    ensures
        r matches Ok(TaskStep::Call(LedgerRequest::CreateTransfers(v))) ==> {
            &&& v@.len() == 1
            &&& sent_for(
                v@[0],
                task.transfer_id,
                task.debit_account_id->0,
                task.credit_account_id->0,
                task.amount->0,
            )
            &&& v@[0].ledger == task.ledger->0
            &&& v@[0].code as int == task.code->0 as int
        },
{
}

/// A batch of transfers sent to the ledger holds, for each item in order, a
/// transfer with the item's accounts, amount and id (a random one where none
/// is given), and its ledger and code, 0 where missing.
pub proof fn lemma_transfer_batch_request(task: TaskRequest, r: Result<TaskStep, ErrorReport>)
    requires
        task_type_of(task.task_type) == Some(TaskType::BatchTransfers),
        step_follows(task, r, task_plan(task)),
    ensures
        r matches Ok(TaskStep::Call(LedgerRequest::CreateTransfers(v))) ==> {
            &&& v@.len() == task.transfer_batch@.len()
            &&& forall|i: int|
                0 <= i < v@.len() ==> {
                    &&& sent_for(
                        #[trigger] v@[i],
                        task.transfer_batch@[i].id,
                        task.transfer_batch@[i].debit_account_id->0,
                        task.transfer_batch@[i].credit_account_id->0,
                        task.transfer_batch@[i].amount->0,
                    )
                    &&& v@[i].ledger == (match task.transfer_batch@[i].ledger {
                        Some(l) => l,
                        None => 0,
                    })
                    &&& v@[i].code as int == (match task.transfer_batch@[i].code {
                        Some(c) => c as int,
                        None => 0,
                    })
                }
        },
{
    lemma_transfer_batch_keeps_items(task.transfer_batch@);
}

/// A batch of transfers never plans an account request or a lookup.
proof fn lemma_transfer_batch_plan_shape(batch: Seq<CreateTransferRequest>)
    ensures
        transfer_batch_plan(batch) is Transfers || transfer_batch_plan(batch) is Fail
            || transfer_batch_plan(batch) is Reject,
    decreases batch.len(),
{
    if batch.len() > 0 {
        lemma_transfer_batch_plan_shape(batch.drop_last());
    }
}

/// Whatever a task asks of the ledger, the reply of the matching kind is one
/// that `finish_task` accepts.
pub proof fn lemma_planned_request_reply_fits(task: TaskRequest, reply: LedgerReply)
    ensures
        task_plan(task) is Accounts && reply is Written ==> reply_fits(task, reply),
        task_plan(task) is Transfers && reply is Written ==> reply_fits(task, reply),
        task_plan(task) is AccountLookup && reply is Accounts ==> reply_fits(task, reply),
        task_plan(task) is TransferLookup && reply is Transfers ==> reply_fits(task, reply),
{
    lemma_transfer_batch_plan_shape(task.transfer_batch@);
}

proof fn lemma_digit(d: int)
    requires
        0 <= d < 10,
    ensures
        is_digit(digit_char(d)),
        digit_value(digit_char(d)) == d,
        digit_char(d) != '+',
{
}

proof fn lemma_scan_push(s: Seq<char>, acc: int, c: char)
    requires
        0 <= acc <= 65535,
        scan_digits(s, acc) is Ok,
    ensures
        scan_digits(s.push(c), acc) == (if !is_digit(c) {
            Err(crate::config::IntParseFailure::InvalidDigit)
        } else if scan_digits(s, acc)->Ok_0 * 10 + digit_value(c) > 65535 {
            Err(crate::config::IntParseFailure::PosOverflow)
        } else {
            scan_digits(Seq::empty(), scan_digits(s, acc)->Ok_0 * 10 + digit_value(c))
        }),
    decreases s.len(),
{
    if s.len() == 0 {
        assert(seq![c].drop_first() =~= Seq::<char>::empty());
        assert(s.push(c) =~= seq![c]);
    } else {
        assert(s.push(c)[0] == s[0]);
        assert(s.push(c).drop_first() =~= s.drop_first().push(c));
        lemma_scan_push(s.drop_first(), acc * 10 + digit_value(s[0]), c);
    }
}

proof fn lemma_scan_decimal(n: nat)
    requires
        n <= 65535,
    ensures
        scan_digits(decimal(n), 0) == Ok::<u16, crate::config::IntParseFailure>(n as u16),
        decimal(n).len() > 0,
        decimal(n)[0] != '+',
    decreases n,
{
    if n < 10 {
        lemma_digit(n as int);
        let s = seq![digit_char(n as int)];
        assert(s.drop_first() =~= Seq::<char>::empty());
        assert(decimal(n) == s);
        assert(scan_digits(s.drop_first(), n as int) == Ok::<u16, crate::config::IntParseFailure>(n as u16));
        assert(scan_digits(s, 0) == scan_digits(s.drop_first(), 0 * 10 + digit_value(s[0])));
    } else {
        lemma_scan_decimal(n / 10);
        lemma_digit((n % 10) as int);
        lemma_scan_push(decimal(n / 10), 0, digit_char((n % 10) as int));
        assert(decimal(n) == decimal(n / 10).push(digit_char((n % 10) as int)));
        assert((n / 10) * 10 + n % 10 == n);
        assert(decimal(n)[0] == decimal(n / 10)[0]);
    }
}

/// The decimal rendering of a port parses back to it.
pub proof fn lemma_port_roundtrip(port: u16)
    ensures
        parse_u16_spec(decimal(port as nat)) == Ok::<u16, crate::config::IntParseFailure>(port),
{
    lemma_scan_decimal(port as nat);
}

} // verus!
