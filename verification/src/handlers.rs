//! The decisions taken for each task: which ledger request a task becomes
//! (or why it is refused), and which response answers the ledger's reply.

use vstd::prelude::*;
use vstd::string::*;
use crate::error::{
    kind_tag, message_with_layer, plain_report, report_with_entry, reported, reported_with_entry,
    ErrorKind, ErrorReport, ReportModel,
};
use crate::kinds::invalid_task_format;
use crate::ledger::{is_random_uuid, new_random_id, LedgerRequest, NewAccount, NewTransfer};
use crate::task::{
    opt_u128_value, task_type_of, u128_value, CreateAccountRequest, CreateTransferRequest,
    TaskRequest, TaskResponse, TaskType, UInt128,
};
use crate::text::{decimal, i32_string, signed_decimal, with_number};
use crate::worker::proto_to_uint128;

verus! {

/// A transfer as planned: the id is the one the task gives, if any; a
/// missing id is drawn at random.
pub struct TransferItem {
    pub id: Option<u128>,
    pub debit_account_id: u128,
    pub credit_account_id: u128,
    pub amount: u128,
    pub ledger: u32,
    pub code: u16,
}

/// What a task becomes before the ledger is asked anything.
pub enum PlanModel {
    /// The task is malformed: processing fails with this report.
    Fail(ReportModel),
    /// The task is refused: it is answered, unsuccessfully, with this message.
    Reject(Seq<char>),
    Accounts(Seq<NewAccount>),
    AccountLookup(Seq<u128>),
    Transfers(Seq<TransferItem>),
    TransferLookup(Seq<u128>),
}

/// The next step of a task: answer it now, or ask the ledger first.
#[derive(Debug)]
pub enum TaskStep {
    Respond(TaskResponse),
    Call(LedgerRequest),
}

/// A response that carries only a verdict and a message.
pub open spec fn is_plain_response(r: TaskResponse, task: TaskRequest, success: bool, message: Seq<char>) -> bool {
    &&& r.id@ == task.id@
    &&& r.task_type@ == signed_decimal(task.task_type as int)
    &&& r.success == success
    &&& r.message@ == message
    &&& r.account_result is None
    &&& r.transfer_result is None
}

/// A planned transfer and the transfer sent agree.
pub open spec fn transfer_fits(t: NewTransfer, item: TransferItem) -> bool {
    &&& match item.id {
        Some(x) => t.id == x,
        None => is_random_uuid(t.id),
    }
    &&& t.debit_account_id == item.debit_account_id
    &&& t.credit_account_id == item.credit_account_id
    &&& t.amount == item.amount
    &&& t.ledger == item.ledger
    &&& t.code == item.code
}

/// The step taken follows the plan.
pub open spec fn step_follows(task: TaskRequest, r: Result<TaskStep, ErrorReport>, plan: PlanModel) -> bool {
    match plan {
        PlanModel::Fail(m) => r is Err && r->Err_0@ == m,
        PlanModel::Reject(msg) => r matches Ok(TaskStep::Respond(resp)) && is_plain_response(
            resp,
            task,
            false,
            msg,
        ),
        PlanModel::Accounts(a) => r matches Ok(TaskStep::Call(LedgerRequest::CreateAccounts(v)))
            && v@ == a,
        PlanModel::AccountLookup(ids) => r matches Ok(
            TaskStep::Call(LedgerRequest::LookupAccounts(v)),
        ) && v@ == ids,
        PlanModel::Transfers(items) => r matches Ok(
            TaskStep::Call(LedgerRequest::CreateTransfers(v)),
        ) && v@.len() == items.len() && forall|i: int|
            0 <= i < items.len() ==> transfer_fits(#[trigger] v@[i], items[i]),
        PlanModel::TransferLookup(ids) => r matches Ok(
            TaskStep::Call(LedgerRequest::LookupTransfers(v)),
        ) && v@ == ids,
    }
}

/// A report of a malformed task.
pub open spec fn malformed(message: Seq<char>) -> ReportModel {
    message_with_layer(message, kind_tag(ErrorKind::InvalidTaskFormat))
}

pub open spec fn or_zero(v: Option<u32>) -> u32 {
    match v {
        Some(x) => x,
        None => 0,
    }
}

pub open spec fn new_account_of(
    id: UInt128,
    ledger: u32,
    code: u32,
    user_data_128: Option<UInt128>,
    user_data_64: Option<u64>,
    user_data_32: Option<u32>,
) -> NewAccount {
    NewAccount {
        id: u128_value(id),
        ledger,
        code: code as u16,
        user_data_128: opt_u128_value(user_data_128),
        user_data_64,
        user_data_32,
    }
}

/// A single account: id, ledger and code must be given, the code must fit
/// in 16 bits.
pub open spec fn create_account_plan(task: TaskRequest) -> PlanModel {
    match task.account_id {
        None => PlanModel::Fail(malformed("Missing account_id"@)),
        Some(id) => match task.ledger {
            None => PlanModel::Fail(malformed("Missing ledger"@)),
            Some(ledger) => match task.code {
                None => PlanModel::Fail(malformed("Missing code"@)),
                Some(code) => if code > 0xffff {
                    PlanModel::Fail(malformed("code exceeds u16 range"@))
                } else {
                    PlanModel::Accounts(
                        seq![
                            new_account_of(
                                id,
                                ledger,
                                code,
                                task.user_data_128,
                                task.user_data_64,
                                task.user_data_32,
                            ),
                        ],
                    )
                },
            },
        },
    }
}

/// One account of a batch, at position `i`.
pub open spec fn account_item_check(req: CreateAccountRequest, i: int) -> Result<NewAccount, ReportModel> {
    match req.id {
        None => Err(malformed("Missing id for account_batch["@ + decimal(i as nat) + "]"@)),
        Some(id) => if req.code > 0xffff {
            Err(malformed("code exceeds u16 range for account_batch["@ + decimal(i as nat) + "]"@))
        } else {
            Ok(
                new_account_of(
                    id,
                    req.ledger,
                    req.code,
                    req.user_data_128,
                    req.user_data_64,
                    req.user_data_32,
                ),
            )
        },
    }
}

/// The accounts of a batch, or the report of its first malformed item.
pub open spec fn account_batch_plan(batch: Seq<CreateAccountRequest>) -> Result<Seq<NewAccount>, ReportModel>
    decreases batch.len(),
{
    if batch.len() == 0 {
        Ok(Seq::empty())
    } else {
        match account_batch_plan(batch.drop_last()) {
            Err(m) => Err(m),
            Ok(prev) => match account_item_check(batch.last(), batch.len() - 1) {
                Err(m) => Err(m),
                Ok(a) => Ok(prev.push(a)),
            },
        }
    }
}

/// A batch of accounts: refused when empty, failing at its first malformed
/// item.
pub open spec fn create_account_batch_plan(task: TaskRequest) -> PlanModel {
    if task.account_batch@.len() == 0 {
        PlanModel::Reject("account_batch cannot be empty"@)
    } else {
        match account_batch_plan(task.account_batch@) {
            Ok(a) => PlanModel::Accounts(a),
            Err(m) => PlanModel::Fail(m),
        }
    }
}

/// Once a prefix of a batch fails, the whole batch fails the same way.
proof fn lemma_account_batch_failure_stays(batch: Seq<CreateAccountRequest>, k: int)
    requires
        0 <= k <= batch.len(),
        account_batch_plan(batch.take(k)) is Err,
    ensures
        account_batch_plan(batch) == account_batch_plan(batch.take(k)),
    decreases batch.len(),
{
    if k == batch.len() {
        assert(batch.take(k) =~= batch);
    } else {
        assert(batch.drop_last().take(k) =~= batch.take(k));
        lemma_account_batch_failure_stays(batch.drop_last(), k);
    }
}

/// A single transfer: debit, credit and amount must be given; a zero amount
/// or equal accounts are refused; then ledger and code must be given and the
/// code must fit in 16 bits.
pub open spec fn create_transfer_plan(task: TaskRequest) -> PlanModel {
    match task.debit_account_id {
        None => PlanModel::Fail(malformed("Missing debit_account_id"@)),
        Some(d) => match task.credit_account_id {
            None => PlanModel::Fail(malformed("Missing credit_account_id"@)),
            Some(c) => match task.amount {
                None => PlanModel::Fail(malformed("Missing amount"@)),
                Some(a) => if u128_value(a) == 0 {
                    PlanModel::Reject("Transfer amount must be greater than 0"@)
                } else if u128_value(d) == u128_value(c) {
                    PlanModel::Reject("Debit and credit accounts must be different"@)
                } else {
                    match task.ledger {
                        None => PlanModel::Fail(malformed("Missing ledger"@)),
                        Some(ledger) => match task.code {
                            None => PlanModel::Fail(malformed("Missing code"@)),
                            Some(code) => if code > 0xffff {
                                PlanModel::Fail(malformed("code exceeds u16 range"@))
                            } else {
                                PlanModel::Transfers(
                                    seq![
                                        TransferItem {
                                            id: opt_u128_value(task.transfer_id),
                                            debit_account_id: u128_value(d),
                                            credit_account_id: u128_value(c),
                                            amount: u128_value(a),
                                            ledger,
                                            code: code as u16,
                                        },
                                    ],
                                )
                            },
                        },
                    }
                },
            },
        },
    }
}

/// How one transfer of a batch is judged.
pub enum ItemCheck {
    Bad(ReportModel),
    Refuse(Seq<char>),
    Good(TransferItem),
}

/// `transfer_batch[i]`.
pub open spec fn transfer_label(i: int) -> Seq<char> {
    "transfer_batch["@ + decimal(i as nat) + "]"@
}

/// One transfer of a batch, at position `i`; a missing ledger or code counts
/// as 0.
pub open spec fn transfer_item_check(req: CreateTransferRequest, i: int) -> ItemCheck {
    match req.debit_account_id {
        None => ItemCheck::Bad(malformed(transfer_label(i) + ".debit_account_id missing"@)),
        Some(d) => match req.credit_account_id {
            None => ItemCheck::Bad(malformed(transfer_label(i) + ".credit_account_id missing"@)),
            Some(c) => match req.amount {
                None => ItemCheck::Bad(malformed(transfer_label(i) + ".amount missing"@)),
                Some(a) => if u128_value(a) == 0 {
                    ItemCheck::Refuse(
                        transfer_label(i) + ": Transfer amount must be greater than 0"@,
                    )
                } else if u128_value(d) == u128_value(c) {
                    ItemCheck::Refuse(
                        transfer_label(i) + ": Debit and credit accounts must be different"@,
                    )
                } else if or_zero(req.code) > 0xffff {
                    ItemCheck::Bad(malformed(transfer_label(i) + ": code exceeds u16 range"@))
                } else {
                    ItemCheck::Good(
                        TransferItem {
                            id: opt_u128_value(req.id),
                            debit_account_id: u128_value(d),
                            credit_account_id: u128_value(c),
                            amount: u128_value(a),
                            ledger: or_zero(req.ledger),
                            code: or_zero(req.code) as u16,
                        },
                    )
                },
            },
        },
    }
}

/// The transfers of a batch, or the verdict on its first item that is not
/// good.
pub open spec fn transfer_batch_plan(batch: Seq<CreateTransferRequest>) -> PlanModel
    decreases batch.len(),
{
    if batch.len() == 0 {
        PlanModel::Transfers(Seq::empty())
    } else {
        match transfer_batch_plan(batch.drop_last()) {
            PlanModel::Transfers(items) => match transfer_item_check(
                batch.last(),
                batch.len() - 1,
            ) {
                ItemCheck::Bad(m) => PlanModel::Fail(m),
                ItemCheck::Refuse(msg) => PlanModel::Reject(msg),
                ItemCheck::Good(it) => PlanModel::Transfers(items.push(it)),
            },
            other => other,
        }
    }
}

/// Once a prefix of a batch stops, the whole batch stops the same way.
proof fn lemma_transfer_batch_stop_stays(batch: Seq<CreateTransferRequest>, k: int)
    requires
        0 <= k <= batch.len(),
        !(transfer_batch_plan(batch.take(k)) is Transfers),
    ensures
        transfer_batch_plan(batch) == transfer_batch_plan(batch.take(k)),
    decreases batch.len(),
{
    if k == batch.len() {
        assert(batch.take(k) =~= batch);
    } else {
        assert(batch.drop_last().take(k) =~= batch.take(k));
        lemma_transfer_batch_stop_stays(batch.drop_last(), k);
    }
}

/// A batch of transfers: failing when empty, else as its items are judged.
pub open spec fn create_transfer_batch_plan(task: TaskRequest) -> PlanModel {
    if task.transfer_batch@.len() == 0 {
        PlanModel::Fail(
            plain_report(
                ErrorKind::InvalidInput,
                "create_transfer_batch"@,
                "transfer_batch cannot be empty"@,
            ),
        )
    } else {
        transfer_batch_plan(task.transfer_batch@)
    }
}

pub open spec fn lookup_id_values(ids: Seq<UInt128>) -> Seq<u128> {
    ids.map_values(|v: UInt128| u128_value(v))
}

/// An account lookup asks for the listed ids, whatever their number.
pub open spec fn lookup_accounts_plan(task: TaskRequest) -> PlanModel {
    PlanModel::AccountLookup(lookup_id_values(task.lookup_ids@))
}

/// A transfer lookup asks for the listed ids; an empty list fails.
pub open spec fn lookup_transfers_plan(task: TaskRequest) -> PlanModel {
    if task.lookup_ids@.len() == 0 {
        PlanModel::Fail(
            plain_report(
                ErrorKind::InvalidInput,
                "lookup_transfers"@,
                "lookup_ids cannot be empty"@,
            ),
        )
    } else {
        PlanModel::TransferLookup(lookup_id_values(task.lookup_ids@))
    }
}

/// What a task becomes, by its type.
pub open spec fn task_plan(task: TaskRequest) -> PlanModel {
    match task_type_of(task.task_type) {
        None => PlanModel::Fail(
            report_with_entry(
                ErrorKind::InvalidTaskFormat,
                "process_task"@,
                "Invalid task_type value"@,
                "task_type"@,
                signed_decimal(task.task_type as int),
            ),
        ),
        Some(TaskType::Unknown) => PlanModel::Fail(
            plain_report(
                ErrorKind::InvalidTaskFormat,
                "process_task"@,
                "task_type UNKNOWN is invalid"@,
            ),
        ),
        Some(TaskType::CreateAccount) => create_account_plan(task),
        Some(TaskType::BatchAccounts) => create_account_batch_plan(task),
        Some(TaskType::LookupAccounts) => lookup_accounts_plan(task),
        Some(TaskType::CreateTransfer) => create_transfer_plan(task),
        Some(TaskType::BatchTransfers) => create_transfer_batch_plan(task),
        Some(TaskType::LookupTransfers) => lookup_transfers_plan(task),
    }
}

/// A response with only a verdict and a message.
pub fn plain_response(task: &TaskRequest, success: bool, message: &str) -> (r: TaskResponse)
    ensures
        is_plain_response(r, *task, success, message@),
{
    TaskResponse {
        id: String::from_str(task.id.as_str()),
        task_type: i32_string(task.task_type),
        success,
        message: String::from_str(message),
        account_result: None,
        transfer_result: None,
    }
}

fn opt_value(v: &Option<UInt128>) -> (r: Option<u128>)
    ensures
        r == opt_u128_value(*v),
{
    match v {
        Some(x) => Some(proto_to_uint128(x)),
        None => None,
    }
}

fn single_account(a: NewAccount) -> (r: Result<TaskStep, ErrorReport>)
    ensures
        r matches Ok(TaskStep::Call(LedgerRequest::CreateAccounts(v))) && v@ == seq![a],
{
    let mut v: Vec<NewAccount> = Vec::new();
    v.push(a);
    assert(v@ =~= seq![a]);
    Ok(TaskStep::Call(LedgerRequest::CreateAccounts(v)))
}

/// Plans the creation of one account.
pub fn handle_create_account(task: &TaskRequest) -> (r: Result<TaskStep, ErrorReport>)
    ensures
        step_follows(*task, r, create_account_plan(*task)),
{
    let id = match &task.account_id {
        Some(v) => proto_to_uint128(v),
        None => return Err(invalid_task_format("Missing account_id")),
    };
    let ledger = match task.ledger {
        Some(l) => l,
        None => return Err(invalid_task_format("Missing ledger")),
    };
    let code = match task.code {
        Some(c) => c,
        None => return Err(invalid_task_format("Missing code")),
    };
    if code > 0xffff {
        return Err(invalid_task_format("code exceeds u16 range"));
    }
    let account = NewAccount {
        id,
        ledger,
        code: code as u16,
        user_data_128: opt_value(&task.user_data_128),
        user_data_64: task.user_data_64,
        user_data_32: task.user_data_32,
    };
    single_account(account)
}

fn check_account_item(req: &CreateAccountRequest, i: usize) -> (r: Result<NewAccount, ErrorReport>)
    ensures
        match account_item_check(*req, i as int) {
            Ok(a) => r == Ok::<NewAccount, ErrorReport>(a),
            Err(m) => r is Err && r->Err_0@ == m,
        },
{
    let id = match &req.id {
        Some(v) => proto_to_uint128(v),
        None => {
            let msg = with_number("Missing id for account_batch[", i as u128, "]");
            return Err(invalid_task_format(msg.as_str()));
        },
    };
    if req.code > 0xffff {
        let msg = with_number("code exceeds u16 range for account_batch[", i as u128, "]");
        return Err(invalid_task_format(msg.as_str()));
    }
    Ok(
        NewAccount {
            id,
            ledger: req.ledger,
            code: req.code as u16,
            user_data_128: opt_value(&req.user_data_128),
            user_data_64: req.user_data_64,
            user_data_32: req.user_data_32,
        },
    )
}

/// Plans the creation of a batch of accounts.
pub fn handle_create_account_batch(task: &TaskRequest) -> (r: Result<TaskStep, ErrorReport>)
    ensures
        step_follows(*task, r, create_account_batch_plan(*task)),
{
    let batch = &task.account_batch;
    if batch.len() == 0 {
        return Ok(TaskStep::Respond(plain_response(task, false, "account_batch cannot be empty")));
    }
    let mut accounts: Vec<NewAccount> = Vec::new();
    let mut i: usize = 0;
    assert(batch@.take(0) =~= Seq::<CreateAccountRequest>::empty());
    while i < batch.len()
        invariant
            i <= batch@.len(),
            batch@ == task.account_batch@,
            batch@.len() > 0,
            account_batch_plan(batch@.take(i as int)) == Ok::<Seq<NewAccount>, ReportModel>(
                accounts@,
            ),
        decreases batch@.len() - i,
    {
        let checked = check_account_item(&batch[i], i);
        assert(batch@.take(i + 1).drop_last() =~= batch@.take(i as int));
        assert(batch@.take(i + 1).last() == batch@[i as int]);
        match checked {
            Ok(a) => {
                accounts.push(a);
            },
            Err(e) => {
                assert(account_batch_plan(batch@.take(i + 1)) == Err::<Seq<NewAccount>, ReportModel>(e@));
                proof {
                    lemma_account_batch_failure_stays(batch@, i + 1);
                }
                return Err(e);
            },
        }
        i = i + 1;
    }
    assert(batch@.take(batch@.len() as int) =~= batch@);
    Ok(TaskStep::Call(LedgerRequest::CreateAccounts(accounts)))
}

fn single_transfer(t: NewTransfer, item: Ghost<TransferItem>) -> (r: Result<TaskStep, ErrorReport>)
    requires
        transfer_fits(t, item@),
    ensures
        step_follows_transfers(r, seq![item@]),
{
    let mut v: Vec<NewTransfer> = Vec::new();
    v.push(t);
    assert(v@ =~= seq![t]);
    Ok(TaskStep::Call(LedgerRequest::CreateTransfers(v)))
}

pub open spec fn step_follows_transfers(r: Result<TaskStep, ErrorReport>, items: Seq<TransferItem>) -> bool {
    r matches Ok(TaskStep::Call(LedgerRequest::CreateTransfers(v))) && v@.len() == items.len()
        && forall|i: int| 0 <= i < items.len() ==> transfer_fits(#[trigger] v@[i], items[i])
}

/// The id of a transfer: the one given, or a random one.
fn transfer_id_or_random(id: &Option<UInt128>) -> (r: u128)
    ensures
        match opt_u128_value(*id) {
            Some(x) => r == x,
            None => is_random_uuid(r),
        },
{
    match id {
        Some(v) => proto_to_uint128(v),
        None => new_random_id(),
    }
}

/// Plans the creation of one transfer.
pub fn handle_create_transfer(task: &TaskRequest) -> (r: Result<TaskStep, ErrorReport>)
    ensures
        step_follows(*task, r, create_transfer_plan(*task)),
{
    let debit = match &task.debit_account_id {
        Some(v) => proto_to_uint128(v),
        None => return Err(invalid_task_format("Missing debit_account_id")),
    };
    let credit = match &task.credit_account_id {
        Some(v) => proto_to_uint128(v),
        None => return Err(invalid_task_format("Missing credit_account_id")),
    };
    let amount = match &task.amount {
        Some(v) => proto_to_uint128(v),
        None => return Err(invalid_task_format("Missing amount")),
    };
    if amount == 0 {
        return Ok(
            TaskStep::Respond(
                plain_response(task, false, "Transfer amount must be greater than 0"),
            ),
        );
    }
    if debit == credit {
        return Ok(
            TaskStep::Respond(
                plain_response(task, false, "Debit and credit accounts must be different"),
            ),
        );
    }
    let ledger = match task.ledger {
        Some(l) => l,
        None => return Err(invalid_task_format("Missing ledger")),
    };
    let code = match task.code {
        Some(c) => c,
        None => return Err(invalid_task_format("Missing code")),
    };
    if code > 0xffff {
        return Err(invalid_task_format("code exceeds u16 range"));
    }
    let id = transfer_id_or_random(&task.transfer_id);
    let t = NewTransfer {
        id,
        debit_account_id: debit,
        credit_account_id: credit,
        amount,
        ledger,
        code: code as u16,
    };
    let ghost item = TransferItem {
        id: opt_u128_value(task.transfer_id),
        debit_account_id: debit,
        credit_account_id: credit,
        amount,
        ledger,
        code: code as u16,
    };
    single_transfer(t, Ghost(item))
}

/// `transfer_batch[i]` followed by `suffix`.
fn labelled(i: usize, suffix: &str) -> (r: String)
    ensures
        r@ == transfer_label(i as int) + suffix@,
{
    let mut r = with_number("transfer_batch[", i as u128, "]");
    r.append(suffix);
    r
}

/// How one transfer of a batch was judged, with the transfer when good.
pub enum CheckedTransfer {
    Bad(ErrorReport),
    Refuse(String),
    Good(NewTransfer),
}

fn check_transfer_item(req: &CreateTransferRequest, i: usize) -> (r: CheckedTransfer)
    ensures
        match transfer_item_check(*req, i as int) {
            ItemCheck::Bad(m) => r matches CheckedTransfer::Bad(e) && e@ == m,
            ItemCheck::Refuse(msg) => r matches CheckedTransfer::Refuse(s) && s@ == msg,
            ItemCheck::Good(it) => r matches CheckedTransfer::Good(t) && transfer_fits(t, it),
        },
{
    let debit = match &req.debit_account_id {
        Some(v) => proto_to_uint128(v),
        None => {
            let msg = labelled(i, ".debit_account_id missing");
            return CheckedTransfer::Bad(invalid_task_format(msg.as_str()));
        },
    };
    let credit = match &req.credit_account_id {
        Some(v) => proto_to_uint128(v),
        None => {
            let msg = labelled(i, ".credit_account_id missing");
            return CheckedTransfer::Bad(invalid_task_format(msg.as_str()));
        },
    };
    let amount = match &req.amount {
        Some(v) => proto_to_uint128(v),
        None => {
            let msg = labelled(i, ".amount missing");
            return CheckedTransfer::Bad(invalid_task_format(msg.as_str()));
        },
    };
    if amount == 0 {
        let msg = labelled(i, ": Transfer amount must be greater than 0");
        return CheckedTransfer::Refuse(msg);
    }
    if debit == credit {
        let msg = labelled(i, ": Debit and credit accounts must be different");
        return CheckedTransfer::Refuse(msg);
    }
    let id = transfer_id_or_random(&req.id);
    let ledger = match req.ledger {
        Some(l) => l,
        None => 0,
    };
    let code = match req.code {
        Some(c) => c,
        None => 0,
    };
    if code > 0xffff {
        let msg = labelled(i, ": code exceeds u16 range");
        return CheckedTransfer::Bad(invalid_task_format(msg.as_str()));
    }
    CheckedTransfer::Good(
        NewTransfer {
            id,
            debit_account_id: debit,
            credit_account_id: credit,
            amount,
            ledger,
            code: code as u16,
        },
    )
}

/// Plans the creation of a batch of transfers.
pub fn handle_create_transfer_batch(task: &TaskRequest) -> (r: Result<TaskStep, ErrorReport>)
    ensures
        step_follows(*task, r, create_transfer_batch_plan(*task)),
{
    let batch = &task.transfer_batch;
    if batch.len() == 0 {
        return Err(
            reported(
                ErrorKind::InvalidInput,
                "create_transfer_batch",
                "transfer_batch cannot be empty",
            ),
        );
    }
    let mut transfers: Vec<NewTransfer> = Vec::new();
    let ghost mut items: Seq<TransferItem> = Seq::empty();
    let mut i: usize = 0;
    assert(batch@.take(0) =~= Seq::<CreateTransferRequest>::empty());
    while i < batch.len()
        invariant
            i <= batch@.len(),
            batch@ == task.transfer_batch@,
            batch@.len() > 0,
            transfer_batch_plan(batch@.take(i as int)) == PlanModel::Transfers(items),
            transfers@.len() == items.len(),
            forall|k: int| 0 <= k < items.len() ==> transfer_fits(#[trigger] transfers@[k], items[k]),
        decreases batch@.len() - i,
    {
        let checked = check_transfer_item(&batch[i], i);
        assert(batch@.take(i + 1).drop_last() =~= batch@.take(i as int));
        assert(batch@.take(i + 1).last() == batch@[i as int]);
        match checked {
            CheckedTransfer::Good(t) => {
                proof {
                    if let ItemCheck::Good(it) = transfer_item_check(batch@[i as int], i as int) {
                        items = items.push(it);
                    }
                }
                transfers.push(t);
            },
            CheckedTransfer::Bad(e) => {
                proof {
                    lemma_transfer_batch_stop_stays(batch@, i + 1);
                }
                return Err(e);
            },
            CheckedTransfer::Refuse(msg) => {
                proof {
                    lemma_transfer_batch_stop_stays(batch@, i + 1);
                }
                return Ok(TaskStep::Respond(plain_response(task, false, msg.as_str())));
            },
        }
        i = i + 1;
    }
    assert(batch@.take(batch@.len() as int) =~= batch@);
    Ok(TaskStep::Call(LedgerRequest::CreateTransfers(transfers)))
}

fn lookup_ids(ids: &Vec<UInt128>) -> (r: Vec<u128>)
    ensures
        r@ == lookup_id_values(ids@),
{
    let mut r: Vec<u128> = Vec::new();
    let mut i: usize = 0;
    while i < ids.len()
        invariant
            i <= ids@.len(),
            r@ == lookup_id_values(ids@.take(i as int)),
        decreases ids@.len() - i,
    {
        r.push(proto_to_uint128(&ids[i]));
        assert(lookup_id_values(ids@.take(i + 1)) =~= lookup_id_values(ids@.take(i as int)).push(
            u128_value(ids@[i as int]),
        ));
        i = i + 1;
    }
    assert(ids@.take(ids@.len() as int) =~= ids@);
    r
}

/// Plans an account lookup.
pub fn handle_lookup_accounts(task: &TaskRequest) -> (r: Result<TaskStep, ErrorReport>)
    ensures
        step_follows(*task, r, lookup_accounts_plan(*task)),
{
    Ok(TaskStep::Call(LedgerRequest::LookupAccounts(lookup_ids(&task.lookup_ids))))
}

/// Plans a transfer lookup.
pub fn handle_lookup_transfers(task: &TaskRequest) -> (r: Result<TaskStep, ErrorReport>)
    ensures
        step_follows(*task, r, lookup_transfers_plan(*task)),
{
    if task.lookup_ids.len() == 0 {
        return Err(reported(ErrorKind::InvalidInput, "lookup_transfers", "lookup_ids cannot be empty"));
    }
    Ok(TaskStep::Call(LedgerRequest::LookupTransfers(lookup_ids(&task.lookup_ids))))
}

/// The first step of processing a task: its type decides which plan applies.
pub fn process_task(task: &TaskRequest) -> (r: Result<TaskStep, ErrorReport>)
    ensures
        step_follows(*task, r, task_plan(*task)),
{
    match TaskType::try_from_i32(task.task_type) {
        None => {
            let t = i32_string(task.task_type);
            Err(
                reported_with_entry(
                    ErrorKind::InvalidTaskFormat,
                    "process_task",
                    "Invalid task_type value",
                    "task_type",
                    t.as_str(),
                ),
            )
        },
        Some(TaskType::Unknown) => Err(
            reported(ErrorKind::InvalidTaskFormat, "process_task", "task_type UNKNOWN is invalid"),
        ),
        Some(TaskType::CreateAccount) => handle_create_account(task),
        Some(TaskType::BatchAccounts) => handle_create_account_batch(task),
        Some(TaskType::LookupAccounts) => handle_lookup_accounts(task),
        Some(TaskType::CreateTransfer) => handle_create_transfer(task),
        Some(TaskType::BatchTransfers) => handle_create_transfer_batch(task),
        Some(TaskType::LookupTransfers) => handle_lookup_transfers(task),
    }
}

} // verus!
