use rrconsumer::error::ErrorReport;
use rrconsumer::handlers::{
    handle_create_account, handle_create_account_batch, handle_create_transfer,
    handle_create_transfer_batch, handle_lookup_accounts, handle_lookup_transfers, process_task,
    TaskStep,
};
use rrconsumer::ledger::{
    ItemRejection, LedgerAccount, LedgerReply, LedgerRequest, LedgerTransfer, NewAccount,
    NewTransfer, WriteOutcome,
};
use rrconsumer::responses::{
    create_account_batch_response, create_account_response, create_transfer_batch_response,
    create_transfer_response, finish_task, lookup_accounts_response, lookup_transfers_response,
};
use rrconsumer::task::{CreateAccountRequest, CreateTransferRequest, TaskRequest, TaskResponse, UInt128};

fn layers(r: &ErrorReport) -> Vec<&str> {
    r.context.iter().map(|s| s.as_str()).collect()
}

fn u(v: u64) -> Option<UInt128> {
    Some(UInt128 { low: v, high: 0 })
}

fn task(task_type: i32) -> TaskRequest {
    TaskRequest {
        id: "task-1".to_string(),
        task_type,
        account_id: None,
        ledger: None,
        code: None,
        user_data_128: None,
        user_data_64: None,
        user_data_32: None,
        account_batch: vec![],
        lookup_ids: vec![],
        debit_account_id: None,
        credit_account_id: None,
        amount: None,
        transfer_id: None,
        transfer_batch: vec![],
    }
}

fn account_item(id: Option<UInt128>, code: u32) -> CreateAccountRequest {
    CreateAccountRequest {
        id,
        ledger: 1,
        code,
        user_data_128: None,
        user_data_64: None,
        user_data_32: None,
    }
}

fn transfer_item(id: Option<UInt128>, debit: u64, credit: u64, amount: u64) -> CreateTransferRequest {
    CreateTransferRequest {
        id,
        debit_account_id: u(debit),
        credit_account_id: u(credit),
        amount: u(amount),
        ledger: Some(1),
        code: Some(10),
    }
}

fn err(r: Result<TaskStep, ErrorReport>) -> ErrorReport {
    match r {
        Err(e) => e,
        Ok(s) => panic!("expected an error, got {s:?}"),
    }
}

fn respond(r: Result<TaskStep, ErrorReport>) -> TaskResponse {
    match r {
        Ok(TaskStep::Respond(resp)) => resp,
        other => panic!("expected a response, got {other:?}"),
    }
}

fn call(r: Result<TaskStep, ErrorReport>) -> LedgerRequest {
    match r {
        Ok(TaskStep::Call(req)) => req,
        other => panic!("expected a ledger request, got {other:?}"),
    }
}

fn assert_plain(resp: &TaskResponse, task_type: &str, success: bool, message: &str) {
    assert_eq!(resp.id, "task-1");
    assert_eq!(resp.task_type, task_type);
    assert_eq!(resp.success, success);
    assert_eq!(resp.message, message);
    assert!(resp.account_result.is_none());
    assert!(resp.transfer_result.is_none());
}

#[test]
fn invalid_task_type_fails() {
    let e = err(process_task(&task(99)));
    assert_eq!(e.message, "Invalid task_type value");
    assert_eq!(layers(&e), vec!["task_type=99", "operation=process_task", "ErrorKind::InvalidTaskFormat"]);
    let e = err(process_task(&task(-4)));
    assert_eq!(layers(&e)[0], "task_type=-4");
}

#[test]
fn unknown_task_type_fails() {
    let e = err(process_task(&task(0)));
    assert_eq!(e.message, "task_type UNKNOWN is invalid");
    assert_eq!(layers(&e), vec!["operation=process_task", "ErrorKind::InvalidTaskFormat"]);
}

#[test]
fn create_account_requires_fields() {
    let mut t = task(1);
    let e = err(handle_create_account(&t));
    assert_eq!(e.message, "Missing account_id");
    assert_eq!(layers(&e), vec!["ErrorKind::InvalidTaskFormat"]);
    t.account_id = u(5);
    assert_eq!(err(handle_create_account(&t)).message, "Missing ledger");
    t.ledger = Some(2);
    assert_eq!(err(handle_create_account(&t)).message, "Missing code");
    t.code = Some(70000);
    assert_eq!(err(handle_create_account(&t)).message, "code exceeds u16 range");
}

#[test]
fn create_account_plans_one_account() {
    let mut t = task(1);
    t.account_id = Some(UInt128 { low: 1, high: 1 });
    t.ledger = Some(2);
    t.code = Some(65535);
    t.user_data_128 = u(9);
    t.user_data_32 = Some(4);
    match call(process_task(&t)) {
        LedgerRequest::CreateAccounts(v) => assert_eq!(
            v,
            vec![NewAccount {
                id: (1u128 << 64) + 1,
                ledger: 2,
                code: 65535,
                user_data_128: Some(9),
                user_data_64: None,
                user_data_32: Some(4),
            }]
        ),
        other => panic!("{other:?}"),
    }
}

#[test]
fn account_batch_empty_is_refused() {
    let resp = respond(handle_create_account_batch(&task(2)));
    assert_plain(&resp, "2", false, "account_batch cannot be empty");
}

#[test]
fn account_batch_reports_first_bad_item() {
    let mut t = task(2);
    t.account_batch = vec![account_item(u(1), 1), account_item(None, 1), account_item(None, 1)];
    let e = err(handle_create_account_batch(&t));
    assert_eq!(e.message, "Missing id for account_batch[1]");
    t.account_batch = vec![account_item(u(1), 1), account_item(u(2), 1), account_item(u(3), 65536)];
    let e = err(handle_create_account_batch(&t));
    assert_eq!(e.message, "code exceeds u16 range for account_batch[2]");
}

#[test]
fn account_batch_keeps_order() {
    let mut t = task(2);
    t.account_batch = vec![account_item(u(3), 7), account_item(u(1), 8)];
    match call(process_task(&t)) {
        LedgerRequest::CreateAccounts(v) => {
            assert_eq!(v.len(), 2);
            assert_eq!((v[0].id, v[0].code), (3, 7));
            assert_eq!((v[1].id, v[1].code), (1, 8));
        },
        other => panic!("{other:?}"),
    }
}

#[test]
fn create_transfer_checks() {
    let mut t = task(4);
    assert_eq!(err(handle_create_transfer(&t)).message, "Missing debit_account_id");
    t.debit_account_id = u(1);
    assert_eq!(err(handle_create_transfer(&t)).message, "Missing credit_account_id");
    t.credit_account_id = u(1);
    assert_eq!(err(handle_create_transfer(&t)).message, "Missing amount");
    t.amount = u(0);
    assert_plain(&respond(handle_create_transfer(&t)), "4", false, "Transfer amount must be greater than 0");
    t.amount = u(10);
    assert_plain(&respond(handle_create_transfer(&t)), "4", false, "Debit and credit accounts must be different");
    t.credit_account_id = u(2);
    assert_eq!(err(handle_create_transfer(&t)).message, "Missing ledger");
    t.ledger = Some(1);
    assert_eq!(err(handle_create_transfer(&t)).message, "Missing code");
    t.code = Some(1 << 16);
    assert_eq!(err(handle_create_transfer(&t)).message, "code exceeds u16 range");
}

#[test]
fn create_transfer_plans_with_given_or_random_id() {
    let mut t = task(4);
    t.debit_account_id = u(1);
    t.credit_account_id = u(2);
    t.amount = u(10);
    t.ledger = Some(3);
    t.code = Some(4);
    t.transfer_id = u(77);
    match call(process_task(&t)) {
        LedgerRequest::CreateTransfers(v) => assert_eq!(
            v,
            vec![NewTransfer { id: 77, debit_account_id: 1, credit_account_id: 2, amount: 10, ledger: 3, code: 4 }]
        ),
        other => panic!("{other:?}"),
    }
    t.transfer_id = None;
    match call(process_task(&t)) {
        LedgerRequest::CreateTransfers(v) => {
            assert_eq!(v.len(), 1);
            assert_eq!((v[0].id >> 76) & 0xf, 4);
            assert_eq!((v[0].id >> 62) & 0x3, 2);
            assert_ne!(v[0].id, 0);
        },
        other => panic!("{other:?}"),
    }
}

#[test]
fn transfer_batch_empty_fails() {
    let e = err(handle_create_transfer_batch(&task(5)));
    assert_eq!(e.message, "transfer_batch cannot be empty");
    assert_eq!(layers(&e), vec!["operation=create_transfer_batch", "ErrorKind::InvalidInput"]);
}

#[test]
fn transfer_batch_item_verdicts() {
    let mut t = task(5);
    let mut missing = transfer_item(u(1), 1, 2, 3);
    missing.credit_account_id = None;
    t.transfer_batch = vec![transfer_item(u(1), 1, 2, 3), missing];
    assert_eq!(err(handle_create_transfer_batch(&t)).message, "transfer_batch[1].credit_account_id missing");
    t.transfer_batch = vec![transfer_item(u(1), 1, 2, 0)];
    assert_plain(
        &respond(handle_create_transfer_batch(&t)),
        "5",
        false,
        "transfer_batch[0]: Transfer amount must be greater than 0",
    );
    t.transfer_batch = vec![transfer_item(u(1), 1, 2, 3), transfer_item(u(2), 4, 4, 3)];
    assert_plain(
        &respond(handle_create_transfer_batch(&t)),
        "5",
        false,
        "transfer_batch[1]: Debit and credit accounts must be different",
    );
    let mut big = transfer_item(u(1), 1, 2, 3);
    big.code = Some(70000);
    t.transfer_batch = vec![big];
    assert_eq!(err(handle_create_transfer_batch(&t)).message, "transfer_batch[0]: code exceeds u16 range");
}

#[test]
fn transfer_batch_defaults_and_order() {
    let mut t = task(5);
    let mut second = transfer_item(None, 5, 6, 7);
    second.ledger = None;
    second.code = None;
    t.transfer_batch = vec![transfer_item(u(11), 1, 2, 3), second];
    match call(process_task(&t)) {
        LedgerRequest::CreateTransfers(v) => {
            assert_eq!(v.len(), 2);
            assert_eq!(v[0], NewTransfer { id: 11, debit_account_id: 1, credit_account_id: 2, amount: 3, ledger: 1, code: 10 });
            assert_eq!((v[1].debit_account_id, v[1].credit_account_id, v[1].amount), (5, 6, 7));
            assert_eq!((v[1].ledger, v[1].code), (0, 0));
            assert_eq!((v[1].id >> 76) & 0xf, 4);
            assert_eq!((v[1].id >> 62) & 0x3, 2);
        },
        other => panic!("{other:?}"),
    }
}

#[test]
fn lookups() {
    let mut t = task(3);
    match call(handle_lookup_accounts(&t)) {
        LedgerRequest::LookupAccounts(v) => assert!(v.is_empty()),
        other => panic!("{other:?}"),
    }
    t.lookup_ids = vec![UInt128 { low: 1, high: 0 }, UInt128 { low: 0, high: 2 }];
    match call(process_task(&t)) {
        LedgerRequest::LookupAccounts(v) => assert_eq!(v, vec![1, 2u128 << 64]),
        other => panic!("{other:?}"),
    }
    let mut t = task(6);
    let e = err(handle_lookup_transfers(&t));
    assert_eq!(e.message, "lookup_ids cannot be empty");
    assert_eq!(layers(&e), vec!["operation=lookup_transfers", "ErrorKind::InvalidInput"]);
    t.lookup_ids = vec![UInt128 { low: 8, high: 0 }];
    match call(process_task(&t)) {
        LedgerRequest::LookupTransfers(v) => assert_eq!(v, vec![8]),
        other => panic!("{other:?}"),
    }
}

fn rejections() -> WriteOutcome {
    WriteOutcome::Rejected(vec![
        ItemRejection { index: 0, reason: "exists".to_string() },
        ItemRejection { index: 2, reason: "ledger_must_not_be_zero".to_string() },
    ])
}

fn send_failed() -> WriteOutcome {
    WriteOutcome::SendFailed { reason: "timeout".to_string(), summary: "Failed to create: timeout".to_string() }
}

#[test]
fn create_account_answers() {
    let t = task(1);
    assert_plain(&create_account_response(&t, &WriteOutcome::Accepted), "1", true, "Account created");
    assert_plain(&create_account_response(&t, &rejections()), "1", false, "Failed to create account: exists;ledger_must_not_be_zero");
    assert_plain(&create_account_response(&t, &send_failed()), "1", false, "Failed to create account: Failed to create: timeout");
    assert_plain(&create_account_response(&t, &WriteOutcome::Failed("odd".to_string())), "1", false, "Failed to create account: odd");
}

#[test]
fn create_account_batch_answers() {
    let mut t = task(2);
    t.account_batch = vec![account_item(u(1), 1), account_item(u(2), 1), account_item(u(3), 1)];
    assert_plain(&create_account_batch_response(&t, &WriteOutcome::Accepted), "2", true, "Created 3 accounts");
    assert_plain(
        &create_account_batch_response(&t, &rejections()),
        "2",
        false,
        "Failed to create account batch: Account[0]: exists; Account[2]: ledger_must_not_be_zero",
    );
    assert_plain(&create_account_batch_response(&t, &send_failed()), "2", false, "Network/Transport Error: timeout");
    assert_plain(&create_account_batch_response(&t, &WriteOutcome::Failed("odd".to_string())), "2", false, "Failed to create account batch: odd");
}

#[test]
fn create_transfer_answers() {
    let t = task(4);
    assert_plain(&create_transfer_response(&t, &WriteOutcome::Accepted), "4", true, "Transfer created");
    assert_plain(
        &create_transfer_response(&t, &rejections()),
        "4",
        false,
        "Failed to create transfer: transfer[0]: exists; transfer[2]: ledger_must_not_be_zero",
    );
    assert_plain(&create_transfer_response(&t, &send_failed()), "4", false, "Network/Transport Error: timeout");
    assert_plain(&create_transfer_response(&t, &WriteOutcome::Failed("odd".to_string())), "4", false, "Unexpected Error: odd");
}

#[test]
fn create_transfer_batch_answers() {
    let mut t = task(5);
    t.transfer_batch = vec![transfer_item(u(1), 1, 2, 3)];
    assert_plain(&create_transfer_batch_response(&t, &WriteOutcome::Accepted), "5", true, "Created 1 transfers");
    assert_plain(
        &create_transfer_batch_response(&t, &rejections()),
        "5",
        false,
        "Failed to create transfer batch: Transfer[0]: exists; Transfer[2]: ledger_must_not_be_zero",
    );
    assert_plain(&create_transfer_batch_response(&t, &send_failed()), "5", false, "Network/Transport Error: timeout");
    assert_plain(
        &create_transfer_batch_response(&t, &WriteOutcome::Failed("odd".to_string())),
        "5",
        false,
        "Unexpected error creating transfer batch: odd",
    );
}

fn ledger_account(id: u128) -> LedgerAccount {
    LedgerAccount {
        id,
        debits_pending: 1,
        debits_posted: (1u128 << 64) + 2,
        credits_pending: 3,
        credits_posted: 4,
        ledger: 5,
        code: 6,
        flags: 7,
        since_epoch_nanos: Some(99),
    }
}

#[test]
fn lookup_accounts_answers() {
    let mut t = task(3);
    t.lookup_ids = vec![UInt128 { low: 1, high: 0 }, UInt128 { low: 2, high: 0 }];
    let resp = lookup_accounts_response(&t, &Ok(vec![ledger_account(10), ledger_account(11)])).unwrap();
    assert!(resp.success);
    assert_eq!(resp.message, "Accounts found");
    let ar = resp.account_result.unwrap();
    assert_eq!(ar.count, 2);
    assert_eq!(ar.accounts[0].id, Some(UInt128 { low: 10, high: 0 }));
    assert_eq!(ar.accounts[1].debits_posted, Some(UInt128 { low: 2, high: 1 }));
    assert_eq!((ar.accounts[1].ledger, ar.accounts[1].code, ar.accounts[1].flags, ar.accounts[1].timestamp), (5, 6, 7, 99));
    let e = lookup_accounts_response(&t, &Err("connection lost".to_string())).unwrap_err();
    assert_eq!(e.message, "Failed to lookup accounts: connection lost");
    assert_eq!(layers(&e), vec!["account_count=2", "operation=lookup_accounts", "ErrorKind::TigerBeetle"]);
}

#[test]
fn lookup_transfers_answers() {
    let t = task(6);
    let lt = LedgerTransfer {
        id: 1,
        debit_account_id: 2,
        credit_account_id: 3,
        amount: u128::MAX,
        ledger: 4,
        code: 5,
        flags: 6,
        since_epoch_nanos: None,
    };
    let resp = lookup_transfers_response(&t, &Ok(vec![lt, lt]));
    assert!(resp.success);
    assert_eq!(resp.message, "Found 2 transfers");
    let tr = resp.transfer_result.unwrap();
    assert_eq!(tr.count, 2);
    assert_eq!(tr.transfers[0].amount, Some(UInt128 { low: u64::MAX, high: u64::MAX }));
    assert_eq!(tr.transfers[1].timestamp, 0);
    let resp = lookup_transfers_response(&t, &Err("gone".to_string()));
    assert_plain(&resp, "6", false, "Failed to lookup transfers: gone");
    let resp = lookup_transfers_response(&t, &Ok(vec![]));
    assert_eq!(resp.message, "Found 0 transfers");
}

#[test]
fn finish_task_dispatches_by_type() {
    let resp = finish_task(&task(1), &LedgerReply::Written(WriteOutcome::Accepted)).unwrap();
    assert_eq!(resp.message, "Account created");
    let resp = finish_task(&task(4), &LedgerReply::Written(WriteOutcome::Accepted)).unwrap();
    assert_eq!(resp.message, "Transfer created");
    let resp = finish_task(&task(5), &LedgerReply::Written(WriteOutcome::Accepted)).unwrap();
    assert_eq!(resp.message, "Created 0 transfers");
    let resp = finish_task(&task(3), &LedgerReply::Accounts(Ok(vec![]))).unwrap();
    assert_eq!(resp.account_result.unwrap().count, 0);
    let resp = finish_task(&task(6), &LedgerReply::Transfers(Err("x".to_string()))).unwrap();
    assert_eq!(resp.message, "Failed to lookup transfers: x");
}
