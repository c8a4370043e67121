//! The task messages: requests that arrive on the request stream and the
//! responses sent back, with 128-bit integers carried as two 64-bit halves.

use vstd::prelude::*;

verus! {

/// A 128-bit unsigned integer as two 64-bit halves.
#[derive(Debug, Clone, Copy, PartialEq, Eq, Structural)]
pub struct UInt128 {
    pub low: u64,
    pub high: u64,
}

/// The value that the two halves stand for.
pub open spec fn u128_value(v: UInt128) -> u128 {
    (v.high as int * 0x1_0000_0000_0000_0000 + v.low as int) as u128
}

/// The halves of a value.
pub open spec fn split_u128(v: u128) -> UInt128 {
    UInt128 {
        low: (v % 0x1_0000_0000_0000_0000) as u64,
        high: (v / 0x1_0000_0000_0000_0000) as u64,
    }
}

pub open spec fn opt_u128_value(v: Option<UInt128>) -> Option<u128> {
    match v {
        Some(x) => Some(u128_value(x)),
        None => None,
    }
}

/// What a task asks for.
#[derive(Debug, Clone, Copy, PartialEq, Eq, Structural)]
pub enum TaskType {
    Unknown,
    CreateAccount,
    BatchAccounts,
    LookupAccounts,
    CreateTransfer,
    BatchTransfers,
    LookupTransfers,
}

/// The task type a wire value stands for, if any.
pub open spec fn task_type_of(v: i32) -> Option<TaskType> {
    if v == 0 {
        Some(TaskType::Unknown)
    } else if v == 1 {
        Some(TaskType::CreateAccount)
    } else if v == 2 {
        Some(TaskType::BatchAccounts)
    } else if v == 3 {
        Some(TaskType::LookupAccounts)
    } else if v == 4 {
        Some(TaskType::CreateTransfer)
    } else if v == 5 {
        Some(TaskType::BatchTransfers)
    } else if v == 6 {
        Some(TaskType::LookupTransfers)
    } else {
        None
    }
}

impl TaskType {
    /// The task type a wire value stands for; `None` for an unknown value.
    pub fn try_from_i32(v: i32) -> (r: Option<TaskType>)
        ensures
            r == task_type_of(v),
    {
        if v == 0 {
            Some(TaskType::Unknown)
        } else if v == 1 {
            Some(TaskType::CreateAccount)
        } else if v == 2 {
            Some(TaskType::BatchAccounts)
        } else if v == 3 {
            Some(TaskType::LookupAccounts)
        } else if v == 4 {
            Some(TaskType::CreateTransfer)
        } else if v == 5 {
            Some(TaskType::BatchTransfers)
        } else if v == 6 {
            Some(TaskType::LookupTransfers)
        } else {
            None
        }
    }
}

/// One account of a batch.
#[derive(Debug, Clone)]
pub struct CreateAccountRequest {
    pub id: Option<UInt128>,
    pub ledger: u32,
    pub code: u32,
    pub user_data_128: Option<UInt128>,
    pub user_data_64: Option<u64>,
    pub user_data_32: Option<u32>,
}

/// One transfer of a batch.
#[derive(Debug, Clone)]
pub struct CreateTransferRequest {
    pub id: Option<UInt128>,
    pub debit_account_id: Option<UInt128>,
    pub credit_account_id: Option<UInt128>,
    pub amount: Option<UInt128>,
    pub ledger: Option<u32>,
    pub code: Option<u32>,
}

/// A task: its id, its type, and the fields that each type reads.
#[derive(Debug, Clone)]
pub struct TaskRequest {
    pub id: String,
    pub task_type: i32,
    pub account_id: Option<UInt128>,
    pub ledger: Option<u32>,
    pub code: Option<u32>,
    pub user_data_128: Option<UInt128>,
    pub user_data_64: Option<u64>,
    pub user_data_32: Option<u32>,
    pub account_batch: Vec<CreateAccountRequest>,
    pub lookup_ids: Vec<UInt128>,
    pub debit_account_id: Option<UInt128>,
    pub credit_account_id: Option<UInt128>,
    pub amount: Option<UInt128>,
    pub transfer_id: Option<UInt128>,
    pub transfer_batch: Vec<CreateTransferRequest>,
}

/// An account as reported back.
#[derive(Debug, Clone)]
pub struct Account {
    pub id: Option<UInt128>,
    pub debits_pending: Option<UInt128>,
    pub debits_posted: Option<UInt128>,
    pub credits_pending: Option<UInt128>,
    pub credits_posted: Option<UInt128>,
    pub ledger: u32,
    pub code: u32,
    pub flags: u32,
    pub timestamp: u64,
}

#[derive(Debug, Clone)]
pub struct AccountResult {
    pub count: i32,
    pub accounts: Vec<Account>,
}

/// A transfer as reported back.
#[derive(Debug, Clone)]
pub struct Transfer {
    pub id: Option<UInt128>,
    pub debit_account_id: Option<UInt128>,
    pub credit_account_id: Option<UInt128>,
    pub amount: Option<UInt128>,
    pub ledger: u32,
    pub code: u32,
    pub flags: u32,
    pub timestamp: u64,
}

#[derive(Debug, Clone)]
pub struct TransferResult {
    pub count: i32,
    pub transfers: Vec<Transfer>,
}

/// The answer to a task.
#[derive(Debug, Clone)]
pub struct TaskResponse {
    pub id: String,
    pub task_type: String,
    pub success: bool,
    pub message: String,
    pub account_result: Option<AccountResult>,
    pub transfer_result: Option<TransferResult>,
}

} // verus!
