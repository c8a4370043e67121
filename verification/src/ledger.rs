//! What is sent to the ledger and what comes back from it, as plain values.

use vstd::prelude::*;

verus! {

/// An account to create. The ledger client refuses (panics on) an id of 0
/// or of the largest 128-bit value, and a ledger or code of 0.
#[derive(Debug, Clone, Copy, PartialEq, Eq)]
pub struct NewAccount {
    pub id: u128,
    pub ledger: u32,
    pub code: u16,
    pub user_data_128: Option<u128>,
    pub user_data_64: Option<u64>,
    pub user_data_32: Option<u32>,
}

/// A transfer to create. The ledger client refuses (panics on) an id of 0
/// or of the largest 128-bit value.
#[derive(Debug, Clone, Copy, PartialEq, Eq)]
pub struct NewTransfer {
    pub id: u128,
    pub debit_account_id: u128,
    pub credit_account_id: u128,
    pub amount: u128,
    pub ledger: u32,
    pub code: u16,
}

/// An account as the ledger reports it; the timestamp is the distance from
/// the epoch in nanoseconds (`None` before the epoch).
#[derive(Debug, Clone, Copy, PartialEq, Eq)]
pub struct LedgerAccount {
    pub id: u128,
    pub debits_pending: u128,
    pub debits_posted: u128,
    pub credits_pending: u128,
    pub credits_posted: u128,
    pub ledger: u32,
    pub code: u16,
    pub flags: u16,
    pub since_epoch_nanos: Option<u128>,
}

/// A transfer as the ledger reports it; the timestamp is the distance from
/// the epoch in nanoseconds (`None` before the epoch).
#[derive(Debug, Clone, Copy, PartialEq, Eq)]
pub struct LedgerTransfer {
    pub id: u128,
    pub debit_account_id: u128,
    pub credit_account_id: u128,
    pub amount: u128,
    pub ledger: u32,
    pub code: u16,
    pub flags: u16,
    pub since_epoch_nanos: Option<u128>,
}

/// One item of a write that the ledger refused: its position in the batch
/// and the reason as the ledger renders it.
#[derive(Debug, Clone)]
pub struct ItemRejection {
    pub index: u32,
    pub reason: String,
}

/// How a write to the ledger ended.
#[derive(Debug, Clone)]
pub enum WriteOutcome {
    /// Every item was written.
    Accepted,
    /// The ledger refused some items.
    Rejected(Vec<ItemRejection>),
    /// The request did not reach the ledger: the transport's reason, and the
    /// rendering of the whole error.
    SendFailed { reason: String, summary: String },
    /// Any other failure, rendered.
    Failed(String),
}

/// A request to the ledger.
#[derive(Debug, Clone)]
pub enum LedgerRequest {
    CreateAccounts(Vec<NewAccount>),
    LookupAccounts(Vec<u128>),
    CreateTransfers(Vec<NewTransfer>),
    LookupTransfers(Vec<u128>),
}

/// The ledger's reply to a request; a failed lookup carries the rendering of
/// its error.
#[derive(Debug)]
pub enum LedgerReply {
    Written(WriteOutcome),
    Accounts(Result<Vec<LedgerAccount>, String>),
    Transfers(Result<Vec<LedgerTransfer>, String>),
}

/// The shape of a random (version 4) UUID taken as an integer: its version
/// nibble, bits 76 to 79, is 4, and its variant bits, 62 and 63, are `10`.
pub open spec fn is_random_uuid(v: u128) -> bool {
    &&& (v >> 76u32) & 0xfu128 == 4u128
    &&& (v >> 62u32) & 0x3u128 == 2u128
}

/// `uuid::Uuid::new_v4().as_u128()`: a random version-4 UUID as an integer.
/// Only its version and variant bits are stated; the other bits are random.
#[verifier::external_body]
pub(crate) fn new_random_id() -> (r: u128)
    ensures
        is_random_uuid(r),
{
    uuid::Uuid::new_v4().as_u128()
}

/// A random id is never 0 nor the largest 128-bit value.
pub proof fn lemma_random_id_is_usable(v: u128)
    requires
        is_random_uuid(v),
    ensures
        v != 0,
        v != u128::MAX,
{
    assert(((v >> 76u32) & 0xfu128 == 4u128) ==> v != 0 && v != 0xffff_ffff_ffff_ffff_ffff_ffff_ffff_ffffu128)
        by (bit_vector);
}

} // verus!
