//! Task processing for a ledger consumer: the error model, the task and
//! response data model, message decoding and the decisions taken for each
//! task, all verified with Verus.

pub mod text;
pub mod config;
pub mod error;
pub mod kinds;
pub mod task;
pub mod worker;
pub mod ledger;
pub mod handlers;
pub mod responses;
pub mod processor;
pub mod laws;
