//! A small ledger-adjacent state machine: per-account append-only record
//! logs, a single privileged "official" account, and the bookkeeping around
//! a delegated transfer on an external token ledger.
mod account;
mod contract;
mod records;

pub use account::AccountId;
pub use contract::{lemma_insert_outcome, transfer_verdict, Balance, Error, TestErc, TransferFrom};
pub use records::{
    appended, appended_all, lemma_append_grows_by_one, lemma_fresh_log_keeps_order,
    lemma_repeated_append_keeps_both, log_of, records_holding, CustomRecord, RecordStore,
};
