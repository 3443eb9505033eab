//! Verified core of a concurrent transfer load generator: request synthesis,
//! screening (validation, duplicate rejection, participant resolution), the
//! balance ledger, and the throughput monitor that drives batch commitment.

pub mod address;
pub mod dedup;
pub mod generator;
pub mod ledger;
pub mod monitor;
pub mod provisioning;
pub mod request;
pub mod worker;

pub use address::{AccountPool, Address};
pub use dedup::SeenIds;
pub use generator::{
    build_transaction, draw_jitter_permille, generate_random_simulated_transaction,
    jittered_delay_ms, Generator, AMOUNT_LIMIT, MIN_AMOUNT,
};
pub use ledger::{Ledger, LedgerError};
pub use monitor::{
    throughput_per_second, Monitor, MonitorStep, ThroughputReport, COMMIT_THRESHOLD,
};
pub use provisioning::blocks_needed_for_balance;
pub use request::RandomTx;
pub use worker::{
    conclude_transfer, screen_request, Rejection, Submission, TransferOutcome, Verdict,
};
