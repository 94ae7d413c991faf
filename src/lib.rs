//! An asynchronous counting semaphore: a lock-free permit counter paired with
//! a wait/notify channel on which callers park until permits come back.

mod acquire;
mod ledger;
mod permits;
mod semaphore;

pub use acquire::{advance_spec, Acquire, AcquireView, Step};
pub use ledger::{
    fresh_ledger, ledger_run, ledger_step, lemma_conservation, lemma_no_double_grant,
    lemma_timeout_refund, lemma_wake_completes, solo_polls, Ledger, PermitOp,
};
pub use permits::{apply_change, grant_from, granted, next_count, CountChange};
pub use semaphore::Semaphore;
