//! Decision logic of a proof-of-work mining agent: difficulty checks,
//! retry policy, challenge tracking, the durable submission queue, and
//! the wallet-pool scheduler.

pub mod difficulty;
pub mod outcome;
pub mod pool;
pub mod text;
pub mod challenge;
pub mod attempt;
pub mod backoff;
pub mod search;
pub mod sequence;
pub mod layout;
pub mod queue;
pub mod stats;
pub mod roster;
pub mod mode;
