//! Ingestion of a public chain's transaction history into an analytical
//! store, as far as it can be decided without touching the network or the
//! store.
//!
//! - `amount` converts the chain's integer subunit to fixed-point display
//!   units and back.
//! - `chain` holds the chain's data as the block explorer serves it, builds
//!   the addresses of the requests, and reads the reply to a block-hash
//!   request.
//! - `normalize` maps a raw transaction to the row that is persisted and to
//!   the addresses whose wallets are resolved.
//! - `wallet` packages the balance of an address with the placeholder of its
//!   owner.
//! - `unit` is the work dispatched for one transaction, as a machine that
//!   says which row to write or which balance to look up next.
//! - `pipeline` is the walk over a range of block heights under a quota, as
//!   a machine that says what to fetch, what to dispatch and when to stop.
//! - `run` states what holds of every run of the pipeline.
//! - `report` words the progress and the end of a run.
//! - `text` renders integers in decimal.
//!
//! The two machines never act by themselves: a driver performs each action
//! they ask for and hands back what came of it.

pub mod amount;
pub mod chain;
pub mod error;
pub mod normalize;
pub mod pipeline;
pub mod report;
pub mod run;
pub mod text;
pub mod unit;
pub mod wallet;
