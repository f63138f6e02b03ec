//! A liquidity bootstrapping pool engine: a two-asset weighted market maker
//! whose weights move along a time-based curve, so that a sale starts
//! weighted towards the asset on sale and drifts towards the asset that it
//! raises.
//!
//! The engine keeps its pools, a ledger of its users' holdings and a log of
//! events in memory. Time is an argument of every operation that depends on
//! it. Every operation either does all of its work or refuses and leaves the
//! state as it was.
//!
//! * [`weights`]: the weight of an asset as a function of time.
//! * [`pool`]: the record of a pool, its phases, and the check of its sale
//!   window.
//! * [`pricing`]: the fee, the limits on the size of a trade, and the amounts
//!   that a trade moves.
//! * [`ledger`]: free and reserved balances of many assets.
//! * [`state`]: the state of the engine as a mathematical value, and each
//!   operation as a function on it.
//! * [`engine`]: the engine itself; the contract of each operation is the
//!   function of [`state`] with the same name.
//! * [`laws`]: what holds of the operations in every state.
//! * [`events`]: the event log.
//! * [`types`]: identifiers, amounts, limits, callers and errors.

pub mod engine;
pub mod events;
pub mod laws;
pub mod ledger;
pub mod pool;
pub mod pricing;
pub mod state;
pub mod types;
pub mod weights;
