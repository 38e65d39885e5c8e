//! A bookkeeping core: a chart of accounts and the integrity rules of a
//! double-entry ledger, together with the versioned schema migrations that
//! bring a persisted database up to the schema this build expects.
//!
//! `ledger` holds the rules verified over an in-memory model of the state;
//! `store` applies the same rules to the persisted store through the
//! trusted boundary in `gateway`; `migrate` is the schema migration engine.

pub mod account;
pub mod errors;
pub mod gateway;
pub mod ledger;
pub mod migrate;
pub mod store;
