//! Rock-paper-scissors matches between pairs of identities, kept in a
//! CosmWasm store, with an administrator who can bar hosts from starting
//! matches.
//!
//! A host starts a match against an opponent and commits a move; the
//! opponent's move is recorded later, together with the outcome. Each ordered
//! pair of host and opponent has at most one match, and no match is ever
//! taken off the record.
//!
//! - `state`: moves, outcomes, the match record, and who wins a round.
//! - `record`: the form in which a match is stored, and the two steps that
//!   change one.
//! - `chain`: the calls into `cosmwasm_std`, `cw_storage_plus`,
//!   `cw_controllers`, `cw0` and `cw2`, with the contracts that are taken on
//!   trust.
//! - `ledger`: the store of matches, the administrator and the barred hosts,
//!   with the operations on them.
//! - `contract`: setting up, the commands and the questions.
//! - `guarantees`: what holds when operations follow one another.
//! - `msg`, `error`: what goes in, what comes out, and what can go wrong.
//! - `seq_facts`: facts about filtered sequences that the listings rest on.

pub mod chain;
pub mod contract;
pub mod error;
pub mod guarantees;
pub mod ledger;
pub mod msg;
pub mod record;
pub mod seq_facts;
pub mod state;
