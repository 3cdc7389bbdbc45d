//! The rules of a single-item token auction: creating an auction, bidding,
//! closing it and depositing the auctioned item.
//!
//! The handlers decide; they never move tokens themselves. Each one checks
//! the accounts it is handed, updates the auction record, and returns the
//! token transfers that the caller has to perform for the decision to take
//! effect.

pub mod pubkey;
pub mod dot;
pub mod error;
pub mod token;
pub mod seahorse_util;
pub mod laws;
