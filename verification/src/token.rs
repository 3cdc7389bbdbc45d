use vstd::prelude::*;

use crate::pubkey::Pubkey;

verus! {

/// What the handlers read of a token account: its address, the wallet that
/// owns it, and the number of tokens it holds.
#[derive(Clone, Copy, Debug)]
pub struct TokenAccount {
    pub key: Pubkey,
    pub owner: Pubkey,
    pub amount: u64,
}

/// What the handlers read of the clock: the current time in seconds.
#[derive(Clone, Copy, Debug)]
pub struct Clock {
    pub unix_timestamp: i64,
}

/// A token transfer that the caller must perform: `amount` tokens from the
/// token account `from` to the token account `to`, approved by `authority`.
/// Where `signer_seed` is present, the transfer is signed with the single seed
/// made of those key bytes.
#[derive(Clone, Copy, Debug)]
pub struct Transfer {
    pub from: Pubkey,
    pub to: Pubkey,
    pub authority: Pubkey,
    pub amount: u64,
    pub signer_seed: Option<Pubkey>,
}

} // verus!
