//! The host ledger's reserve floor: the minimum balance an account of a
//! given storage size must retain to keep its allocation alive. The host
//! computes it; the core only compares balances against it.

use vstd::prelude::*;

verus! {

/// The reserve floor the host ledger demands of an account whose storage
/// holds `data_len` bytes: a deterministic function of the size alone.
pub uninterp spec fn reserve_floor_of(data_len: int) -> u64;

/// Relies on `Rent::minimum_balance` from `solana_rent`, reached through
/// `anchor_lang::solana_program::rent`, applied to the default rent
/// configuration: the minimum rent-exempt balance for an account of
/// `data_len` bytes, a deterministic function of `data_len` alone.
#[verifier::external_body]
pub(crate) fn host_minimum_balance(data_len: usize) -> (r: u64)
    ensures
        r == reserve_floor_of(data_len as int),
{
    anchor_lang::solana_program::rent::Rent::default().minimum_balance(data_len)
}

} // verus!
