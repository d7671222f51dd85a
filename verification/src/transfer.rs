//! The transfer engine: atomic movements of native currency between two
//! custodial balances, plus the floor-checked variant used by withdrawals.
//! A movement either lands in full on both balances or changes neither.

use vstd::prelude::*;

use crate::errors::CampaignError;

verus! {

/// Moves `amount` from `from` to `to` as one unit of work. Fails
/// `InsufficientFunds` when the source cannot cover the amount, and
/// `TransferFailure` when the destination balance would leave its range;
/// on any failure both balances are untouched.
pub fn move_value(from: &mut u64, to: &mut u64, amount: u64) -> (r: Result<(), CampaignError>)
    ensures
        r is Ok <==> *old(from) >= amount && *old(to) + amount <= u64::MAX,
        *old(from) < amount ==> r->Err_0 == CampaignError::InsufficientFunds,
        *old(from) >= amount && *old(to) + amount > u64::MAX ==> r->Err_0
            == CampaignError::TransferFailure,
        r is Ok ==> *final(from) == *old(from) - amount && *final(to) == *old(to) + amount,
        r is Err ==> *final(from) == *old(from) && *final(to) == *old(to),
{
    if *from < amount {
        Err(CampaignError::InsufficientFunds)
    } else if amount > u64::MAX - *to {
        Err(CampaignError::TransferFailure)
    } else {
        *from = *from - amount;
        *to = *to + amount;
        Ok(())
    }
}

/// Moves `amount` out of a campaign's balance into `to`, but only from the
/// part of the balance above the reserve floor the host demands for the
/// campaign's storage. Fails `InsufficientFunds` when the balance above the
/// floor cannot cover the amount, and `TransferFailure` when the
/// destination balance would leave its range; on any failure both balances
/// are untouched.
pub fn move_value_above_floor(
    campaign_balance: &mut u64,
    to: &mut u64,
    floor: u64,
    amount: u64,
) -> (r: Result<(), CampaignError>)
    ensures
        r is Ok <==> *old(campaign_balance) - floor >= amount && *old(to) + amount <= u64::MAX,
        *old(campaign_balance) - floor < amount ==> r->Err_0 == CampaignError::InsufficientFunds,
        *old(campaign_balance) - floor >= amount && *old(to) + amount > u64::MAX ==> r->Err_0
            == CampaignError::TransferFailure,
        r is Ok ==> *final(campaign_balance) == *old(campaign_balance) - amount && *final(to)
            == *old(to) + amount,
        r is Ok ==> *final(campaign_balance) >= floor,
        r is Err ==> *final(campaign_balance) == *old(campaign_balance) && *final(to) == *old(to),
{
    if *campaign_balance < floor || *campaign_balance - floor < amount {
        Err(CampaignError::InsufficientFunds)
    } else {
        move_value(campaign_balance, to, amount)
    }
}

} // verus!
