//! A fund-custody core for crowdfunding campaigns on a host ledger. A
//! campaign record is created exactly once at an address derived from its
//! creator's key; donations move native currency from a donor to the
//! campaign and bump a lifetime counter; withdrawals are restricted to the
//! campaign's administrator and to the balance above the host's reserve
//! floor. Every operation commits in full or fails with a typed error and
//! no state change.
//!
//! The host ledger serializes operations and presents each one with
//! exclusive access to the accounts it touches, so the entry points here
//! take those accounts directly and need no locking of their own.

pub mod accounts;
pub mod campaign;
pub mod directory;
pub mod errors;
pub mod guard;
pub mod rent;
pub mod transfer;

use vstd::prelude::*;

use crate::accounts::{CampaignAccount, Signer, CAMPAIGN_ACCOUNT_SPACE};
use crate::campaign::Campaign;
use crate::directory::derived_address;
use crate::errors::CampaignError;
use crate::guard::authorize;
use crate::rent::{host_minimum_balance, reserve_floor_of};
use crate::transfer::{move_value, move_value_above_floor};

verus! {

/// The accounts a `create` call touches: the caller, and the storage slot
/// at the caller's derived campaign address.
pub struct Create {
    pub campaign: CampaignAccount,
    pub user: Signer,
}

/// The accounts a `withdraw` call touches: the campaign account drawn
/// from, and the caller the funds go to.
pub struct Withdraw {
    pub campaign: CampaignAccount,
    pub user: Signer,
}

/// The accounts a `donate` call touches: the campaign account donated to,
/// and the caller the funds come from.
pub struct Donate {
    pub campaign: CampaignAccount,
    pub user: Signer,
}

/// Whether a donation of `amount` to `pre` goes through: the donor can
/// cover it, and neither the campaign balance nor the lifetime counter
/// would leave its range.
pub open spec fn donate_accepted(pre: Donate, amount: u64) -> bool {
    &&& pre.user.lamports >= amount
    &&& pre.campaign.lamports + amount <= u64::MAX
    &&& pre.campaign.stored().amount_donated + amount <= u64::MAX
}

/// The state after a successful donation of `amount` to `pre`: the amount
/// has moved from the donor's balance to the campaign's, the lifetime
/// counter has grown by the same amount, and nothing else has changed.
pub open spec fn donate_applied(pre: Donate, amount: u64) -> Donate {
    Donate {
        user: Signer { lamports: (pre.user.lamports - amount) as u64, ..pre.user },
        campaign: CampaignAccount {
            lamports: (pre.campaign.lamports + amount) as u64,
            record: Some(
                Campaign {
                    amount_donated: (pre.campaign.stored().amount_donated + amount) as u64,
                    ..pre.campaign.stored()
                },
            ),
            ..pre.campaign
        },
    }
}

/// Whether the caller of a withdrawal from `pre` is the campaign's
/// recorded administrator.
pub open spec fn withdraw_authorized(pre: Withdraw) -> bool {
    pre.campaign.stored().admin == pre.user.key
}

/// Whether the campaign balance of `pre` covers a withdrawal of `amount`
/// from the part above the host's reserve floor for its storage size.
pub open spec fn withdraw_covered(pre: Withdraw, amount: u64) -> bool {
    pre.campaign.lamports - reserve_floor_of(pre.campaign.data_len as int) >= amount
}

/// Whether a withdrawal of `amount` from `pre` goes through: the caller is
/// the admin, the balance above the reserve floor covers the amount, and
/// the caller's balance would stay in range.
pub open spec fn withdraw_accepted(pre: Withdraw, amount: u64) -> bool {
    &&& withdraw_authorized(pre)
    &&& withdraw_covered(pre, amount)
    &&& pre.user.lamports + amount <= u64::MAX
}

/// The state after a successful withdrawal of `amount` from `pre`: the
/// amount has moved from the campaign's balance to the admin's, and the
/// record — the lifetime donation counter included — is untouched.
pub open spec fn withdraw_applied(pre: Withdraw, amount: u64) -> Withdraw {
    Withdraw {
        campaign: CampaignAccount {
            lamports: (pre.campaign.lamports - amount) as u64,
            ..pre.campaign
        },
        user: Signer { lamports: (pre.user.lamports + amount) as u64, ..pre.user },
    }
}

/// Creates the caller's campaign at the caller's derived address. A fresh
/// address always succeeds and stores `{admin: caller, name, description,
/// amount_donated: 0}` in a fixed-size allocation; an address that already
/// holds a record fails `DuplicateAccount` and is left untouched. No
/// authorization is checked: anyone may create a campaign with themselves
/// as admin.
pub fn create(ctx: &mut Create, name: String, description: String) -> (r: Result<
    (),
    CampaignError,
>)
    requires
        old(ctx).campaign.address == derived_address(old(ctx).user.key),
    ensures
        r is Ok <==> !old(ctx).campaign.is_initialized(),
        r is Err ==> r->Err_0 == CampaignError::DuplicateAccount,
        r is Err ==> *final(ctx) == *old(ctx),
        r is Ok ==> final(ctx).campaign.is_initialized(),
        r is Ok ==> final(ctx).campaign.stored() == (Campaign {
            admin: old(ctx).user.key,
            name: name,
            description: description,
            amount_donated: 0,
        }),
        r is Ok ==> final(ctx).campaign.lamports == old(ctx).campaign.lamports,
        r is Ok ==> final(ctx).campaign.data_len == CAMPAIGN_ACCOUNT_SPACE,
        r is Ok ==> final(ctx).campaign.address == old(ctx).campaign.address,
        r is Ok ==> final(ctx).user == old(ctx).user,
        r is Ok ==> final(ctx).campaign.wf(),
        old(ctx).campaign.wf() ==> final(ctx).campaign.wf(),
{
    if ctx.campaign.record.is_some() {
        return Err(CampaignError::DuplicateAccount);
    }
    let record = Campaign::initialize(ctx.user.key, name, description);
    ctx.campaign.record = Some(record);
    ctx.campaign.data_len = CAMPAIGN_ACCOUNT_SPACE;
    Ok(())
}

/// Donates `amount` from the caller to the campaign: the ledger movement
/// and the lifetime-counter update commit as one unit of work, or nothing
/// changes at all. Any caller may donate; a zero amount always succeeds
/// and changes nothing. Fails `InsufficientFunds` when the donor cannot
/// cover the amount, `TransferFailure` when the campaign balance would
/// leave its range, and `ArithmeticOverflow` when the counter would.
pub fn donate(ctx: &mut Donate, amount: u64) -> (r: Result<(), CampaignError>)
    requires
        old(ctx).campaign.is_initialized(),
    ensures
        r is Ok <==> donate_accepted(*old(ctx), amount),
        amount == 0 ==> r is Ok,
        r is Ok ==> *final(ctx) == donate_applied(*old(ctx), amount),
        r is Err ==> *final(ctx) == *old(ctx),
        old(ctx).user.lamports < amount ==> r->Err_0 == CampaignError::InsufficientFunds,
        old(ctx).user.lamports >= amount && old(ctx).campaign.lamports + amount > u64::MAX
            ==> r->Err_0 == CampaignError::TransferFailure,
        old(ctx).user.lamports >= amount && old(ctx).campaign.lamports + amount <= u64::MAX
            && old(ctx).campaign.stored().amount_donated + amount > u64::MAX ==> r->Err_0
            == CampaignError::ArithmeticOverflow,
        final(ctx).campaign.stored().amount_donated >= old(ctx).campaign.stored().amount_donated,
        old(ctx).campaign.wf() ==> final(ctx).campaign.wf(),
{
    let moved = move_value(&mut ctx.user.lamports, &mut ctx.campaign.lamports, amount);
    if let Err(e) = moved {
        return Err(e);
    }
    let recorded = match &mut ctx.campaign.record {
        Some(c) => c.record_donation(amount),
        None => vstd::pervasive::unreached(),
    };
    if let Err(e) = recorded {
        // the movement already landed but the counter cannot follow:
        // revert it, so the two only ever commit together
        ctx.campaign.lamports = ctx.campaign.lamports - amount;
        ctx.user.lamports = ctx.user.lamports + amount;
        return Err(e);
    }
    Ok(())
}

/// Withdraws `amount` from the campaign to the caller. Only the recorded
/// admin may withdraw, and only from the balance above the host's reserve
/// floor for the campaign's storage size; the lifetime donation counter is
/// not touched. Fails `Unauthorized` for any other caller,
/// `InsufficientFunds` when the balance above the floor cannot cover the
/// amount, and `TransferFailure` when the caller's balance would leave its
/// range; on any failure both accounts are untouched.
pub fn withdraw(ctx: &mut Withdraw, amount: u64) -> (r: Result<(), CampaignError>)
    requires
        old(ctx).campaign.is_initialized(),
    ensures
        r is Ok <==> withdraw_accepted(*old(ctx), amount),
        !withdraw_authorized(*old(ctx)) ==> r->Err_0 == CampaignError::Unauthorized,
        withdraw_authorized(*old(ctx)) && !withdraw_covered(*old(ctx), amount) ==> r->Err_0
            == CampaignError::InsufficientFunds,
        withdraw_authorized(*old(ctx)) && withdraw_covered(*old(ctx), amount)
            && old(ctx).user.lamports + amount > u64::MAX ==> r->Err_0
            == CampaignError::TransferFailure,
        r is Ok ==> *final(ctx) == withdraw_applied(*old(ctx), amount),
        r is Err ==> *final(ctx) == *old(ctx),
        final(ctx).campaign.stored().amount_donated == old(ctx).campaign.stored().amount_donated,
        r is Ok ==> final(ctx).campaign.lamports >= reserve_floor_of(
            old(ctx).campaign.data_len as int,
        ),
        old(ctx).campaign.wf() ==> final(ctx).campaign.wf(),
{
    let caller = ctx.user.key;
    let auth = match &ctx.campaign.record {
        Some(c) => authorize(c, caller),
        None => vstd::pervasive::unreached(),
    };
    if let Err(e) = auth {
        return Err(e);
    }
    let floor = host_minimum_balance(ctx.campaign.data_len);
    move_value_above_floor(&mut ctx.campaign.lamports, &mut ctx.user.lamports, floor, amount)
}

} // verus!
