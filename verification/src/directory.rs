//! The addressing scheme of the account directory: every owner key maps to
//! exactly one campaign address under the program's fixed seed tag, so each
//! owner can hold at most one campaign.

use vstd::prelude::*;

verus! {

/// A public-key identity, held as four 64-bit words of the 32-byte key.
#[derive(Clone, Copy, Debug, PartialEq, Eq, Structural)]
pub struct Pubkey {
    pub w0: u64,
    pub w1: u64,
    pub w2: u64,
    pub w3: u64,
}

/// The storage address derived for one owner's campaign.
///
/// The host derives it from a fixed seed tag and the owner's key, without
/// collisions for distinct owners; with the tag fixed, the derivation is
/// injective in the owner key, so the address is modeled as the owner key
/// itself.
#[derive(Clone, Copy, Debug, PartialEq, Eq, Structural)]
pub struct CampaignAddress {
    pub owner: Pubkey,
}

/// The address at which `owner`'s campaign is stored.
pub open spec fn derived_address(owner: Pubkey) -> CampaignAddress {
    CampaignAddress { owner }
}

/// Computes the storage address of `owner`'s campaign.
pub fn derive_campaign_address(owner: Pubkey) -> (addr: CampaignAddress)
    ensures
        addr == derived_address(owner),
{
    CampaignAddress { owner }
}

/// Distinct owners are given distinct campaign addresses, so at most one
/// campaign record can ever exist per owner under the fixed seed tag.
pub proof fn lemma_derived_address_injective(a: Pubkey, b: Pubkey)
    ensures
        derived_address(a) == derived_address(b) ==> a == b,
{
}

} // verus!
