//! The two custodial accounts a campaign operation touches: the storage
//! slot at the campaign's derived address, and the signing caller's own
//! ledger account.

use vstd::prelude::*;

use crate::campaign::Campaign;
use crate::directory::{CampaignAddress, Pubkey};

verus! {

/// The fixed storage capacity, in bytes, allocated for a campaign record.
/// It is chosen generously at creation time and never resized.
pub const CAMPAIGN_ACCOUNT_SPACE: usize = 9000;

/// The ledger account at a campaign's derived address: its custodied
/// native-currency balance, the size of its storage allocation, and the
/// campaign record held in that storage, absent until `create` runs.
#[derive(Clone, Debug)]
pub struct CampaignAccount {
    pub address: CampaignAddress,
    pub lamports: u64,
    pub data_len: usize,
    pub record: Option<Campaign>,
}

impl CampaignAccount {
    /// Whether a campaign record has been created at this address.
    pub open spec fn is_initialized(self) -> bool {
        self.record is Some
    }

    /// The record stored at this address.
    pub open spec fn stored(self) -> Campaign
        recommends
            self.is_initialized(),
    {
        self.record->Some_0
    }

    /// Well-formed storage: whatever record the slot holds was created by
    /// the owner the address was derived for, so one owner key never
    /// administers a campaign at another owner's address.
    pub open spec fn wf(self) -> bool {
        self.is_initialized() ==> self.stored().admin == self.address.owner
    }
}

/// The caller of an operation: a public key whose control was proven by the
/// host's signature check, with that account's native-currency balance.
#[derive(Clone, Copy, Debug, PartialEq, Eq, Structural)]
pub struct Signer {
    pub key: Pubkey,
    pub lamports: u64,
}

} // verus!
