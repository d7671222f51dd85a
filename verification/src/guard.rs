//! The authorization guard: only the campaign's recorded administrator may
//! withdraw. Donations and creation are open to any caller and never pass
//! through here.

use vstd::prelude::*;

use crate::campaign::Campaign;
use crate::directory::Pubkey;
use crate::errors::CampaignError;

verus! {

/// Admits `caller` exactly when it is the campaign's recorded admin, and
/// refuses anyone else with `Unauthorized`.
pub fn authorize(campaign: &Campaign, caller: Pubkey) -> (r: Result<(), CampaignError>)
    ensures
        r is Ok <==> campaign.admin == caller,
        r is Err ==> r->Err_0 == CampaignError::Unauthorized,
{
    if campaign.admin == caller {
        Ok(())
    } else {
        Err(CampaignError::Unauthorized)
    }
}

} // verus!
