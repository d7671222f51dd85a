//! The campaign record itself: who administers it, its metadata, and the
//! lifetime total of recorded donations.

use vstd::prelude::*;

use crate::directory::Pubkey;
use crate::errors::CampaignError;

verus! {

/// One fundraising campaign's persistent record. `admin`, `name` and
/// `description` are set once at creation and never change; `amount_donated`
/// counts lifetime contributions and only ever grows, independently of
/// withdrawals.
#[derive(Clone, Debug)]
pub struct Campaign {
    pub admin: Pubkey,
    pub name: String,
    pub description: String,
    pub amount_donated: u64,
}

impl Campaign {
    /// Produces the record of a freshly created campaign: the creator as
    /// admin, the given metadata, and nothing donated yet.
    pub fn initialize(admin: Pubkey, name: String, description: String) -> (c: Campaign)
        ensures
            c.admin == admin,
            c.name == name,
            c.description == description,
            c.amount_donated == 0,
    {
        Campaign { admin, name, description, amount_donated: 0 }
    }

    /// Adds a donation to the lifetime counter. Fails, changing nothing,
    /// only when the addition would leave the counter's range.
    pub fn record_donation(&mut self, amount: u64) -> (r: Result<(), CampaignError>)
        ensures
            r is Ok <==> old(self).amount_donated + amount <= u64::MAX,
            r is Ok ==> *final(self) == (Campaign {
                amount_donated: (old(self).amount_donated + amount) as u64,
                ..*old(self)
            }),
            r is Err ==> *final(self) == *old(self),
            r is Err ==> r->Err_0 == CampaignError::ArithmeticOverflow,
    {
        if amount <= u64::MAX - self.amount_donated {
            self.amount_donated = self.amount_donated + amount;
            Ok(())
        } else {
            Err(CampaignError::ArithmeticOverflow)
        }
    }
}

} // verus!
