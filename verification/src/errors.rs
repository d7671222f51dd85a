//! The failure taxonomy of the campaign core. Every operation either commits
//! in full or aborts with one of these values and no partial state change.

use vstd::prelude::*;

verus! {

/// Why a campaign operation was refused.
#[derive(Clone, Copy, Debug, PartialEq, Eq, Structural)]
pub enum CampaignError {
    /// `create` was asked to initialize an address that already holds a
    /// campaign record.
    DuplicateAccount,
    /// `withdraw` was attempted by a caller other than the recorded admin.
    Unauthorized,
    /// A balance movement would overdraw its source: a donor without the
    /// donated amount, or a withdrawal reaching below the reserve floor.
    InsufficientFunds,
    /// Recording a donation would push the lifetime counter past its range.
    ArithmeticOverflow,
    /// The host ledger cannot apply a movement for any other reason, such as
    /// a destination balance that would leave the representable range.
    TransferFailure,
}

} // verus!
