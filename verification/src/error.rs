use vstd::prelude::*;

verus! {

/// Why an operation on a campaign was rejected.
#[derive(Clone, Copy, Debug, PartialEq, Eq, Structural)]
pub enum ErrorCode {
    /// The name, the description or the id of a new campaign is empty or
    /// longer than the record allows.
    InvalidCampaignParameters,
    /// A donation is larger than what the campaign still lacks.
    DonationExceedsTarget,
    /// A withdrawal was asked for by someone other than the owner.
    Unauthorized,
    /// Nothing is held above the reserve.
    InsufficientFunds,
    /// An addition would leave the range of a 64-bit counter.
    ArithmeticOverflow,
}

} // verus!
