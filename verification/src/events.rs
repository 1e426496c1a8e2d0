use crate::address::Address;
use vstd::prelude::*;

verus! {

/// Tells observers that a campaign was opened.
#[derive(Clone, Debug, PartialEq, Eq)]
pub struct CampaignCreated {
    /// The address of the new campaign.
    pub campaign: Address,
    pub owner: Address,
    pub name: String,
    pub targetAmount: u64,
    pub campaignId: String,
}

/// Tells observers that a donation was accepted.
#[derive(Clone, Debug, PartialEq, Eq)]
pub struct DonationMade {
    pub campaign: Address,
    pub donor: Address,
    pub amount: u64,
    pub campaignId: String,
}

/// Tells observers that the owner withdrew what was held above the reserve.
#[derive(Clone, Debug, PartialEq, Eq)]
pub struct WithdrawalMade {
    pub campaign: Address,
    pub owner: Address,
    /// The whole balance held before the withdrawal, reserve included.
    pub balance: u64,
    pub campaignId: String,
}

} // verus!
