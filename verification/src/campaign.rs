use crate::address::Address;
use vstd::prelude::*;

verus! {

/// The record of one fundraising campaign.
#[derive(Clone, Debug, PartialEq, Eq)]
pub struct Campaign {
    /// Who opened the campaign; fixed at creation.
    pub owner: Address,
    pub name: String,
    pub description: String,
    /// Donations received and not yet withdrawn.
    pub amountDonated: u64,
    /// The funding goal; fixed at creation.
    pub targetAmount: u64,
    /// Chosen by the owner; together with the owner it fixes the address.
    pub campaignId: String,
    /// The bump seed of the campaign's address.
    pub bump: u8,
    /// Seconds since the epoch at creation.
    pub createdAt: u64,
    /// Set by the first withdrawal and never cleared.
    pub withdrawn: bool,
}

/// A campaign record as a mathematical value.
pub struct CampaignView {
    pub owner: Seq<u8>,
    pub name: Seq<char>,
    pub description: Seq<char>,
    pub amountDonated: nat,
    pub targetAmount: nat,
    pub campaignId: Seq<char>,
    pub bump: u8,
    pub createdAt: nat,
    pub withdrawn: bool,
}

impl View for Campaign {
    type V = CampaignView;

    open spec fn view(&self) -> CampaignView {
        CampaignView {
            owner: self.owner@,
            name: self.name@,
            description: self.description@,
            amountDonated: self.amountDonated as nat,
            targetAmount: self.targetAmount as nat,
            campaignId: self.campaignId@,
            bump: self.bump,
            createdAt: self.createdAt as nat,
            withdrawn: self.withdrawn,
        }
    }
}

/// Whether a text is non-empty and at most `max` characters long.
pub open spec fn text_fits(text: Seq<char>, max: nat) -> bool {
    0 < text.len() <= max
}

impl CampaignView {
    /// What holds of every campaign record: the three texts are within
    /// their bounds and no more was donated than the target.
    pub open spec fn well_formed(self) -> bool {
        &&& text_fits(self.name, Campaign::NAME_MAX_LEN as nat)
        &&& text_fits(self.description, Campaign::DESCRIPTION_MAX_LEN as nat)
        &&& text_fits(self.campaignId, Campaign::ID_MAX_LEN as nat)
        &&& self.amountDonated <= self.targetAmount
    }

    /// What the campaign still lacks to reach its target, never below zero.
    pub open spec fn remaining(self) -> nat {
        if self.targetAmount >= self.amountDonated {
            (self.targetAmount - self.amountDonated) as nat
        } else {
            0
        }
    }
}

impl Campaign {
    /// The longest name, in characters.
    pub const NAME_MAX_LEN: usize = 50;

    /// The longest description, in characters.
    pub const DESCRIPTION_MAX_LEN: usize = 200;

    /// The longest campaign id, in characters.
    pub const ID_MAX_LEN: usize = 32;

    /// The bytes reserved for one stored record: an 8-byte discriminator,
    /// the 32-byte owner, each text with a 4-byte length prefix, and the
    /// fixed-size fields.
    pub const INIT_SPACE: usize = 8 + 32 + 4 + Self::NAME_MAX_LEN + 4 + Self::DESCRIPTION_MAX_LEN
        + 8 + 8 + 4 + Self::ID_MAX_LEN + 1 + 8 + 1;

    /// Whether the record meets the invariant of campaign records.
    pub open spec fn wf(&self) -> bool {
        self@.well_formed()
    }

    /// What the campaign still lacks to reach its target, never below zero.
    pub fn remaining(&self) -> (r: u64)
        ensures
            r == self@.remaining(),
    {
        self.targetAmount.saturating_sub(self.amountDonated)
    }
}

} // verus!
