use crate::address::Address;
use crate::campaign::{Campaign, CampaignView};
use crate::derive::{
    campaign_address_at, campaign_address_with_bump, derived_campaign_address,
    find_campaign_address,
};
use vstd::prelude::*;

verus! {

/// The account of an existing campaign: where it lives, the balance held
/// there and the record.
#[derive(Clone, Debug, PartialEq, Eq)]
pub struct CampaignAccount {
    pub key: Address,
    /// The balance held at `key`, reserve included.
    pub lamports: u64,
    pub data: Campaign,
}

/// A campaign account as a mathematical value.
pub struct AccountView {
    pub key: Seq<u8>,
    pub lamports: nat,
    pub data: CampaignView,
}

impl View for CampaignAccount {
    type V = AccountView;

    open spec fn view(&self) -> AccountView {
        AccountView { key: self.key@, lamports: self.lamports as nat, data: self.data@ }
    }
}

impl AccountView {
    /// What is held above `reserve`, never below zero.
    pub open spec fn available(self, reserve: nat) -> nat {
        if self.lamports >= reserve {
            (self.lamports - reserve) as nat
        } else {
            0
        }
    }

    /// Whether the balance covers the reserve and every donation recorded
    /// and not yet withdrawn.
    pub open spec fn backed(self, reserve: nat) -> bool {
        self.lamports >= reserve + self.data.amountDonated
    }

    /// Whether the account lives at the address that its owner, the given
    /// campaign id and the stored bump seed yield under `program_id`.
    pub open spec fn at_derived_address(self, program_id: Seq<u8>, campaign_id: Seq<char>) -> bool {
        campaign_address_at(program_id, self.data.owner, campaign_id, self.data.bump) == Some(
            self.key,
        )
    }
}

impl CampaignAccount {
    /// Derives the address again from the owner and the bump seed in the
    /// record, without a search, and compares it with the account's own.
    pub fn at_derived_address(&self, program_id: &Address, campaign_id: &str) -> (r: bool)
        ensures
            r == self@.at_derived_address(program_id@, campaign_id@),
    {
        match campaign_address_with_bump(program_id, &self.data.owner, campaign_id, self.data.bump)
        {
            Some(address) => address.same(&self.key),
            None => false,
        }
    }
}

/// The place reserved for a campaign: an address, the balance deposited
/// there to pay for the storage, and the record once the campaign exists.
#[derive(Clone, Debug, PartialEq, Eq)]
pub struct CampaignSlot {
    pub key: Address,
    pub lamports: u64,
    /// `None` until the campaign is created.
    pub data: Option<Campaign>,
}

/// A campaign slot as a mathematical value.
pub struct SlotView {
    pub key: Seq<u8>,
    pub lamports: nat,
    pub data: Option<CampaignView>,
}

impl View for CampaignSlot {
    type V = SlotView;

    open spec fn view(&self) -> SlotView {
        SlotView {
            key: self.key@,
            lamports: self.lamports as nat,
            data: match self.data {
                Some(campaign) => Some(campaign@),
                None => None,
            },
        }
    }
}

impl SlotView {
    /// Whether no campaign exists here yet.
    pub open spec fn vacant(self) -> bool {
        self.data is None
    }
}

impl CampaignSlot {
    /// A slot at `key` that holds `lamports` and no campaign.
    pub fn vacant(key: Address, lamports: u64) -> (slot: CampaignSlot)
        ensures
            slot.key == key,
            slot.lamports == lamports,
            slot.data is None,
            slot@.vacant(),
    {
        CampaignSlot { key, lamports, data: None }
    }

    /// Whether no campaign exists here yet.
    pub fn is_vacant(&self) -> (r: bool)
        ensures
            r == self@.vacant(),
    {
        self.data.is_none()
    }

    /// The account of the campaign created here, if there is one.
    pub fn into_account(self) -> (r: Option<CampaignAccount>)
        ensures
            match r {
                Some(account) => self.data == Some(account.data) && account.key == self.key
                    && account.lamports == self.lamports,
                None => self.data is None,
            },
    {
        match self.data {
            Some(data) => Some(CampaignAccount { key: self.key, lamports: self.lamports, data }),
            None => None,
        }
    }
}

/// An order to the balance store: move `amount` from `from` to `to`.
#[derive(Clone, Copy, Debug, PartialEq, Eq)]
pub struct Transfer {
    pub from: Address,
    pub to: Address,
    pub amount: u64,
}

/// What the creation of a campaign works on.
#[derive(Clone, Debug, PartialEq, Eq)]
pub struct CreateCampaign {
    /// The slot at the campaign's address, funded by `user`.
    pub campaign: CampaignSlot,
    /// The authenticated actor who opens the campaign.
    pub user: Address,
    /// The bump seed that came with the slot's address.
    pub bump: u8,
    /// The ledger's clock, in seconds since the epoch.
    pub now: u64,
}

impl CreateCampaign {
    /// Whether the slot lies at the address, and `bump` is the bump seed,
    /// that `user` and the campaign id yield under `program_id`.
    pub open spec fn address_derived(
        &self,
        program_id: Seq<u8>,
        campaign_id: Seq<char>,
    ) -> bool {
        derived_campaign_address(program_id, self.user@, campaign_id) == Some(
            (self.campaign.key@, self.bump),
        )
    }

    /// Whether the creation may go ahead under `program_id` and the given
    /// campaign id: the slot is vacant and lies at the derived address.
    pub open spec fn admitted(&self, program_id: Seq<u8>, campaign_id: Seq<char>) -> bool {
        self.campaign@.vacant() && self.address_derived(program_id, campaign_id)
    }

    /// Searches the campaign's address and compares it, and its bump seed,
    /// with what the context holds.
    ///
    /// A slot that passes lies at the address that the same seeds yield
    /// again from the bump seed alone, which is how the account of the
    /// campaign created in it is checked later.
    pub fn at_derived_address(&self, program_id: &Address, campaign_id: &str) -> (r: bool)
        ensures
            r == self.address_derived(program_id@, campaign_id@),
            r ==> campaign_address_at(program_id@, self.user@, campaign_id@, self.bump) == Some(
                self.campaign.key@,
            ),
    {
        match find_campaign_address(program_id, &self.user, campaign_id) {
            Some((address, bump)) => address.same(&self.campaign.key) && bump == self.bump,
            None => false,
        }
    }
}

/// What a donation works on.
#[derive(Clone, Debug, PartialEq, Eq)]
pub struct Donate {
    pub campaign: CampaignAccount,
    /// The authenticated actor who gives.
    pub user: Address,
}

/// What a withdrawal works on.
#[derive(Clone, Debug, PartialEq, Eq)]
pub struct Withdraw {
    pub campaign: CampaignAccount,
    /// The authenticated actor who asks for the funds.
    pub owner: Address,
    /// The balance that the campaign's account must keep.
    pub reserve: u64,
}

} // verus!
