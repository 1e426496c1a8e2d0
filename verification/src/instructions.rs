use crate::accounts::{
    AccountView, CampaignAccount, CampaignSlot, CreateCampaign, Donate, SlotView, Transfer,
    Withdraw,
};
use crate::campaign::{text_fits, Campaign, CampaignView};
use crate::error::ErrorCode;
use crate::events::{CampaignCreated, DonationMade, WithdrawalMade};
use vstd::prelude::*;
use vstd::string::StrSliceExecFns;

verus! {

/// Whether the three texts of a new campaign are all non-empty and within
/// the bounds of the record.
pub open spec fn texts_accepted(
    name: Seq<char>,
    description: Seq<char>,
    campaign_id: Seq<char>,
) -> bool {
    &&& text_fits(name, Campaign::NAME_MAX_LEN as nat)
    &&& text_fits(description, Campaign::DESCRIPTION_MAX_LEN as nat)
    &&& text_fits(campaign_id, Campaign::ID_MAX_LEN as nat)
}

/// The record of a campaign that was just opened: nothing donated, nothing
/// withdrawn, everything else as given.
pub open spec fn opened_campaign(
    owner: Seq<u8>,
    name: Seq<char>,
    description: Seq<char>,
    target: nat,
    campaign_id: Seq<char>,
    bump: u8,
    now: nat,
) -> CampaignView {
    CampaignView {
        owner,
        name,
        description,
        amountDonated: 0,
        targetAmount: target,
        campaignId: campaign_id,
        bump,
        createdAt: now,
        withdrawn: false,
    }
}

/// What creating a campaign makes of a vacant slot, or why it is rejected.
pub open spec fn create_step(
    slot: SlotView,
    owner: Seq<u8>,
    bump: u8,
    now: nat,
    name: Seq<char>,
    description: Seq<char>,
    target: nat,
    campaign_id: Seq<char>,
) -> Result<SlotView, ErrorCode> {
    if texts_accepted(name, description, campaign_id) {
        Ok(
            SlotView {
                data: Some(
                    opened_campaign(owner, name, description, target, campaign_id, bump, now),
                ),
                ..slot
            },
        )
    } else {
        Err(ErrorCode::InvalidCampaignParameters)
    }
}

/// What a donation of `amount` makes of a campaign account, or why it is
/// rejected.
pub open spec fn donate_step(account: AccountView, amount: nat) -> Result<AccountView, ErrorCode> {
    if amount > account.data.remaining() {
        Err(ErrorCode::DonationExceedsTarget)
    } else if account.lamports + amount > u64::MAX || account.data.amountDonated + amount
        > u64::MAX {
        Err(ErrorCode::ArithmeticOverflow)
    } else {
        Ok(
            AccountView {
                lamports: account.lamports + amount,
                data: CampaignView {
                    amountDonated: account.data.amountDonated + amount,
                    ..account.data
                },
                ..account
            },
        )
    }
}

/// What a withdrawal asked for by `actor` makes of a campaign account that
/// must keep `reserve`, or why it is rejected.
pub open spec fn withdraw_step(account: AccountView, actor: Seq<u8>, reserve: nat) -> Result<
    AccountView,
    ErrorCode,
> {
    let available = account.available(reserve);
    if account.data.owner != actor {
        Err(ErrorCode::Unauthorized)
    } else if available == 0 {
        Err(ErrorCode::InsufficientFunds)
    } else {
        Ok(
            AccountView {
                lamports: (account.lamports - available) as nat,
                data: CampaignView {
                    amountDonated: if account.data.amountDonated >= available {
                        (account.data.amountDonated - available) as nat
                    } else {
                        0
                    },
                    withdrawn: true,
                    ..account.data
                },
                ..account
            },
        )
    }
}

fn text_within(text: &str, max: usize) -> (r: bool)
    ensures
        r == text_fits(text@, max as nat),
{
    let length = text.unicode_len();
    0 < length && length <= max
}

/// What `createCampaign` has done when it returns `r`, having found the
/// context as `before` and left it as `after`.
pub open spec fn created(
    before: CreateCampaign,
    after: CreateCampaign,
    name: Seq<char>,
    description: Seq<char>,
    target: u64,
    campaign_id: Seq<char>,
    r: Result<CampaignCreated, ErrorCode>,
) -> bool {
    match r {
        Ok(event) => {
            &&& create_step(
                before.campaign@,
                before.user@,
                before.bump,
                before.now as nat,
                name,
                description,
                target as nat,
                campaign_id,
            ) == Ok::<SlotView, ErrorCode>(after.campaign@)
            &&& after.campaign.key == before.campaign.key
            &&& after.campaign.lamports == before.campaign.lamports
            &&& after.campaign.data matches Some(record) && record.owner == before.user
                && record.wf()
            &&& after.user == before.user
            &&& after.bump == before.bump
            &&& after.now == before.now
            &&& event.campaign == before.campaign.key
            &&& event.owner == before.user
            &&& event.name@ == name
            &&& event.targetAmount == target
            &&& event.campaignId@ == campaign_id
        },
        Err(e) => {
            &&& e == ErrorCode::InvalidCampaignParameters
            &&& !texts_accepted(name, description, campaign_id)
            &&& after == before
        },
    }
}

/// Opens a campaign in the vacant slot of `ctx`, owned by `ctx.user`.
///
/// A campaign whose name, description or id is empty or too long is
/// rejected and the slot stays vacant. Otherwise the slot holds the new
/// record, with nothing donated and nothing withdrawn, and the result is
/// the notice for observers.
pub fn createCampaign(
    ctx: &mut CreateCampaign,
    name: String,
    description: String,
    targetAmount: u64,
    campaignId: String,
) -> (r: Result<CampaignCreated, ErrorCode>)
    requires
        old(ctx).campaign@.vacant(),
    ensures
        created(*old(ctx), *final(ctx), name@, description@, targetAmount, campaignId@, r),
{
    if !text_within(name.as_str(), Campaign::NAME_MAX_LEN) || !text_within(
        description.as_str(),
        Campaign::DESCRIPTION_MAX_LEN,
    ) || !text_within(campaignId.as_str(), Campaign::ID_MAX_LEN) {
        return Err(ErrorCode::InvalidCampaignParameters);
    }
    let event = CampaignCreated {
        campaign: ctx.campaign.key,
        owner: ctx.user,
        name: name.clone(),
        targetAmount,
        campaignId: campaignId.clone(),
    };
    ctx.campaign.data = Some(
        Campaign {
            owner: ctx.user,
            name,
            description,
            amountDonated: 0,
            targetAmount,
            campaignId,
            bump: ctx.bump,
            createdAt: ctx.now,
            withdrawn: false,
        },
    );
    Ok(event)
}

/// What `donate` has done when it returns `r`, having found the context as
/// `before` and left it as `after`.
pub open spec fn donated(
    before: Donate,
    after: Donate,
    amount: u64,
    r: Result<(Transfer, DonationMade), ErrorCode>,
) -> bool {
    match r {
        Ok((transfer, event)) => {
            &&& donate_step(before.campaign@, amount as nat) == Ok::<AccountView, ErrorCode>(
                after.campaign@,
            )
            &&& after.campaign.key == before.campaign.key
            &&& before.campaign.data.wf() ==> after.campaign.data.wf()
            &&& after.user == before.user
            &&& transfer == (Transfer { from: before.user, to: before.campaign.key, amount })
            &&& event.campaign == before.campaign.key
            &&& event.donor == before.user
            &&& event.amount == amount
            &&& event.campaignId@ == before.campaign.data.campaignId@
        },
        Err(e) => {
            &&& donate_step(before.campaign@, amount as nat) == Err::<AccountView, ErrorCode>(e)
            &&& after == before
        },
    }
}

/// Accepts a donation of `amount` from `ctx.user` to the campaign of `ctx`.
///
/// A donation larger than what the campaign still lacks is rejected, and so
/// is one that a 64-bit counter could not take; the account is then left
/// as it was. Otherwise the amount is added to the donations recorded and
/// to the balance held, and the result is the transfer that the balance
/// store has to carry out and the notice for observers. A campaign that
/// was withdrawn from takes donations like any other.
pub fn donate(ctx: &mut Donate, campaignId: String, amount: u64) -> (r: Result<
    (Transfer, DonationMade),
    ErrorCode,
>)
    ensures
        donated(*old(ctx), *final(ctx), amount, r),
{
    if amount > ctx.campaign.data.remaining() {
        return Err(ErrorCode::DonationExceedsTarget);
    }
    let lamports = match ctx.campaign.lamports.checked_add(amount) {
        Some(sum) => sum,
        None => {
            return Err(ErrorCode::ArithmeticOverflow);
        },
    };
    let donated = match ctx.campaign.data.amountDonated.checked_add(amount) {
        Some(sum) => sum,
        None => {
            return Err(ErrorCode::ArithmeticOverflow);
        },
    };
    ctx.campaign.lamports = lamports;
    ctx.campaign.data.amountDonated = donated;
    let transfer = Transfer { from: ctx.user, to: ctx.campaign.key, amount };
    let event = DonationMade {
        campaign: ctx.campaign.key,
        donor: ctx.user,
        amount,
        campaignId: ctx.campaign.data.campaignId.clone(),
    };
    Ok((transfer, event))
}

/// What `withdraw` has done when it returns `r`, having found the context
/// as `before` and left it as `after`.
pub open spec fn withdrawn(
    before: Withdraw,
    after: Withdraw,
    r: Result<(Transfer, WithdrawalMade), ErrorCode>,
) -> bool {
    match r {
        Ok((transfer, event)) => {
            &&& withdraw_step(before.campaign@, before.owner@, before.reserve as nat) == Ok::<
                AccountView,
                ErrorCode,
            >(after.campaign@)
            &&& after.campaign.key == before.campaign.key
            &&& before.campaign.data.wf() ==> after.campaign.data.wf()
            &&& after.owner == before.owner
            &&& after.reserve == before.reserve
            &&& transfer.from == before.campaign.key
            &&& transfer.to == before.owner
            &&& transfer.amount == before.campaign@.available(before.reserve as nat)
            &&& event.campaign == before.campaign.key
            &&& event.owner == before.owner
            &&& event.balance == before.campaign.lamports
            &&& event.campaignId@ == before.campaign.data.campaignId@
        },
        Err(e) => {
            &&& withdraw_step(before.campaign@, before.owner@, before.reserve as nat) == Err::<
                AccountView,
                ErrorCode,
            >(e)
            &&& after == before
        },
    }
}

/// Hands everything held above `ctx.reserve` to the owner of the campaign.
///
/// Anyone but the owner is rejected, and so is a withdrawal where nothing
/// is held above the reserve; the account is then left as it was.
/// Otherwise the balance drops to the reserve, the donations recorded drop
/// by what was handed out (never below zero), the campaign is marked as
/// withdrawn from, and the result is the transfer that the balance store
/// has to carry out and the notice for observers.
pub fn withdraw(ctx: &mut Withdraw, _campaign_id: String) -> (r: Result<
    (Transfer, WithdrawalMade),
    ErrorCode,
>)
    ensures
        withdrawn(*old(ctx), *final(ctx), r),
{
    if ctx.campaign.data.owner != ctx.owner {
        return Err(ErrorCode::Unauthorized);
    }
    let balance = ctx.campaign.lamports;
    let available = balance.saturating_sub(ctx.reserve);
    if available == 0 {
        return Err(ErrorCode::InsufficientFunds);
    }
    ctx.campaign.lamports = balance - available;
    ctx.campaign.data.amountDonated = ctx.campaign.data.amountDonated.saturating_sub(available);
    ctx.campaign.data.withdrawn = true;
    let transfer = Transfer { from: ctx.campaign.key, to: ctx.owner, amount: available };
    let event = WithdrawalMade {
        campaign: ctx.campaign.key,
        owner: ctx.owner,
        balance,
        campaignId: ctx.campaign.data.campaignId.clone(),
    };
    Ok((transfer, event))
}

} // verus!
