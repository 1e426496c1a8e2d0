use crate::accounts::{CreateCampaign, Donate, Transfer, Withdraw};
use crate::address::Address;
use crate::derive::campaign_address_at;
use crate::error::ErrorCode;
use crate::events::{CampaignCreated, DonationMade, WithdrawalMade};
use crate::instructions::{createCampaign, created, donate, donated, withdraw, withdrawn};
use vstd::prelude::*;

verus! {

/// Creates a campaign after checking where: the slot has to be vacant and
/// to lie at the address that `ctx.user` and `campaignId` yield under
/// `program_id`, with `ctx.bump` as its bump seed.
///
/// Where the check fails the result is `None` and nothing is changed, so a
/// campaign is created at most once for an owner and an id. Where it
/// passes the result is what `createCampaign` returns, and the campaign
/// created lies where `process_donate` and `process_withdraw` look for it.
pub fn process_create_campaign(
    program_id: &Address,
    ctx: &mut CreateCampaign,
    name: String,
    description: String,
    targetAmount: u64,
    campaignId: String,
) -> (r: Option<Result<CampaignCreated, ErrorCode>>)
    ensures
        match r {
            Some(outcome) => {
                &&& old(ctx).admitted(program_id@, campaignId@)
                &&& created(
                    *old(ctx),
                    *final(ctx),
                    name@,
                    description@,
                    targetAmount,
                    campaignId@,
                    outcome,
                )
                &&& outcome is Ok ==> campaign_address_at(
                    program_id@,
                    final(ctx).campaign@.data->Some_0.owner,
                    campaignId@,
                    final(ctx).campaign@.data->Some_0.bump,
                ) == Some(final(ctx).campaign@.key)
            },
            None => !old(ctx).admitted(program_id@, campaignId@) && *final(ctx) == *old(ctx),
        },
{
    if !ctx.campaign.is_vacant() || !ctx.at_derived_address(program_id, campaignId.as_str()) {
        return None;
    }
    Some(createCampaign(ctx, name, description, targetAmount, campaignId))
}

/// Donates after checking the account: it has to lie at the address that
/// the owner and the bump seed in its record yield, with `campaignId`,
/// under `program_id`.
///
/// Where the check fails the result is `None` and nothing is changed;
/// where it passes the result is what `donate` returns.
pub fn process_donate(program_id: &Address, ctx: &mut Donate, campaignId: String, amount: u64) -> (r:
    Option<Result<(Transfer, DonationMade), ErrorCode>>)
    ensures
        match r {
            Some(outcome) => {
                &&& old(ctx).campaign@.at_derived_address(program_id@, campaignId@)
                &&& donated(*old(ctx), *final(ctx), amount, outcome)
            },
            None => {
                &&& !old(ctx).campaign@.at_derived_address(program_id@, campaignId@)
                &&& *final(ctx) == *old(ctx)
            },
        },
{
    if !ctx.campaign.at_derived_address(program_id, campaignId.as_str()) {
        return None;
    }
    Some(donate(ctx, campaignId, amount))
}

/// Withdraws after checking the account: it has to lie at the address that
/// the owner and the bump seed in its record yield, with `campaign_id`,
/// under `program_id`.
///
/// Where the check fails the result is `None` and nothing is changed;
/// where it passes the result is what `withdraw` returns.
pub fn process_withdraw(program_id: &Address, ctx: &mut Withdraw, campaign_id: String) -> (r:
    Option<Result<(Transfer, WithdrawalMade), ErrorCode>>)
    ensures
        match r {
            Some(outcome) => {
                &&& old(ctx).campaign@.at_derived_address(program_id@, campaign_id@)
                &&& withdrawn(*old(ctx), *final(ctx), outcome)
            },
            None => {
                &&& !old(ctx).campaign@.at_derived_address(program_id@, campaign_id@)
                &&& *final(ctx) == *old(ctx)
            },
        },
{
    if !ctx.campaign.at_derived_address(program_id, campaign_id.as_str()) {
        return None;
    }
    Some(withdraw(ctx, campaign_id))
}

} // verus!
