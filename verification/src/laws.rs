use crate::accounts::{AccountView, CreateCampaign, Donate, SlotView, Transfer, Withdraw};
use crate::address::lemma_address_eq;
use crate::events::{CampaignCreated, DonationMade, WithdrawalMade};
use crate::campaign::{Campaign, CampaignView};
use crate::error::ErrorCode;
use crate::instructions::{
    create_step, created, donate_step, donated, withdraw_step, withdrawn,
};
use vstd::prelude::*;

verus! {

/// The sum of a sequence of amounts.
pub open spec fn total(amounts: Seq<u64>) -> nat
    decreases amounts.len(),
{
    if amounts.len() == 0 {
        0
    } else {
        total(amounts.drop_last()) + amounts.last() as nat
    }
}

/// What a sequence of donations, made one after the other, makes of a
/// campaign account; the first rejection ends the sequence.
pub open spec fn donate_all(account: AccountView, amounts: Seq<u64>) -> Result<
    AccountView,
    ErrorCode,
>
    decreases amounts.len(),
{
    if amounts.len() == 0 {
        Ok(account)
    } else {
        match donate_all(account, amounts.drop_last()) {
            Ok(next) => donate_step(next, amounts.last() as nat),
            Err(e) => Err(e),
        }
    }
}

/// A campaign that was created holds exactly what was given: nothing is
/// donated, nothing is withdrawn, owner, texts, target, bump seed and time
/// are the inputs, and the record is well formed.
pub proof fn lemma_creation_stores_inputs(
    slot: SlotView,
    owner: Seq<u8>,
    bump: u8,
    now: nat,
    name: Seq<char>,
    description: Seq<char>,
    target: nat,
    campaign_id: Seq<char>,
)
    requires
        create_step(slot, owner, bump, now, name, description, target, campaign_id) is Ok,
    ensures
        ({
            let created = create_step(
                slot,
                owner,
                bump,
                now,
                name,
                description,
                target,
                campaign_id,
            )->Ok_0;
            &&& created.key == slot.key
            &&& created.lamports == slot.lamports
            &&& created.data is Some
            &&& created.data->Some_0.amountDonated == 0
            &&& created.data->Some_0.withdrawn == false
            &&& created.data->Some_0.owner == owner
            &&& created.data->Some_0.name == name
            &&& created.data->Some_0.description == description
            &&& created.data->Some_0.targetAmount == target
            &&& created.data->Some_0.campaignId == campaign_id
            &&& created.data->Some_0.bump == bump
            &&& created.data->Some_0.createdAt == now
            &&& created.data->Some_0.well_formed()
        }),
{
}

/// Creation is rejected exactly when one of the three texts is empty or
/// too long, and then with `InvalidCampaignParameters`.
pub proof fn lemma_creation_rejects_bad_texts(
    slot: SlotView,
    owner: Seq<u8>,
    bump: u8,
    now: nat,
    name: Seq<char>,
    description: Seq<char>,
    target: nat,
    campaign_id: Seq<char>,
)
    ensures
        ({
            let r = create_step(slot, owner, bump, now, name, description, target, campaign_id);
            &&& r is Err <==> (name.len() == 0 || name.len() > 50 || description.len() == 0
                || description.len() > 200 || campaign_id.len() == 0 || campaign_id.len() > 32)
            &&& r is Err ==> r == Err::<SlotView, ErrorCode>(ErrorCode::InvalidCampaignParameters)
        }),
{
}

/// A slot in which a campaign was created is no longer vacant: it admits no
/// second creation, whatever the inputs of the second one are.
pub proof fn lemma_creation_fills_the_slot(
    slot: SlotView,
    owner: Seq<u8>,
    bump: u8,
    now: nat,
    name: Seq<char>,
    description: Seq<char>,
    target: nat,
    campaign_id: Seq<char>,
)
    requires
        slot.vacant(),
        create_step(slot, owner, bump, now, name, description, target, campaign_id) is Ok,
    ensures
        !create_step(slot, owner, bump, now, name, description, target, campaign_id)->Ok_0.vacant(),
{
}

/// An owner and a campaign id have one address under a program: two
/// creations for the same owner and id that both lie at the derived address
/// are aimed at the same slot, with the same bump seed.
pub proof fn lemma_one_slot_per_owner_and_id(
    first: CreateCampaign,
    second: CreateCampaign,
    program_id: Seq<u8>,
    campaign_id: Seq<char>,
)
    requires
        first.user@ == second.user@,
        first.address_derived(program_id, campaign_id),
        second.address_derived(program_id, campaign_id),
    ensures
        first.campaign.key == second.campaign.key,
        first.bump == second.bump,
{
    lemma_address_eq(first.campaign.key, second.campaign.key);
}

/// Once a campaign was created in a slot, no creation is admitted there
/// again, whatever the program and the campaign id it names.
pub proof fn lemma_second_creation_refused(
    before: CreateCampaign,
    after: CreateCampaign,
    name: Seq<char>,
    description: Seq<char>,
    target: u64,
    campaign_id: Seq<char>,
    event: CampaignCreated,
    program_id: Seq<u8>,
    second_id: Seq<char>,
)
    requires
        created(before, after, name, description, target, campaign_id, Ok(event)),
    ensures
        !after.campaign@.vacant(),
        !after.admitted(program_id, second_id),
{
}

/// Donations that together fit under the target are all accepted: the
/// donations recorded and the balance held both grow by exactly their sum,
/// and nothing else changes.
pub proof fn lemma_donations_accumulate(account: AccountView, amounts: Seq<u64>)
    requires
        account.data.amountDonated + total(amounts) <= account.data.targetAmount,
        account.data.targetAmount <= u64::MAX,
        account.lamports + total(amounts) <= u64::MAX,
    ensures
        donate_all(account, amounts) == Ok::<AccountView, ErrorCode>(
            AccountView {
                lamports: account.lamports + total(amounts),
                data: CampaignView {
                    amountDonated: account.data.amountDonated + total(amounts),
                    ..account.data
                },
                ..account
            },
        ),
    decreases amounts.len(),
{
    if amounts.len() > 0 {
        lemma_donations_accumulate(account, amounts.drop_last());
    }
}

/// On a campaign that has received nothing yet, donations that together
/// fit under the target leave exactly their sum recorded.
pub proof fn lemma_donations_to_fresh_campaign(account: AccountView, amounts: Seq<u64>)
    requires
        account.data.amountDonated == 0,
        total(amounts) <= account.data.targetAmount,
        account.data.targetAmount <= u64::MAX,
        account.lamports + total(amounts) <= u64::MAX,
    ensures
        donate_all(account, amounts) is Ok,
        donate_all(account, amounts)->Ok_0.data.amountDonated == total(amounts),
        donate_all(account, amounts)->Ok_0.lamports == account.lamports + total(amounts),
{
    lemma_donations_accumulate(account, amounts);
}

/// A donation larger than what the campaign still lacks is rejected with
/// `DonationExceedsTarget`, and no other donation is.
pub proof fn lemma_donation_over_target(account: AccountView, amount: nat)
    ensures
        amount > account.data.remaining() <==> donate_step(account, amount) == Err::<
            AccountView,
            ErrorCode,
        >(ErrorCode::DonationExceedsTarget),
{
}

/// A donation of nothing is accepted and changes nothing.
pub proof fn lemma_empty_donation(account: AccountView)
    requires
        account.lamports <= u64::MAX,
        account.data.amountDonated <= u64::MAX,
    ensures
        donate_step(account, 0) == Ok::<AccountView, ErrorCode>(account),
{
}

/// Whether a campaign was withdrawn from has no bearing on a donation: it
/// is accepted or rejected as before, and the mark stays as it was.
pub proof fn lemma_donation_ignores_withdrawn(account: AccountView, amount: nat, mark: bool)
    ensures
        ({
            let other = AccountView {
                data: CampaignView { withdrawn: mark, ..account.data },
                ..account
            };
            match donate_step(account, amount) {
                Ok(next) => donate_step(other, amount) == Ok::<AccountView, ErrorCode>(
                    AccountView { data: CampaignView { withdrawn: mark, ..next.data }, ..next },
                ) && next.data.withdrawn == account.data.withdrawn,
                Err(e) => donate_step(other, amount) == Err::<AccountView, ErrorCode>(e),
            }
        }),
{
}

/// A withdrawal by anyone but the owner is rejected with `Unauthorized`,
/// and no withdrawal by the owner is.
pub proof fn lemma_withdrawal_by_stranger(account: AccountView, actor: Seq<u8>, reserve: nat)
    ensures
        actor != account.data.owner <==> withdraw_step(account, actor, reserve) == Err::<
            AccountView,
            ErrorCode,
        >(ErrorCode::Unauthorized),
{
}

/// A withdrawal by the owner hands out what is held above the reserve:
/// the balance drops to the reserve, the donations recorded drop by what
/// was handed out, never below zero, and the campaign is marked.
pub proof fn lemma_withdrawal_by_owner(account: AccountView, reserve: nat)
    requires
        account.lamports > reserve,
    ensures
        ({
            let available = (account.lamports - reserve) as nat;
            let r = withdraw_step(account, account.data.owner, reserve);
            &&& r is Ok
            &&& r->Ok_0.lamports == reserve
            &&& r->Ok_0.lamports + available == account.lamports
            &&& r->Ok_0.data.amountDonated == if account.data.amountDonated >= available {
                account.data.amountDonated - available
            } else {
                0
            }
            &&& r->Ok_0.data.withdrawn
            &&& r->Ok_0.key == account.key
            &&& r->Ok_0.data == (CampaignView {
                amountDonated: r->Ok_0.data.amountDonated,
                withdrawn: true,
                ..account.data
            })
        }),
{
}

/// After a withdrawal nothing is left above the reserve, so a second
/// withdrawal is rejected with `InsufficientFunds`.
pub proof fn lemma_second_withdrawal_refused(account: AccountView, actor: Seq<u8>, reserve: nat)
    requires
        withdraw_step(account, actor, reserve) is Ok,
    ensures
        withdraw_step(withdraw_step(account, actor, reserve)->Ok_0, actor, reserve) == Err::<
            AccountView,
            ErrorCode,
        >(ErrorCode::InsufficientFunds),
{
}

/// A withdrawal by the owner is rejected with `InsufficientFunds` exactly
/// when nothing is held above the reserve.
pub proof fn lemma_withdrawal_of_nothing(account: AccountView, reserve: nat)
    ensures
        account.lamports <= reserve <==> withdraw_step(account, account.data.owner, reserve)
            == Err::<AccountView, ErrorCode>(ErrorCode::InsufficientFunds),
{
}

/// A donation keeps a record well formed, leaves owner, texts, target,
/// bump seed, creation time and address as they were, and keeps the
/// balance above the reserve and the donations recorded.
pub proof fn lemma_donation_keeps_invariants(account: AccountView, amount: nat, reserve: nat)
    requires
        donate_step(account, amount) is Ok,
    ensures
        ({
            let next = donate_step(account, amount)->Ok_0;
            &&& account.data.well_formed() ==> next.data.well_formed()
            &&& account.backed(reserve) ==> next.backed(reserve)
            &&& next.key == account.key
            &&& next.data == (CampaignView {
                amountDonated: next.data.amountDonated,
                ..account.data
            })
        }),
{
}

/// A withdrawal keeps a record well formed, leaves owner, texts, target,
/// bump seed, creation time and address as they were, sets the mark that
/// the campaign was withdrawn from, and keeps the balance above the
/// reserve and the donations recorded; of a backed account it leaves no
/// donation recorded.
pub proof fn lemma_withdrawal_keeps_invariants(account: AccountView, actor: Seq<u8>, reserve: nat)
    requires
        withdraw_step(account, actor, reserve) is Ok,
    ensures
        ({
            let next = withdraw_step(account, actor, reserve)->Ok_0;
            &&& account.data.well_formed() ==> next.data.well_formed()
            &&& account.backed(reserve) ==> next.backed(reserve)
            &&& account.backed(reserve) ==> next.data.amountDonated == 0
            &&& next.data.amountDonated <= account.data.amountDonated
            &&& next.key == account.key
            &&& next.data == (CampaignView {
                amountDonated: next.data.amountDonated,
                withdrawn: true,
                ..account.data
            })
        }),
{
}

/// A campaign created in a slot that holds at least the reserve is backed.
pub proof fn lemma_creation_is_backed(
    slot: SlotView,
    owner: Seq<u8>,
    bump: u8,
    now: nat,
    name: Seq<char>,
    description: Seq<char>,
    target: nat,
    campaign_id: Seq<char>,
    reserve: nat,
)
    requires
        slot.lamports >= reserve,
        create_step(slot, owner, bump, now, name, description, target, campaign_id) is Ok,
    ensures
        ({
            let created = create_step(
                slot,
                owner,
                bump,
                now,
                name,
                description,
                target,
                campaign_id,
            )->Ok_0;
            created.lamports >= reserve + created.data->Some_0.amountDonated
        }),
{
}

/// What a creation makes of its slot is fixed by the slot it found and by
/// what was asked: whether it succeeds and the slot it leaves are the same
/// whatever notice it hands out, so no notice has to be read for the slot
/// to be right.
pub proof fn lemma_creation_needs_no_notice(
    before: CreateCampaign,
    name: Seq<char>,
    description: Seq<char>,
    target: u64,
    campaign_id: Seq<char>,
    one: (CreateCampaign, Result<CampaignCreated, ErrorCode>),
    other: (CreateCampaign, Result<CampaignCreated, ErrorCode>),
)
    requires
        created(before, one.0, name, description, target, campaign_id, one.1),
        created(before, other.0, name, description, target, campaign_id, other.1),
    ensures
        one.0.campaign@ == other.0.campaign@,
        one.1 is Ok <==> other.1 is Ok,
{
}

/// What a donation makes of its account is fixed by the account it found
/// and by the amount, whatever notice it hands out.
pub proof fn lemma_donation_needs_no_notice(
    before: Donate,
    amount: u64,
    one: (Donate, Result<(Transfer, DonationMade), ErrorCode>),
    other: (Donate, Result<(Transfer, DonationMade), ErrorCode>),
)
    requires
        donated(before, one.0, amount, one.1),
        donated(before, other.0, amount, other.1),
    ensures
        one.0.campaign@ == other.0.campaign@,
        one.1 is Ok <==> other.1 is Ok,
        one.1 is Ok ==> one.1->Ok_0.0 == other.1->Ok_0.0,
{
}

/// What a withdrawal makes of its account is fixed by the account it
/// found, by who asked and by the reserve, whatever notice it hands out.
pub proof fn lemma_withdrawal_needs_no_notice(
    before: Withdraw,
    one: (Withdraw, Result<(Transfer, WithdrawalMade), ErrorCode>),
    other: (Withdraw, Result<(Transfer, WithdrawalMade), ErrorCode>),
)
    requires
        withdrawn(before, one.0, one.1),
        withdrawn(before, other.0, other.1),
    ensures
        one.0.campaign@ == other.0.campaign@,
        one.1 is Ok <==> other.1 is Ok,
        one.1 is Ok ==> one.1->Ok_0.0.amount == other.1->Ok_0.0.amount,
{
}

/// The space reserved for a stored record is 360 bytes.
pub proof fn lemma_init_space()
    ensures
        Campaign::INIT_SPACE == 360,
{
}

} // verus!
