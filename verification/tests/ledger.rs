use campaign_ledger::{
    createCampaign, donate, withdraw, Address, Campaign, CampaignAccount, CampaignSlot,
    CreateCampaign, Donate, ErrorCode, Transfer, Withdraw,
};

const RESERVE: u64 = 3_396_480;

fn address(tag: u8) -> Address {
    Address::new([tag; 32])
}

fn open(target: u64, id: &str) -> CampaignAccount {
    let mut ctx = CreateCampaign {
        campaign: CampaignSlot::vacant(address(9), RESERVE),
        user: address(1),
        bump: 254,
        now: 1_700_000_000,
    };
    createCampaign(
        &mut ctx,
        String::from("Shelter"),
        String::from("A roof for the winter"),
        target,
        String::from(id),
    )
    .unwrap();
    ctx.campaign.into_account().unwrap()
}

fn give(account: CampaignAccount, donor: Address, amount: u64) -> (CampaignAccount, Result<Transfer, ErrorCode>) {
    let mut ctx = Donate { campaign: account, user: donor };
    let outcome = donate(&mut ctx, String::from("c1"), amount).map(|(transfer, _)| transfer);
    (ctx.campaign, outcome)
}

fn take(account: CampaignAccount, actor: Address, reserve: u64) -> (CampaignAccount, Result<Transfer, ErrorCode>) {
    let mut ctx = Withdraw { campaign: account, owner: actor, reserve };
    let outcome = withdraw(&mut ctx, String::from("c1"), ).map(|(transfer, _)| transfer);
    (ctx.campaign, outcome)
}

#[test]
fn creation_stores_the_inputs() {
    let mut ctx = CreateCampaign {
        campaign: CampaignSlot::vacant(address(9), RESERVE),
        user: address(1),
        bump: 254,
        now: 1_700_000_000,
    };
    assert!(ctx.campaign.is_vacant());
    let event = createCampaign(
        &mut ctx,
        String::from("Shelter"),
        String::from("A roof for the winter"),
        1000,
        String::from("c1"),
    )
    .unwrap();
    assert_eq!(event.campaign, address(9));
    assert_eq!(event.owner, address(1));
    assert_eq!(event.name, "Shelter");
    assert_eq!(event.targetAmount, 1000);
    assert_eq!(event.campaignId, "c1");
    assert_eq!(ctx.campaign.key, address(9));
    assert_eq!(ctx.campaign.lamports, RESERVE);
    assert_eq!(
        ctx.campaign.data,
        Some(Campaign {
            owner: address(1),
            name: String::from("Shelter"),
            description: String::from("A roof for the winter"),
            amountDonated: 0,
            targetAmount: 1000,
            campaignId: String::from("c1"),
            bump: 254,
            createdAt: 1_700_000_000,
            withdrawn: false,
        })
    );
}

#[test]
fn created_slot_is_no_longer_vacant() {
    let mut ctx = CreateCampaign {
        campaign: CampaignSlot::vacant(address(9), RESERVE),
        user: address(1),
        bump: 255,
        now: 0,
    };
    createCampaign(&mut ctx, String::from("n"), String::from("d"), 1, String::from("c1")).unwrap();
    assert!(!ctx.campaign.is_vacant());
}

#[test]
fn vacant_slot_yields_no_account() {
    assert_eq!(CampaignSlot::vacant(address(9), RESERVE).into_account(), None);
}

fn rejected_creation(name: &str, description: &str, id: &str) {
    let mut ctx = CreateCampaign {
        campaign: CampaignSlot::vacant(address(9), RESERVE),
        user: address(1),
        bump: 254,
        now: 7,
    };
    let before = ctx.clone();
    let outcome = createCampaign(
        &mut ctx,
        String::from(name),
        String::from(description),
        1000,
        String::from(id),
    );
    assert_eq!(outcome, Err(ErrorCode::InvalidCampaignParameters));
    assert_eq!(ctx, before);
    assert!(ctx.campaign.is_vacant());
}

#[test]
fn creation_rejects_empty_name() {
    rejected_creation("", "d", "c1");
}

#[test]
fn creation_rejects_empty_description() {
    rejected_creation("n", "", "c1");
}

#[test]
fn creation_rejects_empty_id() {
    rejected_creation("n", "d", "");
}

#[test]
fn creation_rejects_texts_over_their_bounds() {
    rejected_creation(&"n".repeat(51), "d", "c1");
    rejected_creation("n", &"d".repeat(201), "c1");
    rejected_creation("n", "d", &"c".repeat(33));
}

#[test]
fn creation_accepts_texts_at_their_bounds() {
    let mut ctx = CreateCampaign {
        campaign: CampaignSlot::vacant(address(9), RESERVE),
        user: address(1),
        bump: 254,
        now: 7,
    };
    let outcome = createCampaign(
        &mut ctx,
        "n".repeat(50),
        "d".repeat(200),
        0,
        "c".repeat(32),
    );
    assert!(outcome.is_ok());
    let record = ctx.campaign.data.unwrap();
    assert_eq!(record.name.len(), 50);
    assert_eq!(record.description.len(), 200);
    assert_eq!(record.campaignId.len(), 32);
    assert_eq!(record.targetAmount, 0);
}

#[test]
fn bounds_count_characters() {
    let mut ctx = CreateCampaign {
        campaign: CampaignSlot::vacant(address(9), RESERVE),
        user: address(1),
        bump: 254,
        now: 7,
    };
    let name = "\u{e9}".repeat(50);
    assert_eq!(name.len(), 100);
    let outcome = createCampaign(&mut ctx, name, String::from("d"), 5, String::from("c1"));
    assert!(outcome.is_ok());
    rejected_creation(&"\u{e9}".repeat(51), "d", "c1");
}

#[test]
fn record_constants() {
    assert_eq!(Campaign::NAME_MAX_LEN, 50);
    assert_eq!(Campaign::DESCRIPTION_MAX_LEN, 200);
    assert_eq!(Campaign::ID_MAX_LEN, 32);
    assert_eq!(Campaign::INIT_SPACE, 360);
}

#[test]
fn remaining_never_drops_below_zero() {
    let mut account = open(1000, "c1");
    assert_eq!(account.data.remaining(), 1000);
    account.data.amountDonated = 400;
    assert_eq!(account.data.remaining(), 600);
    account.data.amountDonated = 1000;
    assert_eq!(account.data.remaining(), 0);
    account.data.amountDonated = 1500;
    assert_eq!(account.data.remaining(), 0);
}

#[test]
fn donation_is_recorded_and_held() {
    let account = open(1000, "c1");
    let mut ctx = Donate { campaign: account, user: address(2) };
    let (transfer, event) = donate(&mut ctx, String::from("c1"), 400).unwrap();
    assert_eq!(transfer, Transfer { from: address(2), to: address(9), amount: 400 });
    assert_eq!(event.campaign, address(9));
    assert_eq!(event.donor, address(2));
    assert_eq!(event.amount, 400);
    assert_eq!(event.campaignId, "c1");
    assert_eq!(ctx.campaign.data.amountDonated, 400);
    assert_eq!(ctx.campaign.lamports, RESERVE + 400);
    assert_eq!(ctx.campaign.data.targetAmount, 1000);
    assert_eq!(ctx.campaign.data.owner, address(1));
    assert!(!ctx.campaign.data.withdrawn);
    assert_eq!(ctx.user, address(2));
}

#[test]
fn donations_accumulate_to_their_sum() {
    let mut account = open(1000, "c1");
    let amounts = [100u64, 0, 250, 1, 649];
    for (i, amount) in amounts.iter().enumerate() {
        let (next, outcome) = give(account, address(10 + i as u8), *amount);
        assert_eq!(outcome.unwrap().amount, *amount);
        account = next;
    }
    assert_eq!(account.data.amountDonated, 1000);
    assert_eq!(account.lamports, RESERVE + 1000);
}

#[test]
fn donation_over_what_is_lacking_changes_nothing() {
    let (account, _) = give(open(1000, "c1"), address(2), 400);
    let before = account.clone();
    let (account, outcome) = give(account, address(3), 601);
    assert_eq!(outcome, Err(ErrorCode::DonationExceedsTarget));
    assert_eq!(account, before);
    let (account, outcome) = give(account, address(3), 600);
    assert!(outcome.is_ok());
    assert_eq!(account.data.amountDonated, 1000);
    let (_, outcome) = give(account, address(3), 1);
    assert_eq!(outcome, Err(ErrorCode::DonationExceedsTarget));
}

#[test]
fn empty_donation_is_accepted() {
    let (account, _) = give(open(1000, "c1"), address(2), 1000);
    let before = account.clone();
    let mut ctx = Donate { campaign: account, user: address(3) };
    let (transfer, event) = donate(&mut ctx, String::from("c1"), 0).unwrap();
    assert_eq!(transfer.amount, 0);
    assert_eq!(event.amount, 0);
    assert_eq!(ctx.campaign, before);
}

#[test]
fn owner_may_donate() {
    let (account, outcome) = give(open(1000, "c1"), address(1), 10);
    assert_eq!(outcome, Ok(Transfer { from: address(1), to: address(9), amount: 10 }));
    assert_eq!(account.data.amountDonated, 10);
}

#[test]
fn donation_that_a_counter_cannot_take() {
    let mut account = open(u64::MAX, "c1");
    account.lamports = u64::MAX - 5;
    let before = account.clone();
    let (account, outcome) = give(account, address(2), 6);
    assert_eq!(outcome, Err(ErrorCode::ArithmeticOverflow));
    assert_eq!(account, before);
    let (account, outcome) = give(account, address(2), 5);
    assert!(outcome.is_ok());
    assert_eq!(account.lamports, u64::MAX);
    assert_eq!(account.data.amountDonated, 5);
}

#[test]
fn withdrawal_by_stranger_changes_nothing() {
    let (account, _) = give(open(1000, "c1"), address(2), 400);
    let before = account.clone();
    let (account, outcome) = take(account, address(2), RESERVE);
    assert_eq!(outcome, Err(ErrorCode::Unauthorized));
    assert_eq!(account, before);
}

#[test]
fn stranger_is_refused_before_funds_are_looked_at() {
    let (account, outcome) = take(open(1000, "c1"), address(2), RESERVE);
    assert_eq!(outcome, Err(ErrorCode::Unauthorized));
    assert!(!account.data.withdrawn);
}

#[test]
fn withdrawal_hands_out_what_is_above_the_reserve() {
    let (account, _) = give(open(1000, "c1"), address(2), 400);
    let mut ctx = Withdraw { campaign: account, owner: address(1), reserve: RESERVE };
    let (transfer, event) = withdraw(&mut ctx, String::from("c1")).unwrap();
    assert_eq!(transfer, Transfer { from: address(9), to: address(1), amount: 400 });
    assert_eq!(event.campaign, address(9));
    assert_eq!(event.owner, address(1));
    assert_eq!(event.balance, RESERVE + 400);
    assert_eq!(event.campaignId, "c1");
    assert_eq!(ctx.campaign.lamports, RESERVE);
    assert_eq!(ctx.campaign.data.amountDonated, 0);
    assert!(ctx.campaign.data.withdrawn);
    assert_eq!(ctx.campaign.data.targetAmount, 1000);
    assert_eq!(ctx.reserve, RESERVE);
    assert_eq!(ctx.owner, address(1));
}

#[test]
fn withdrawal_of_more_than_was_donated() {
    let (mut account, _) = give(open(1000, "c1"), address(2), 400);
    account.lamports += 50;
    let (account, outcome) = take(account, address(1), RESERVE);
    assert_eq!(outcome.unwrap().amount, 450);
    assert_eq!(account.data.amountDonated, 0);
    assert_eq!(account.lamports, RESERVE);
}

#[test]
fn withdrawal_of_less_than_was_donated() {
    let (account, _) = give(open(1000, "c1"), address(2), 400);
    let (account, outcome) = take(account, address(1), RESERVE + 100);
    assert_eq!(outcome.unwrap().amount, 300);
    assert_eq!(account.data.amountDonated, 100);
    assert_eq!(account.lamports, RESERVE + 100);
    assert!(account.data.withdrawn);
}

#[test]
fn second_withdrawal_finds_nothing() {
    let (account, _) = give(open(1000, "c1"), address(2), 400);
    let (account, outcome) = take(account, address(1), RESERVE);
    assert!(outcome.is_ok());
    let before = account.clone();
    let (account, outcome) = take(account, address(1), RESERVE);
    assert_eq!(outcome, Err(ErrorCode::InsufficientFunds));
    assert_eq!(account, before);
    assert!(account.data.withdrawn);
}

#[test]
fn withdrawal_from_fresh_campaign_finds_nothing() {
    let (account, outcome) = take(open(1000, "c1"), address(1), RESERVE);
    assert_eq!(outcome, Err(ErrorCode::InsufficientFunds));
    assert!(!account.data.withdrawn);
}

#[test]
fn balance_under_the_reserve_yields_nothing() {
    let (account, outcome) = take(open(1000, "c1"), address(1), RESERVE + 1);
    assert_eq!(outcome, Err(ErrorCode::InsufficientFunds));
    assert_eq!(account.lamports, RESERVE);
}

#[test]
fn round_trip() {
    let account = open(1000, "c1");
    assert_eq!(account.data.amountDonated, 0);

    let (account, outcome) = give(account, address(2), 400);
    assert!(outcome.is_ok());
    assert_eq!(account.data.amountDonated, 400);

    let (account, outcome) = give(account, address(3), 700);
    assert_eq!(outcome, Err(ErrorCode::DonationExceedsTarget));
    assert_eq!(account.data.remaining(), 600);
    assert_eq!(account.data.amountDonated, 400);

    let (account, outcome) = give(account, address(3), 600);
    assert!(outcome.is_ok());
    assert_eq!(account.data.amountDonated, 1000);
    assert_eq!(account.lamports, RESERVE + 1000);

    let (account, outcome) = take(account, address(1), RESERVE);
    assert_eq!(outcome.unwrap().amount, 1000);
    assert_eq!(account.data.amountDonated, 0);
    assert!(account.data.withdrawn);
    assert_eq!(account.lamports, RESERVE);

    let (account, outcome) = give(account, address(2), 100);
    assert!(outcome.is_ok());
    assert_eq!(account.data.amountDonated, 100);
    assert_eq!(account.lamports, RESERVE + 100);
    assert!(account.data.withdrawn);

    let (account, outcome) = take(account, address(1), RESERVE);
    assert_eq!(outcome.unwrap().amount, 100);
    assert_eq!(account.data.amountDonated, 0);
    assert!(account.data.withdrawn);
}

#[test]
fn state_does_not_depend_on_the_notices() {
    let noticed = {
        let mut ctx = Donate { campaign: open(1000, "c1"), user: address(2) };
        let (_, event) = donate(&mut ctx, String::from("c1"), 400).unwrap();
        assert_eq!(event.amount, 400);
        ctx.campaign
    };
    let ignored = {
        let mut ctx = Donate { campaign: open(1000, "c1"), user: address(2) };
        let _ = donate(&mut ctx, String::from("c1"), 400);
        ctx.campaign
    };
    assert_eq!(noticed, ignored);
}

#[test]
fn addresses_compare_by_their_bytes() {
    let mut bytes = [7u8; 32];
    assert_eq!(Address::new(bytes), address(7));
    assert!(Address::new(bytes).same(&address(7)));
    assert_eq!(Address::new(bytes).to_bytes(), bytes);
    bytes[31] = 8;
    assert_ne!(Address::new(bytes), address(7));
    assert!(!Address::new(bytes).same(&address(7)));
}
