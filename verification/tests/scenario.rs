use cpop_program::address::Address;
use cpop_program::authority::derive_campaign_address;
use cpop_program::campaign::{CampaignError, CampaignStatus, TokenAccount};
use cpop_program::creation::{create_campaign, CreateCampaign, RecordSlot};
use cpop_program::distribution::{distribute_tokens, DistributeTokens};
use cpop_program::lifecycle::{update_campaign_status, UpdateCampaignStatus};

#[test]
fn campaign_is_metered_out_to_its_cap() {
    let organizer = Address::new([1u8; 32]);
    let mint = Address::new([2u8; 32]);
    let recipient = Address::new([3u8; 32]);
    let (address, _) = derive_campaign_address(&organizer, "s1").unwrap();

    let create = CreateCampaign {
        campaign: RecordSlot { address, occupied: false, capacity: 10240 },
        token_mint: mint,
        organizer,
        unix_timestamp: 1_700_000_000,
    };
    let campaign = create_campaign(
        &create,
        String::from("Launch"),
        String::from("First drop"),
        String::from("https://example.org/a.png"),
        String::from("LCH"),
        1000,
        1_800_000_000,
        vec![String::from("badge")],
        String::from("s1"),
    )
    .unwrap();
    assert_eq!(campaign.distributed_tokens, 0);
    assert_eq!(campaign.status, CampaignStatus::Active);

    let mut ctx = DistributeTokens {
        campaign,
        campaign_token_account: TokenAccount {
            address: Address::new([4u8; 32]),
            mint,
            owner: address,
        },
        recipient,
        recipient_token_account: TokenAccount {
            address: Address::new([5u8; 32]),
            mint,
            owner: recipient,
        },
    };

    assert_eq!(distribute_tokens(&mut ctx, 300).unwrap().amount, 300);
    assert_eq!(ctx.campaign.distributed_tokens, 300);

    assert_eq!(
        distribute_tokens(&mut ctx, 800),
        Err(CampaignError::NotEnoughTokensRemaining)
    );
    assert_eq!(ctx.campaign.distributed_tokens, 300);

    assert_eq!(distribute_tokens(&mut ctx, 700).unwrap().amount, 700);
    assert_eq!(ctx.campaign.distributed_tokens, 1000);

    assert_eq!(
        distribute_tokens(&mut ctx, 1),
        Err(CampaignError::NotEnoughTokensRemaining)
    );
    assert_eq!(ctx.campaign.distributed_tokens, 1000);
}

#[test]
fn status_update_leaves_the_budget_alone() {
    let organizer = Address::new([1u8; 32]);
    let mint = Address::new([2u8; 32]);
    let recipient = Address::new([3u8; 32]);
    let (address, _) = derive_campaign_address(&organizer, "s1").unwrap();
    let create = CreateCampaign {
        campaign: RecordSlot { address, occupied: false, capacity: 10240 },
        token_mint: mint,
        organizer,
        unix_timestamp: 0,
    };
    let campaign = create_campaign(
        &create,
        String::from("Launch"),
        String::new(),
        String::new(),
        String::from("LCH"),
        50,
        0,
        Vec::new(),
        String::from("s1"),
    )
    .unwrap();
    let mut distribute = DistributeTokens {
        campaign,
        campaign_token_account: TokenAccount {
            address: Address::new([4u8; 32]),
            mint,
            owner: address,
        },
        recipient,
        recipient_token_account: TokenAccount {
            address: Address::new([5u8; 32]),
            mint,
            owner: recipient,
        },
    };
    distribute_tokens(&mut distribute, 20).unwrap();

    let mut update = UpdateCampaignStatus { campaign: distribute.campaign, organizer };
    assert_eq!(update_campaign_status(&mut update, CampaignStatus::Completed), Ok(()));
    assert_eq!(update.campaign.status, CampaignStatus::Completed);
    assert_eq!(update.campaign.distributed_tokens, 20);
    assert_eq!(update.campaign.total_tokens, 50);

    // Completed is not terminal: the organizer may reopen the campaign.
    assert_eq!(update_campaign_status(&mut update, CampaignStatus::Active), Ok(()));
    assert_eq!(update.campaign.status, CampaignStatus::Active);
}
