use cpop_program::address::Address;
use cpop_program::campaign::{CampaignAccount, CampaignError, CampaignStatus};
use cpop_program::lifecycle::{update_campaign_status, UpdateCampaignStatus};

fn organizer() -> Address {
    Address::new([11u8; 32])
}

fn stranger() -> Address {
    Address::new([12u8; 32])
}

fn campaign(status: CampaignStatus) -> CampaignAccount {
    CampaignAccount {
        title: String::from("Launch"),
        description: String::from("First drop"),
        organizer: organizer(),
        image_url: String::new(),
        token_symbol: String::from("LCH"),
        total_tokens: 100,
        distributed_tokens: 40,
        created_at: 1_700_000_000,
        end_date: 1_800_000_000,
        status,
        benefits: vec![String::from("badge")],
        mint_address: Address::new([22u8; 32]),
        authority_bump: 254,
        seed: String::from("s1"),
    }
}

#[test]
fn organizer_sets_the_status() {
    let mut ctx = UpdateCampaignStatus {
        campaign: campaign(CampaignStatus::Active),
        organizer: organizer(),
    };
    assert_eq!(update_campaign_status(&mut ctx, CampaignStatus::Completed), Ok(()));
    assert_eq!(ctx.campaign.status, CampaignStatus::Completed);
}

#[test]
fn status_update_changes_the_status_alone() {
    let mut ctx = UpdateCampaignStatus {
        campaign: campaign(CampaignStatus::Active),
        organizer: organizer(),
    };
    update_campaign_status(&mut ctx, CampaignStatus::Upcoming).unwrap();
    assert_eq!(ctx.campaign, campaign(CampaignStatus::Upcoming));
    assert_eq!(ctx.organizer, organizer());
}

#[test]
fn stranger_is_unauthorized_and_status_stays() {
    let mut ctx = UpdateCampaignStatus {
        campaign: campaign(CampaignStatus::Active),
        organizer: stranger(),
    };
    let before = ctx.clone();
    assert_eq!(
        update_campaign_status(&mut ctx, CampaignStatus::Completed),
        Err(CampaignError::Unauthorized)
    );
    assert_eq!(ctx.campaign.status, CampaignStatus::Active);
    assert_eq!(ctx, before);
}

#[test]
fn every_status_may_follow_every_other() {
    let all = [
        CampaignStatus::Active,
        CampaignStatus::Completed,
        CampaignStatus::Upcoming,
    ];
    for from in all {
        for to in all {
            let mut ctx = UpdateCampaignStatus {
                campaign: campaign(from),
                organizer: organizer(),
            };
            assert_eq!(update_campaign_status(&mut ctx, to), Ok(()));
            assert_eq!(ctx.campaign.status, to);
        }
    }
}

#[test]
fn error_messages_describe_the_error() {
    assert_eq!(
        CampaignError::NotEnoughTokensRemaining.message(),
        "Not enough tokens remaining in the campaign"
    );
    assert_eq!(CampaignError::Unauthorized.message(), "Unauthorized operation");
    let all = [
        CampaignError::NotEnoughTokensRemaining,
        CampaignError::Unauthorized,
        CampaignError::DuplicateCampaign,
        CampaignError::RecordTooLarge,
        CampaignError::InvalidSeed,
        CampaignError::AuthorityMismatch,
        CampaignError::MintMismatch,
    ];
    for (i, a) in all.iter().enumerate() {
        assert!(!a.message().is_empty());
        for b in all.iter().skip(i + 1) {
            assert_ne!(a.message(), b.message());
        }
    }
}
