//! Campaign creation: sizing the record, binding it to its derived address
//! and initializing it.

use crate::address::{lemma_address_extensional, Address};
use crate::authority::{campaign_address, derive_campaign_address};
use crate::campaign::{CampaignAccount, CampaignError, CampaignStatus};
use vstd::prelude::*;
use vstd::utf8::encode_utf8;

verus! {

/// Bytes that every record takes, whatever its texts hold: the record tag,
/// two addresses, four 64-bit numbers, the status, the bump, and a length
/// prefix for each of the five texts and for the list of benefits.
pub const FIXED_SPACE: usize = 130;

/// What the store says of the place where a record is to go.
#[derive(Clone, Copy, Debug, PartialEq, Eq)]
pub struct RecordSlot {
    /// The address of the place.
    pub address: Address,
    /// Whether a record already exists there.
    pub occupied: bool,
    /// The most bytes the store grants one record.
    pub capacity: usize,
}

/// The accounts and store facts that one creation works on.
#[derive(Clone, Copy, Debug, PartialEq, Eq)]
pub struct CreateCampaign {
    /// Where the campaign's record is to be stored.
    pub campaign: RecordSlot,
    /// The token type that the campaign distributes.
    pub token_mint: Address,
    /// The caller, who becomes the campaign's organizer.
    pub organizer: Address,
    /// The current time, in seconds since the epoch.
    pub unix_timestamp: i64,
}

/// The texts that a list of strings holds.
pub open spec fn texts(strings: Seq<String>) -> Seq<Seq<char>> {
    Seq::new(strings.len(), |i: int| strings[i]@)
}

/// Bytes that one stored text takes: a four-byte length, then its UTF-8
/// bytes.
pub open spec fn text_space(text: Seq<char>) -> nat {
    4 + encode_utf8(text).len()
}

/// Bytes that the stored benefits take, without the list's own length
/// prefix.
pub open spec fn benefits_space(benefits: Seq<Seq<char>>) -> nat
    decreases benefits.len(),
{
    if benefits.len() == 0 {
        0
    } else {
        benefits_space(benefits.drop_last()) + text_space(benefits.last())
    }
}

/// Bytes that a campaign's record takes in the store.
pub open spec fn record_space_of(
    title: Seq<char>,
    description: Seq<char>,
    image_url: Seq<char>,
    token_symbol: Seq<char>,
    benefits: Seq<Seq<char>>,
    seed: Seq<char>,
) -> nat {
    FIXED_SPACE as nat + encode_utf8(title).len() + encode_utf8(description).len() + encode_utf8(
        image_url,
    ).len() + encode_utf8(token_symbol).len() + encode_utf8(seed).len() + benefits_space(benefits)
}

/// The verdict on a creation, given the address and bump that the
/// organizer and the seed derive (`None` where they derive none) and the
/// space that the record takes. On success it is the bump to record.
///
/// The checks run in this order: an address can be derived; the slot is at
/// that address; no record exists there; the record fits.
pub open spec fn creation_verdict(
    ctx: CreateCampaign,
    derived: Option<(Seq<u8>, u8)>,
    space: nat,
) -> Result<u8, CampaignError> {
    match derived {
        None => Err(CampaignError::InvalidSeed),
        Some((address, bump)) => {
            if ctx.campaign.address@ != address {
                Err(CampaignError::AuthorityMismatch)
            } else if ctx.campaign.occupied {
                Err(CampaignError::DuplicateCampaign)
            } else if space > ctx.campaign.capacity {
                Err(CampaignError::RecordTooLarge)
            } else {
                Ok(bump)
            }
        },
    }
}

/// The bytes of a derived address with its bump.
pub open spec fn derived_bytes(derived: Option<(Address, u8)>) -> Option<(Seq<u8>, u8)> {
    match derived {
        Some((address, bump)) => Some((address@, bump)),
        None => None,
    }
}

/// A prefix of the benefits takes no more space than all of them.
pub proof fn lemma_benefits_space_prefix(benefits: Seq<Seq<char>>, count: int)
    requires
        0 <= count <= benefits.len(),
    ensures
        benefits_space(benefits.take(count)) <= benefits_space(benefits),
    decreases benefits.len() - count,
{
    if count < benefits.len() {
        lemma_benefits_space_prefix(benefits, count + 1);
        assert(benefits.take(count + 1).drop_last() =~= benefits.take(count));
    } else {
        assert(benefits.take(count) =~= benefits);
    }
}

/// Computes the bytes that a campaign's record takes in the store.
///
/// Returns `None` where the size does not fit in a `usize`.
pub fn record_space(
    title: &str,
    description: &str,
    image_url: &str,
    token_symbol: &str,
    benefits: &Vec<String>,
    seed: &str,
) -> (space: Option<usize>)
    ensures
        match space {
            Some(bytes) => bytes == record_space_of(
                title@,
                description@,
                image_url@,
                token_symbol@,
                texts(benefits@),
                seed@,
            ),
            None => record_space_of(
                title@,
                description@,
                image_url@,
                token_symbol@,
                texts(benefits@),
                seed@,
            ) > usize::MAX,
        },
{
    let ghost all = texts(benefits@);
    let ghost total = record_space_of(title@, description@, image_url@, token_symbol@, all, seed@);
    proof {
        lemma_benefits_space_prefix(all, 0);
        assert(all.take(0) =~= Seq::<Seq<char>>::empty());
    }
    let mut space: usize = FIXED_SPACE;
    space = match space.checked_add(title.as_bytes().len()) {
        Some(sum) => sum,
        None => {
            return None;
        },
    };
    space = match space.checked_add(description.as_bytes().len()) {
        Some(sum) => sum,
        None => {
            return None;
        },
    };
    space = match space.checked_add(image_url.as_bytes().len()) {
        Some(sum) => sum,
        None => {
            return None;
        },
    };
    space = match space.checked_add(token_symbol.as_bytes().len()) {
        Some(sum) => sum,
        None => {
            return None;
        },
    };
    space = match space.checked_add(seed.as_bytes().len()) {
        Some(sum) => sum,
        None => {
            return None;
        },
    };
    let ghost texts_space = space as nat;
    let mut i: usize = 0;
    while i < benefits.len()
        invariant
            i <= benefits@.len(),
            all == texts(benefits@),
            total == record_space_of(
                title@,
                description@,
                image_url@,
                token_symbol@,
                texts(benefits@),
                seed@,
            ),
            texts_space + benefits_space(all) == total,
            space == texts_space + benefits_space(all.take(i as int)),
        decreases benefits@.len() - i,
    {
        proof {
            lemma_benefits_space_prefix(all, i + 1);
            assert(all.take(i + 1).drop_last() =~= all.take(i as int));
            assert(all.take(i + 1).last() == benefits@[i as int]@);
        }
        let prefixed: usize = match benefits[i].as_str().as_bytes().len().checked_add(4) {
            Some(sum) => sum,
            None => {
                return None;
            },
        };
        space = match space.checked_add(prefixed) {
            Some(sum) => sum,
            None => {
                return None;
            },
        };
        i += 1;
    }
    proof {
        assert(all.take(i as int) =~= all);
    }
    Some(space)
}

/// Creates a campaign, given the address and bump that the organizer and
/// the seed derive (`None` where they derive none).
///
/// On success the record holds the texts and numbers as given, the caller
/// as organizer, nothing distributed, the status `Active`, the current time
/// as its creation time, and the derived bump.
pub fn create_campaign_at(
    ctx: &CreateCampaign,
    derived: Option<(Address, u8)>,
    title: String,
    description: String,
    image_url: String,
    token_symbol: String,
    total_tokens: u64,
    end_date_timestamp: i64,
    benefits: Vec<String>,
    campaign_seed: String,
) -> (result: Result<CampaignAccount, CampaignError>)
    ensures
        match result {
            Ok(record) => {
                &&& creation_verdict(
                    *ctx,
                    derived_bytes(derived),
                    record_space_of(
                        title@,
                        description@,
                        image_url@,
                        token_symbol@,
                        texts(benefits@),
                        campaign_seed@,
                    ),
                ) == Ok::<u8, CampaignError>(record.authority_bump)
                &&& record == (CampaignAccount {
                    title,
                    description,
                    organizer: ctx.organizer,
                    image_url,
                    token_symbol,
                    total_tokens,
                    distributed_tokens: 0,
                    created_at: ctx.unix_timestamp,
                    end_date: end_date_timestamp,
                    status: CampaignStatus::Active,
                    benefits,
                    mint_address: ctx.token_mint,
                    authority_bump: record.authority_bump,
                    seed: campaign_seed,
                })
                &&& record.within_budget()
            },
            Err(error) => creation_verdict(
                *ctx,
                derived_bytes(derived),
                record_space_of(
                    title@,
                    description@,
                    image_url@,
                    token_symbol@,
                    texts(benefits@),
                    campaign_seed@,
                ),
            ) == Err::<u8, CampaignError>(error),
        },
{
    let (address, bump) = match derived {
        Some(pair) => pair,
        None => {
            return Err(CampaignError::InvalidSeed);
        },
    };
    if !ctx.campaign.address.same(&address) {
        return Err(CampaignError::AuthorityMismatch);
    }
    if ctx.campaign.occupied {
        return Err(CampaignError::DuplicateCampaign);
    }
    let space = record_space(
        title.as_str(),
        description.as_str(),
        image_url.as_str(),
        token_symbol.as_str(),
        &benefits,
        campaign_seed.as_str(),
    );
    match space {
        Some(bytes) => {
            if bytes > ctx.campaign.capacity {
                return Err(CampaignError::RecordTooLarge);
            }
        },
        None => {
            return Err(CampaignError::RecordTooLarge);
        },
    }
    Ok(
        CampaignAccount {
            title,
            description,
            organizer: ctx.organizer,
            image_url,
            token_symbol,
            total_tokens,
            distributed_tokens: 0,
            created_at: ctx.unix_timestamp,
            end_date: end_date_timestamp,
            status: CampaignStatus::Active,
            benefits,
            mint_address: ctx.token_mint,
            authority_bump: bump,
            seed: campaign_seed,
        },
    )
}

/// Creates a campaign for the caller under the seed `campaign_seed`.
///
/// Derives the campaign's address and bump from the organizer and the
/// seed, then decides as `create_campaign_at` does. The record of a campaign
/// so created re-derives the address it is stored at as its authority.
pub fn create_campaign(
    ctx: &CreateCampaign,
    title: String,
    description: String,
    image_url: String,
    token_symbol: String,
    total_tokens: u64,
    end_date_timestamp: i64,
    benefits: Vec<String>,
    campaign_seed: String,
) -> (result: Result<CampaignAccount, CampaignError>)
    ensures
        match result {
            Ok(record) => {
                &&& creation_verdict(
                    *ctx,
                    campaign_address(ctx.organizer@, campaign_seed@),
                    record_space_of(
                        title@,
                        description@,
                        image_url@,
                        token_symbol@,
                        texts(benefits@),
                        campaign_seed@,
                    ),
                ) == Ok::<u8, CampaignError>(record.authority_bump)
                &&& record == (CampaignAccount {
                    title,
                    description,
                    organizer: ctx.organizer,
                    image_url,
                    token_symbol,
                    total_tokens,
                    distributed_tokens: 0,
                    created_at: ctx.unix_timestamp,
                    end_date: end_date_timestamp,
                    status: CampaignStatus::Active,
                    benefits,
                    mint_address: ctx.token_mint,
                    authority_bump: record.authority_bump,
                    seed: campaign_seed,
                })
                &&& record.within_budget()
                &&& record.authority() == Some(ctx.campaign.address@)
            },
            Err(error) => creation_verdict(
                *ctx,
                campaign_address(ctx.organizer@, campaign_seed@),
                record_space_of(
                    title@,
                    description@,
                    image_url@,
                    token_symbol@,
                    texts(benefits@),
                    campaign_seed@,
                ),
            ) == Err::<u8, CampaignError>(error),
        },
        ctx.campaign.occupied ==> result is Err,
{
    let derived = derive_campaign_address(&ctx.organizer, campaign_seed.as_str());
    create_campaign_at(
        ctx,
        derived,
        title,
        description,
        image_url,
        token_symbol,
        total_tokens,
        end_date_timestamp,
        benefits,
        campaign_seed,
    )
}

/// An organizer and a seed name one campaign: once a creation has
/// succeeded, every further creation by the same organizer under the same
/// seed fails. Aimed at the address where the first record now lives, which
/// the store reports as occupied, it fails with `DuplicateCampaign`; aimed
/// anywhere else, it fails because that is not the campaign's address.
pub proof fn lemma_second_creation_is_duplicate(
    organizer: Address,
    seed: Seq<char>,
    first: CreateCampaign,
    first_space: nat,
    second: CreateCampaign,
    second_space: nat,
)
    requires
        first.organizer == organizer,
        second.organizer == organizer,
        creation_verdict(first, campaign_address(organizer@, seed), first_space) is Ok,
        second.campaign.address == first.campaign.address ==> second.campaign.occupied,
    ensures
        second.campaign.address == first.campaign.address ==> creation_verdict(
            second,
            campaign_address(organizer@, seed),
            second_space,
        ) == Err::<u8, CampaignError>(CampaignError::DuplicateCampaign),
        second.campaign.address != first.campaign.address ==> creation_verdict(
            second,
            campaign_address(organizer@, seed),
            second_space,
        ) == Err::<u8, CampaignError>(CampaignError::AuthorityMismatch),
{
    if second.campaign.address@ == first.campaign.address@ {
        lemma_address_extensional(second.campaign.address, first.campaign.address);
    }
}

} // verus!
