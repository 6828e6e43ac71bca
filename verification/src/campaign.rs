//! The campaign record and the plain values that surround it.

use crate::address::Address;
use crate::authority::authority_of;
use vstd::prelude::*;

verus! {

/// Where a campaign stands in its lifecycle.
#[derive(Clone, Copy, Debug, PartialEq, Eq, Structural)]
pub enum CampaignStatus {
    Active,
    Completed,
    Upcoming,
}

/// Why an operation on a campaign was refused.
#[derive(Clone, Copy, Debug, PartialEq, Eq, Structural)]
pub enum CampaignError {
    /// The distribution would take the campaign past its declared cap.
    NotEnoughTokensRemaining,
    /// The caller is not the principal that the operation is reserved for.
    Unauthorized,
    /// A record already exists at the campaign's derived address.
    DuplicateCampaign,
    /// The record would not fit in the space that the store grants.
    RecordTooLarge,
    /// No address can be derived from the seed string.
    InvalidSeed,
    /// An account presented is not the one that the campaign's derived
    /// authority designates.
    AuthorityMismatch,
    /// A token-holding account holds another token type than the campaign
    /// distributes.
    MintMismatch,
}

impl CampaignError {
    /// The text that describes the error.
    pub open spec fn message_text(self) -> Seq<char> {
        match self {
            CampaignError::NotEnoughTokensRemaining => "Not enough tokens remaining in the campaign"@,
            CampaignError::Unauthorized => "Unauthorized operation"@,
            CampaignError::DuplicateCampaign => "A campaign already exists for this organizer and seed"@,
            CampaignError::RecordTooLarge => "The campaign record exceeds the space available"@,
            CampaignError::InvalidSeed => "No address can be derived from the campaign seed"@,
            CampaignError::AuthorityMismatch => "Account does not match the campaign's derived authority"@,
            CampaignError::MintMismatch => "Token account holds a different token type"@,
        }
    }

    /// A description of the error for people to read.
    pub fn message(&self) -> (text: &'static str)
        ensures
            text@ == self.message_text(),
    {
        match self {
            CampaignError::NotEnoughTokensRemaining => "Not enough tokens remaining in the campaign",
            CampaignError::Unauthorized => "Unauthorized operation",
            CampaignError::DuplicateCampaign => "A campaign already exists for this organizer and seed",
            CampaignError::RecordTooLarge => "The campaign record exceeds the space available",
            CampaignError::InvalidSeed => "No address can be derived from the campaign seed",
            CampaignError::AuthorityMismatch => "Account does not match the campaign's derived authority",
            CampaignError::MintMismatch => "Token account holds a different token type",
        }
    }
}

/// What the ledger knows of a token-holding account.
#[derive(Clone, Copy, Debug, PartialEq, Eq)]
pub struct TokenAccount {
    /// Where the account is stored.
    pub address: Address,
    /// The token type it holds.
    pub mint: Address,
    /// The principal that may move its tokens.
    pub owner: Address,
}

/// One campaign: its metadata, its budget counters and its status.
#[derive(Clone, Debug, PartialEq, Eq)]
pub struct CampaignAccount {
    pub title: String,
    pub description: String,
    pub organizer: Address,
    pub image_url: String,
    pub token_symbol: String,
    pub total_tokens: u64,
    pub distributed_tokens: u64,
    pub created_at: i64,
    pub end_date: i64,
    pub status: CampaignStatus,
    pub benefits: Vec<String>,
    pub mint_address: Address,
    pub authority_bump: u8,
    pub seed: String,
}

impl CampaignAccount {
    /// The budget invariant: the campaign has not handed out more than its
    /// declared cap.
    pub open spec fn within_budget(self) -> bool {
        self.distributed_tokens <= self.total_tokens
    }

    /// Whether `amount` more tokens still fit under the cap.
    pub open spec fn can_distribute(self, amount: u64) -> bool {
        self.distributed_tokens + amount <= self.total_tokens
    }

    /// The record with `amount` more tokens counted as distributed and
    /// nothing else changed.
    pub open spec fn credited(self, amount: u64) -> CampaignAccount {
        CampaignAccount { distributed_tokens: (self.distributed_tokens + amount) as u64, ..self }
    }

    /// The record with `amount` fewer tokens counted as distributed and
    /// nothing else changed.
    pub open spec fn debited(self, amount: u64) -> CampaignAccount {
        CampaignAccount { distributed_tokens: (self.distributed_tokens - amount) as u64, ..self }
    }

    /// The record with its status replaced and nothing else changed.
    pub open spec fn with_status(self, status: CampaignStatus) -> CampaignAccount {
        CampaignAccount { status, ..self }
    }

    /// The authority that the record's organizer, seed and bump derive, if
    /// they derive one.
    pub open spec fn authority(self) -> Option<Seq<u8>> {
        authority_of(self.organizer@, self.seed@, self.authority_bump)
    }
}

} // verus!
