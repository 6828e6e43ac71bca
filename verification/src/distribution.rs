//! Distribution: the budget-checked path that meters tokens out of a
//! campaign's escrow under the campaign's derived authority.
//!
//! A distribution counts the amount against the cap and hands back the
//! transfer that the caller is to execute. The transfer itself is the token
//! program's business; should it fail, `revert_distribution` takes the
//! amount off the counter again.

use crate::address::Address;
use crate::authority::{campaign_authority, seed_bytes, signer_seed_list, signer_seeds};
use crate::campaign::{CampaignAccount, CampaignError, TokenAccount};
use vstd::prelude::*;

verus! {

/// The accounts that one distribution works on.
#[derive(Clone, Debug, PartialEq, Eq)]
pub struct DistributeTokens {
    /// The campaign that pays.
    pub campaign: CampaignAccount,
    /// The campaign's escrow: the token-holding account that the campaign's
    /// authority owns.
    pub campaign_token_account: TokenAccount,
    /// The caller, who receives the tokens.
    pub recipient: Address,
    /// The token-holding account that the tokens go to.
    pub recipient_token_account: TokenAccount,
}

/// A transfer out of a campaign's escrow, authorized by the campaign's
/// derived authority.
#[derive(Clone, Debug, PartialEq, Eq)]
pub struct TransferOrder {
    /// The escrow account that pays.
    pub from: Address,
    /// The token-holding account that receives.
    pub to: Address,
    /// The derived authority that owns the escrow.
    pub authority: Address,
    /// How many tokens move.
    pub amount: u64,
    /// The principal that the tokens are distributed to.
    pub recipient: Address,
    /// The seeds that reproduce the authority, in signing order.
    pub signer_seeds: Vec<Vec<u8>>,
}

/// The bytes of an address that may be absent.
pub open spec fn address_bytes(address: Option<Address>) -> Option<Seq<u8>> {
    match address {
        Some(a) => Some(a@),
        None => None,
    }
}

/// The verdict on a distribution of `amount` from `campaign`, given the
/// authority that the campaign's record re-derives.
///
/// The checks run in this order: the escrow is owned by the re-derived
/// authority; escrow and recipient account both hold the campaign's token
/// type; the recipient account belongs to the caller; the amount fits under
/// the cap.
pub open spec fn distribution_verdict(
    campaign: CampaignAccount,
    authority: Option<Seq<u8>>,
    escrow: TokenAccount,
    recipient: Address,
    recipient_account: TokenAccount,
    amount: u64,
) -> Result<(), CampaignError> {
    if authority != Some(escrow.owner@) {
        Err(CampaignError::AuthorityMismatch)
    } else if escrow.mint != campaign.mint_address || recipient_account.mint
        != campaign.mint_address {
        Err(CampaignError::MintMismatch)
    } else if recipient_account.owner != recipient {
        Err(CampaignError::Unauthorized)
    } else if !campaign.can_distribute(amount) {
        Err(CampaignError::NotEnoughTokensRemaining)
    } else {
        Ok(())
    }
}

/// Whether `order` is the transfer that a distribution of `amount` on
/// `accounts` calls for.
pub open spec fn order_matches(order: TransferOrder, accounts: DistributeTokens, amount: u64) -> bool {
    &&& order.from == accounts.campaign_token_account.address
    &&& order.to == accounts.recipient_token_account.address
    &&& order.authority == accounts.campaign_token_account.owner
    &&& order.amount == amount
    &&& order.recipient == accounts.recipient
    &&& seed_bytes(&order.signer_seeds) == signer_seeds(
        accounts.campaign.organizer@,
        accounts.campaign.seed@,
        accounts.campaign.authority_bump,
    )
}

/// One request for a distribution, as far as it bears on the campaign:
/// the accounts presented and the amount asked for.
#[derive(Clone, Copy, Debug, PartialEq, Eq)]
pub struct DistributionRequest {
    pub campaign_token_account: TokenAccount,
    pub recipient: Address,
    pub recipient_token_account: TokenAccount,
    pub amount: u64,
}

/// The request that a call on `accounts` for `amount` makes.
pub open spec fn request_of(accounts: DistributeTokens, amount: u64) -> DistributionRequest {
    DistributionRequest {
        campaign_token_account: accounts.campaign_token_account,
        recipient: accounts.recipient,
        recipient_token_account: accounts.recipient_token_account,
        amount,
    }
}

/// Whether `campaign` accepts `request`: every check of a distribution
/// passes, with the authority that the campaign's own record re-derives.
pub open spec fn accepts(campaign: CampaignAccount, request: DistributionRequest) -> bool {
    distribution_verdict(
        campaign,
        campaign.authority(),
        request.campaign_token_account,
        request.recipient,
        request.recipient_token_account,
        request.amount,
    ) is Ok
}

/// The campaign after one request: credited where the request is accepted,
/// unchanged where it is rejected.
pub open spec fn after_request(campaign: CampaignAccount, request: DistributionRequest) -> CampaignAccount {
    if accepts(campaign, request) {
        campaign.credited(request.amount)
    } else {
        campaign
    }
}

/// The campaign after a sequence of requests, served in order.
pub open spec fn after_requests(campaign: CampaignAccount, requests: Seq<DistributionRequest>) -> CampaignAccount
    decreases requests.len(),
{
    if requests.len() == 0 {
        campaign
    } else {
        after_request(after_requests(campaign, requests.drop_last()), requests.last())
    }
}

/// The sum of the amounts of the requests that the campaign accepts when
/// it serves `requests` in order.
pub open spec fn accepted_total(campaign: CampaignAccount, requests: Seq<DistributionRequest>) -> nat
    decreases requests.len(),
{
    if requests.len() == 0 {
        0
    } else if accepts(after_requests(campaign, requests.drop_last()), requests.last()) {
        accepted_total(campaign, requests.drop_last()) + requests.last().amount as nat
    } else {
        accepted_total(campaign, requests.drop_last())
    }
}

/// Distributes `amount` tokens, given the authority that the campaign's
/// record re-derives (`None` where it derives none).
///
/// On success the amount is counted as distributed and the transfer to
/// execute is returned. On failure nothing changes, and the error is the
/// first check that failed.
pub fn distribute_with_authority(
    ctx: &mut DistributeTokens,
    authority: Option<Address>,
    amount: u64,
) -> (result: Result<TransferOrder, CampaignError>)
    ensures
        match result {
            Ok(order) => {
                &&& distribution_verdict(
                    old(ctx).campaign,
                    address_bytes(authority),
                    old(ctx).campaign_token_account,
                    old(ctx).recipient,
                    old(ctx).recipient_token_account,
                    amount,
                ) is Ok
                &&& *final(ctx) == (DistributeTokens {
                    campaign: old(ctx).campaign.credited(amount),
                    ..*old(ctx)
                })
                &&& final(ctx).campaign.within_budget()
                &&& order_matches(order, *old(ctx), amount)
            },
            Err(error) => {
                &&& distribution_verdict(
                    old(ctx).campaign,
                    address_bytes(authority),
                    old(ctx).campaign_token_account,
                    old(ctx).recipient,
                    old(ctx).recipient_token_account,
                    amount,
                ) == Err::<(), CampaignError>(error)
                &&& *final(ctx) == *old(ctx)
            },
        },
        old(ctx).campaign.within_budget() ==> final(ctx).campaign.within_budget(),
{
    let authority = match authority {
        Some(a) => a,
        None => {
            return Err(CampaignError::AuthorityMismatch);
        },
    };
    if !ctx.campaign_token_account.owner.same(&authority) {
        return Err(CampaignError::AuthorityMismatch);
    }
    if !ctx.campaign_token_account.mint.same(&ctx.campaign.mint_address)
        || !ctx.recipient_token_account.mint.same(&ctx.campaign.mint_address) {
        return Err(CampaignError::MintMismatch);
    }
    if !ctx.recipient_token_account.owner.same(&ctx.recipient) {
        return Err(CampaignError::Unauthorized);
    }
    let counted: u64 = match ctx.campaign.distributed_tokens.checked_add(amount) {
        Some(sum) => sum,
        None => {
            return Err(CampaignError::NotEnoughTokensRemaining);
        },
    };
    if counted > ctx.campaign.total_tokens {
        return Err(CampaignError::NotEnoughTokensRemaining);
    }
    let signer_seeds = signer_seed_list(
        &ctx.campaign.organizer,
        ctx.campaign.seed.as_str(),
        ctx.campaign.authority_bump,
    );
    let order = TransferOrder {
        from: ctx.campaign_token_account.address,
        to: ctx.recipient_token_account.address,
        authority,
        amount,
        recipient: ctx.recipient,
        signer_seeds,
    };
    ctx.campaign.distributed_tokens = counted;
    Ok(order)
}

/// Distributes `amount` tokens from the campaign's escrow to the caller's
/// token-holding account.
///
/// Re-derives the campaign's authority from the record's organizer, seed
/// and bump, then decides as `distribute_with_authority` does.
pub fn distribute_tokens(ctx: &mut DistributeTokens, amount: u64) -> (result: Result<
    TransferOrder,
    CampaignError,
>)
    ensures
        match result {
            Ok(order) => {
                &&& distribution_verdict(
                    old(ctx).campaign,
                    old(ctx).campaign.authority(),
                    old(ctx).campaign_token_account,
                    old(ctx).recipient,
                    old(ctx).recipient_token_account,
                    amount,
                ) is Ok
                &&& *final(ctx) == (DistributeTokens {
                    campaign: old(ctx).campaign.credited(amount),
                    ..*old(ctx)
                })
                &&& final(ctx).campaign.within_budget()
                &&& order_matches(order, *old(ctx), amount)
            },
            Err(error) => {
                &&& distribution_verdict(
                    old(ctx).campaign,
                    old(ctx).campaign.authority(),
                    old(ctx).campaign_token_account,
                    old(ctx).recipient,
                    old(ctx).recipient_token_account,
                    amount,
                ) == Err::<(), CampaignError>(error)
                &&& *final(ctx) == *old(ctx)
            },
        },
        old(ctx).campaign.within_budget() ==> final(ctx).campaign.within_budget(),
        result is Ok <==> accepts(old(ctx).campaign, request_of(*old(ctx), amount)),
        final(ctx).campaign == after_request(old(ctx).campaign, request_of(*old(ctx), amount)),
        !old(ctx).campaign.can_distribute(amount) ==> result is Err,
        old(ctx).campaign.authority() != Some(old(ctx).campaign_token_account.owner@)
            ==> result == Err::<TransferOrder, CampaignError>(CampaignError::AuthorityMismatch),
{
    let authority = campaign_authority(
        &ctx.campaign.organizer,
        ctx.campaign.seed.as_str(),
        ctx.campaign.authority_bump,
    );
    distribute_with_authority(ctx, authority, amount)
}

/// Takes the amount of a failed transfer off the campaign's counter again.
///
/// Returns `true` and lowers the counter by the order's amount where the
/// counter holds at least that much; otherwise returns `false` and leaves
/// the campaign as it is.
pub fn revert_distribution(ctx: &mut DistributeTokens, order: &TransferOrder) -> (reverted: bool)
    ensures
        reverted == (order.amount <= old(ctx).campaign.distributed_tokens),
        reverted ==> *final(ctx) == (DistributeTokens {
            campaign: old(ctx).campaign.debited(order.amount),
            ..*old(ctx)
        }),
        !reverted ==> *final(ctx) == *old(ctx),
        old(ctx).campaign.within_budget() ==> final(ctx).campaign.within_budget(),
{
    if order.amount <= ctx.campaign.distributed_tokens {
        ctx.campaign.distributed_tokens = ctx.campaign.distributed_tokens - order.amount;
        true
    } else {
        false
    }
}

/// However many requests a campaign serves, in whatever mix of accepted
/// and rejected, its counter ends at where it began plus the sum of the
/// accepted amounts; nothing but the counter changes; and a campaign within
/// its budget stays within it.
pub proof fn lemma_distributions_sum(campaign: CampaignAccount, requests: Seq<DistributionRequest>)
    ensures
        after_requests(campaign, requests).distributed_tokens == campaign.distributed_tokens
            + accepted_total(campaign, requests),
        after_requests(campaign, requests) == (CampaignAccount {
            distributed_tokens: after_requests(campaign, requests).distributed_tokens,
            ..campaign
        }),
        campaign.within_budget() ==> after_requests(campaign, requests).within_budget(),
    decreases requests.len(),
{
    if requests.len() > 0 {
        lemma_distributions_sum(campaign, requests.drop_last());
    }
}

/// A request beyond the budget is rejected and leaves the campaign as it
/// is, whatever accounts it presents.
pub proof fn lemma_over_budget_is_rejected(campaign: CampaignAccount, request: DistributionRequest)
    requires
        campaign.distributed_tokens + request.amount > campaign.total_tokens,
    ensures
        !accepts(campaign, request),
        after_request(campaign, request) == campaign,
{
}

/// A request against an escrow that the campaign's re-derived authority
/// does not own is rejected and leaves the campaign as it is, whether or
/// not the budget would allow it.
pub proof fn lemma_foreign_escrow_is_rejected(campaign: CampaignAccount, request: DistributionRequest)
    requires
        campaign.authority() != Some(request.campaign_token_account.owner@),
    ensures
        !accepts(campaign, request),
        after_request(campaign, request) == campaign,
{
}

/// Reverting an accepted distribution restores the campaign exactly.
pub proof fn lemma_revert_restores(campaign: CampaignAccount, amount: u64)
    requires
        campaign.can_distribute(amount),
    ensures
        amount <= campaign.credited(amount).distributed_tokens,
        campaign.credited(amount).debited(amount) == campaign,
{
}

} // verus!
