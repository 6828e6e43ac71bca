//! The campaign lifecycle: who may change a campaign's status.
//!
//! Any status may follow any other; the one rule is that only the
//! campaign's organizer may ask for the change.

use crate::address::Address;
use crate::campaign::{CampaignAccount, CampaignError, CampaignStatus};
use vstd::prelude::*;

verus! {

/// The accounts that one status update works on.
#[derive(Clone, Debug, PartialEq, Eq)]
pub struct UpdateCampaignStatus {
    /// The campaign whose status is to change.
    pub campaign: CampaignAccount,
    /// The caller, who must be the campaign's organizer.
    pub organizer: Address,
}

/// Sets the campaign's status to `new_status` on the organizer's request.
///
/// A caller other than the recorded organizer gets `Unauthorized` and the
/// campaign stays as it is. For the organizer the update always succeeds and
/// changes the status alone.
pub fn update_campaign_status(ctx: &mut UpdateCampaignStatus, new_status: CampaignStatus) -> (result:
    Result<(), CampaignError>)
    ensures
        old(ctx).organizer == old(ctx).campaign.organizer ==> {
            &&& result is Ok
            &&& *final(ctx) == (UpdateCampaignStatus {
                campaign: old(ctx).campaign.with_status(new_status),
                ..*old(ctx)
            })
            &&& final(ctx).campaign.status == new_status
        },
        old(ctx).organizer != old(ctx).campaign.organizer ==> {
            &&& result == Err::<(), CampaignError>(CampaignError::Unauthorized)
            &&& *final(ctx) == *old(ctx)
        },
        final(ctx).campaign.distributed_tokens == old(ctx).campaign.distributed_tokens,
        final(ctx).campaign.total_tokens == old(ctx).campaign.total_tokens,
        old(ctx).campaign.within_budget() ==> final(ctx).campaign.within_budget(),
{
    if !ctx.campaign.organizer.same(&ctx.organizer) {
        return Err(CampaignError::Unauthorized);
    }
    ctx.campaign.status = new_status;
    Ok(())
}

} // verus!
