//! The registry's entry points, one per contract method.
use crate::contract;
use crate::contract::{conclude_spec, create_campaign_spec, donate_spec, status_spec};
use crate::storage;
use crate::storage::RegistryEnv;
use crate::types::{
    Address, AssetInfo, CampaignMetadata, CampaignRecord, CampaignStatus, CampaignStatusResponse,
    Error,
};
use vstd::prelude::*;

verus! {

/// The multi-campaign registry contract: many campaigns in one instance,
/// each addressed by the `u64` ID returned from `create_campaign`.
pub struct CampaignsRegistry;

impl CampaignsRegistry {
    /// Create a new campaign; returns its assigned ID.
    pub fn create_campaign(env: &mut RegistryEnv, creator: Address, metadata: CampaignMetadata) -> (r:
        Result<u64, Error>)
        ensures
            match create_campaign_spec(old(env)@, creator, metadata@) {
                Ok((s, id)) => r == Ok::<u64, Error>(id) && final(env)@ == s,
                Err(e) => r == Err::<u64, Error>(e) && final(env)@ == old(env)@,
            },
    {
        contract::create_campaign(env, creator, metadata)
    }

    /// Donate to the campaign identified by `campaign_id`.
    pub fn donate(
        env: &mut RegistryEnv,
        donor: Address,
        campaign_id: u64,
        amount: i128,
        asset: AssetInfo,
    ) -> (r: Result<(), Error>)
        ensures
            match donate_spec(old(env)@, donor, campaign_id, amount, asset) {
                Ok(s) => r is Ok && final(env)@ == s,
                Err(e) => r == Err::<(), Error>(e) && final(env)@ == old(env)@,
            },
    {
        contract::donate(env, donor, campaign_id, amount, asset)
    }

    /// End a campaign early.
    pub fn end_campaign(env: &mut RegistryEnv, campaign_id: u64) -> (r: Result<(), Error>)
        ensures
            match conclude_spec(old(env)@, campaign_id, CampaignStatus::Ended) {
                Ok(s) => r is Ok && final(env)@ == s,
                Err(e) => r == Err::<(), Error>(e) && final(env)@ == old(env)@,
            },
    {
        contract::end_campaign(env, campaign_id)
    }

    /// Cancel a campaign.
    pub fn cancel_campaign(env: &mut RegistryEnv, campaign_id: u64) -> (r: Result<(), Error>)
        ensures
            match conclude_spec(old(env)@, campaign_id, CampaignStatus::Cancelled) {
                Ok(s) => r is Ok && final(env)@ == s,
                Err(e) => r == Err::<(), Error>(e) && final(env)@ == old(env)@,
            },
    {
        contract::cancel_campaign(env, campaign_id)
    }

    /// Read a campaign's full record. Returns `None` if `campaign_id` is unknown.
    pub fn get_campaign(env: &RegistryEnv, campaign_id: u64) -> (r: Option<CampaignRecord>)
        ensures
            r is Some <==> env@.campaigns.contains_key(campaign_id),
            r matches Some(c) ==> c@ == env@.campaigns[campaign_id],
    {
        storage::get_campaign(env, campaign_id)
    }

    /// Get a campaign's current status with computed `days_remaining`.
    pub fn get_campaign_status(env: &RegistryEnv, campaign_id: u64) -> (r: Result<
        CampaignStatusResponse,
        Error,
    >)
        ensures
            r == status_spec(env@, campaign_id),
    {
        contract::get_campaign_status(env, campaign_id)
    }

    /// Total number of campaigns created on this instance (highest assigned ID).
    pub fn campaign_count(env: &RegistryEnv) -> (n: u64)
        ensures
            n == env@.next_campaign_id,
    {
        storage::next_campaign_id(env)
    }
}

} // verus!
