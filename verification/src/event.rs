//! Events published by the registry.
use crate::storage::{RegistryEnv, RegistryState};
use crate::types::{Address, CampaignStatus};
use vstd::prelude::*;

verus! {

/// An event published by the registry, with its topic and payload.
#[derive(Clone, Copy, Debug, PartialEq, Eq, Structural)]
pub enum RegistryEvent {
    /// Topic `campaign_created`; published by `create_campaign`.
    CampaignCreated { campaign_id: u64, creator: Address },
    /// Topic `donation_received`; published by `donate`.
    DonationReceived { campaign_id: u64, donor: Address, amount: i128, new_raised_total: i128 },
    /// Topic `campaign_status_changed`; published by donation-driven and
    /// explicit status transitions.
    CampaignStatusChanged { campaign_id: u64, from: CampaignStatus, to: CampaignStatus },
}

/// `env` after publishing `event`.
pub open spec fn published(s: RegistryState, event: RegistryEvent) -> RegistryState {
    RegistryState { events: s.events.push(event), ..s }
}

/// Publish `campaign_created`.
pub fn campaign_created(env: &mut RegistryEnv, campaign_id: u64, creator: &Address)
    ensures
        final(env)@ == published(
            old(env)@,
            RegistryEvent::CampaignCreated { campaign_id, creator: *creator },
        ),
{
    env.events.push(RegistryEvent::CampaignCreated { campaign_id, creator: *creator });
}

/// Publish `donation_received`.
pub fn donation_received(
    env: &mut RegistryEnv,
    campaign_id: u64,
    donor: &Address,
    amount: i128,
    new_raised_total: i128,
)
    ensures
        final(env)@ == published(
            old(env)@,
            RegistryEvent::DonationReceived { campaign_id, donor: *donor, amount, new_raised_total },
        ),
{
    env.events.push(
        RegistryEvent::DonationReceived { campaign_id, donor: *donor, amount, new_raised_total },
    );
}

/// Publish `campaign_status_changed`.
pub fn campaign_status_changed(
    env: &mut RegistryEnv,
    campaign_id: u64,
    from: CampaignStatus,
    to: CampaignStatus,
)
    ensures
        final(env)@ == published(
            old(env)@,
            RegistryEvent::CampaignStatusChanged { campaign_id, from, to },
        ),
{
    env.events.push(RegistryEvent::CampaignStatusChanged { campaign_id, from, to });
}

} // verus!
