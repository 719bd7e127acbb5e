//! Campaign registry business logic.
//!
//! Every operation takes a `campaign_id` (or assigns a fresh one) and scopes
//! its reads and writes to that one campaign, so operations on one campaign
//! never affect another. A rejected operation leaves the environment exactly
//! as it was.
use crate::event::{
    campaign_created, campaign_status_changed, donation_received, published, RegistryEvent,
};
use crate::storage::{
    get_campaign_or_panic, get_donor, next_campaign_id, set_campaign, set_donor,
    set_next_campaign_id, RegistryEnv, RegistryState,
};
use crate::types::{
    accepts_donations_spec, transition_allowed, valid_code, validate_campaign_transition, Address,
    AssetInfo, AssetView, CampaignMetadata, CampaignRecord, CampaignStatus, CampaignStatusResponse,
    CampaignView, DonorRecord, Error, MetadataView,
};
use vstd::prelude::*;

verus! {

/// Maximum number of campaigns a single contract instance will create.
pub const MAX_CAMPAIGNS_PER_INSTANCE: u64 = 10_000;

/// Seconds in a day.
pub const SECONDS_PER_DAY: u64 = 86_400;

// ─── Specification ───────────────────────────────────────────────────────────
/// Why `create_campaign` rejects `m`, if it does.
pub open spec fn create_error(s: RegistryState, m: MetadataView) -> Option<Error> {
    if m.goal_amount <= 0 {
        Some(Error::InvalidGoalAmount)
    } else if m.end_time <= s.timestamp {
        Some(Error::InvalidEndTime)
    } else if m.accepted_assets.len() == 0 {
        Some(Error::InvalidAssets)
    } else if exists|i: int|
        0 <= i < m.accepted_assets.len() && !valid_code(#[trigger] m.accepted_assets[i].code) {
        Some(Error::InvalidAssetCode)
    } else if s.next_campaign_id >= MAX_CAMPAIGNS_PER_INSTANCE {
        Some(Error::MaxCampaignsExceeded)
    } else {
        None
    }
}

/// The record of a freshly created campaign.
pub open spec fn new_campaign(s: RegistryState, id: u64, creator: Address, m: MetadataView) -> CampaignView {
    CampaignView {
        id,
        creator,
        goal_amount: m.goal_amount,
        raised_amount: 0,
        end_time: m.end_time,
        status: CampaignStatus::Active,
        accepted_assets: m.accepted_assets,
        min_donation_amount: m.min_donation_amount,
        created_at_ledger: s.sequence,
        created_at_time: s.timestamp,
        concluded_at_ledger: None,
        donation_count: 0,
    }
}

/// Outcome of `create_campaign`: the new state and the assigned ID, or the
/// rejection.
pub open spec fn create_campaign_spec(s: RegistryState, creator: Address, m: MetadataView) -> Result<
    (RegistryState, u64),
    Error,
> {
    match create_error(s, m) {
        Some(e) => Err(e),
        None => {
            let id = (s.next_campaign_id + 1) as u64;
            Ok(
                (
                    published(
                        RegistryState {
                            campaigns: s.campaigns.insert(id, new_campaign(s, id, creator, m)),
                            next_campaign_id: id,
                            ..s
                        },
                        RegistryEvent::CampaignCreated { campaign_id: id, creator },
                    ),
                    id,
                ),
            )
        },
    }
}

/// The asset code of native XLM.
pub open spec fn xlm_code() -> Seq<u8> {
    seq![88u8, 76u8, 77u8]
}

/// Whether a campaign accepting `assets` accepts donations in `asset`.
pub open spec fn asset_accepted(asset: AssetInfo, assets: Seq<AssetView>) -> bool {
    match asset {
        AssetInfo::Stellar(addr) => exists|i: int|
            0 <= i < assets.len() && #[trigger] assets[i].issuer == Some(addr),
        AssetInfo::Native => exists|i: int|
            0 <= i < assets.len() && #[trigger] assets[i].code == xlm_code(),
    }
}

pub open spec fn fits_i128(x: int) -> bool {
    i128::MIN <= x <= i128::MAX
}

/// The donor record a donation starts from: the stored one, or a fresh one.
pub open spec fn prior_donor_record(s: RegistryState, campaign_id: u64, donor: Address) -> DonorRecord {
    if s.donors.contains_key((campaign_id, donor)) {
        s.donors[(campaign_id, donor)]
    } else {
        DonorRecord {
            donor,
            total_donated: 0,
            donation_count: 0,
            last_donation_time: 0,
            last_donation_ledger: 0,
        }
    }
}

/// Why `donate` rejects a donation, if it does; the checks come in this order.
pub open spec fn donate_error(
    s: RegistryState,
    donor: Address,
    campaign_id: u64,
    amount: i128,
    asset: AssetInfo,
) -> Option<Error> {
    if !s.campaigns.contains_key(campaign_id) {
        Some(Error::CampaignNotFound)
    } else {
        let c = s.campaigns[campaign_id];
        let d = prior_donor_record(s, campaign_id, donor);
        if !accepts_donations_spec(c.status) {
            Some(Error::CampaignNotActive)
        } else if s.timestamp >= c.end_time {
            Some(Error::CampaignEnded)
        } else if amount <= 0 || (c.min_donation_amount > 0 && amount < c.min_donation_amount) {
            Some(Error::DonationTooSmall)
        } else if !asset_accepted(asset, c.accepted_assets) {
            Some(Error::AssetNotAccepted)
        } else if !fits_i128(c.raised_amount + amount) || c.donation_count + 1 > u64::MAX
            || !fits_i128(d.total_donated + amount) || d.donation_count + 1 > u32::MAX {
            Some(Error::Overflow)
        } else {
            None
        }
    }
}

/// Whether a donation of `amount` moves campaign `c` from `Active` to
/// `GoalReached`.
pub open spec fn reaches_goal(c: CampaignView, amount: i128) -> bool {
    c.status is Active && c.raised_amount + amount >= c.goal_amount
}

/// The campaign record after an accepted donation of `amount`.
pub open spec fn donated_campaign(c: CampaignView, amount: i128) -> CampaignView {
    CampaignView {
        raised_amount: (c.raised_amount + amount) as i128,
        donation_count: (c.donation_count + 1) as u64,
        status: if reaches_goal(c, amount) {
            CampaignStatus::GoalReached
        } else {
            c.status
        },
        ..c
    }
}

/// The donor record after an accepted donation of `amount`.
pub open spec fn donated_donor(s: RegistryState, campaign_id: u64, donor: Address, amount: i128) -> DonorRecord {
    let d = prior_donor_record(s, campaign_id, donor);
    DonorRecord {
        total_donated: (d.total_donated + amount) as i128,
        donation_count: (d.donation_count + 1) as u32,
        last_donation_time: s.timestamp,
        last_donation_ledger: s.sequence,
        ..d
    }
}

/// Outcome of `donate`: the new state, or the rejection.
pub open spec fn donate_spec(
    s: RegistryState,
    donor: Address,
    campaign_id: u64,
    amount: i128,
    asset: AssetInfo,
) -> Result<RegistryState, Error> {
    match donate_error(s, donor, campaign_id, amount, asset) {
        Some(e) => Err(e),
        None => {
            let c = s.campaigns[campaign_id];
            let c2 = donated_campaign(c, amount);
            let events1 = if reaches_goal(c, amount) {
                s.events.push(
                    RegistryEvent::CampaignStatusChanged {
                        campaign_id,
                        from: CampaignStatus::Active,
                        to: CampaignStatus::GoalReached,
                    },
                )
            } else {
                s.events
            };
            Ok(
                RegistryState {
                    campaigns: s.campaigns.insert(campaign_id, c2),
                    donors: s.donors.insert(
                        (campaign_id, donor),
                        donated_donor(s, campaign_id, donor, amount),
                    ),
                    events: events1.push(
                        RegistryEvent::DonationReceived {
                            campaign_id,
                            donor,
                            amount,
                            new_raised_total: c2.raised_amount,
                        },
                    ),
                    ..s
                },
            )
        },
    }
}

/// Outcome of moving campaign `campaign_id` to status `to` (used by
/// `end_campaign` and `cancel_campaign`): the new state, or the rejection.
pub open spec fn conclude_spec(s: RegistryState, campaign_id: u64, to: CampaignStatus) -> Result<
    RegistryState,
    Error,
> {
    if !s.campaigns.contains_key(campaign_id) {
        Err(Error::CampaignNotFound)
    } else {
        let c = s.campaigns[campaign_id];
        if !transition_allowed(c.status, to) {
            Err(Error::InvalidCampaignTransition)
        } else {
            Ok(
                published(
                    RegistryState {
                        campaigns: s.campaigns.insert(
                            campaign_id,
                            CampaignView { status: to, concluded_at_ledger: Some(s.sequence), ..c },
                        ),
                        ..s
                    },
                    RegistryEvent::CampaignStatusChanged { campaign_id, from: c.status, to },
                ),
            )
        }
    }
}

/// Whole days until the deadline; negative (rounded toward zero) once it has
/// passed.
pub open spec fn days_remaining_spec(now: u64, end_time: u64) -> int {
    if now < end_time {
        (end_time - now) / 86_400
    } else {
        -((now - end_time) / 86_400)
    }
}

/// Outcome of `get_campaign_status`.
pub open spec fn status_spec(s: RegistryState, campaign_id: u64) -> Result<CampaignStatusResponse, Error> {
    if !s.campaigns.contains_key(campaign_id) {
        Err(Error::CampaignNotFound)
    } else {
        let c = s.campaigns[campaign_id];
        Ok(
            CampaignStatusResponse {
                status: c.status,
                days_remaining: days_remaining_spec(s.timestamp, c.end_time) as i64,
            },
        )
    }
}

// ─── Operations ──────────────────────────────────────────────────────────────
/// Create a new campaign, returning its assigned ID (starting at 1).
///
/// Rejected with, in this order of checks:
/// - `InvalidGoalAmount` if `metadata.goal_amount <= 0`
/// - `InvalidEndTime` if `metadata.end_time` <= current ledger timestamp
/// - `InvalidAssets` if `metadata.accepted_assets` is empty
/// - `InvalidAssetCode` if any accepted asset has an invalid code
/// - `MaxCampaignsExceeded` if `MAX_CAMPAIGNS_PER_INSTANCE` is reached
pub fn create_campaign(env: &mut RegistryEnv, creator: Address, metadata: CampaignMetadata) -> (r:
    Result<u64, Error>)
    ensures
        match create_campaign_spec(old(env)@, creator, metadata@) {
            Ok((s, id)) => r == Ok::<u64, Error>(id) && final(env)@ == s,
            Err(e) => r == Err::<u64, Error>(e) && final(env)@ == old(env)@,
        },
{
    if metadata.goal_amount <= 0 {
        return Err(Error::InvalidGoalAmount);
    }
    let now = env.timestamp;
    if metadata.end_time <= now {
        return Err(Error::InvalidEndTime);
    }
    if metadata.accepted_assets.len() == 0 {
        return Err(Error::InvalidAssets);
    }
    let mut i: usize = 0;
    while i < metadata.accepted_assets.len()
        invariant
            i <= metadata.accepted_assets@.len(),
            metadata.goal_amount > 0,
            metadata.end_time > old(env)@.timestamp,
            metadata.accepted_assets@.len() > 0,
            env@ == old(env)@,
            forall|j: int| 0 <= j < i ==> valid_code(#[trigger] metadata@.accepted_assets[j].code),
        decreases metadata.accepted_assets.len() - i,
    {
        if !metadata.accepted_assets[i].has_valid_code() {
            assert(metadata@.accepted_assets[i as int] == metadata.accepted_assets@[i as int]@);
            assert(!valid_code(metadata@.accepted_assets[i as int].code));
            assert(metadata@.accepted_assets.len() == metadata.accepted_assets@.len());
            assert(create_error(old(env)@, metadata@) == Some(Error::InvalidAssetCode));
            return Err(Error::InvalidAssetCode);
        }
        i = i + 1;
    }
    let next_id = next_campaign_id(env);
    if next_id >= MAX_CAMPAIGNS_PER_INSTANCE {
        return Err(Error::MaxCampaignsExceeded);
    }
    let id = next_id + 1;
    let ghost m = metadata@;
    let campaign = CampaignRecord {
        id,
        creator,
        goal_amount: metadata.goal_amount,
        raised_amount: 0,
        end_time: metadata.end_time,
        status: CampaignStatus::Active,
        accepted_assets: metadata.accepted_assets,
        min_donation_amount: metadata.min_donation_amount,
        created_at_ledger: env.sequence,
        created_at_time: now,
        concluded_at_ledger: None,
        donation_count: 0,
    };
    assert(campaign@ == new_campaign(old(env)@, id, creator, m));
    set_campaign(env, campaign);
    set_next_campaign_id(env, id);
    campaign_created(env, id, &creator);
    Ok(id)
}

/// Returns `true` when `asset` is in `campaign.accepted_assets`.
pub fn is_asset_accepted(asset: &AssetInfo, campaign: &CampaignRecord) -> (r: bool)
    ensures
        r == asset_accepted(*asset, campaign@.accepted_assets),
{
    let assets = &campaign.accepted_assets;
    let mut i: usize = 0;
    while i < assets.len()
        invariant
            i <= assets@.len(),
            assets@ == campaign.accepted_assets@,
            forall|j: int| 0 <= j < i ==> !matches_asset(*asset, #[trigger] campaign@.accepted_assets[j]),
        decreases assets.len() - i,
    {
        let a = &assets[i];
        let found = match asset {
            AssetInfo::Stellar(addr) => match a.issuer {
                Some(issuer) => issuer == *addr,
                None => false,
            },
            AssetInfo::Native => a.asset_code.len() == 3 && a.asset_code[0] == 88u8
                && a.asset_code[1] == 76u8 && a.asset_code[2] == 77u8,
        };
        proof {
            let v = campaign@.accepted_assets[i as int];
            assert(v == a@);
            if let AssetInfo::Native = *asset {
                if found {
                    assert(v.code =~= xlm_code());
                } else if v.code == xlm_code() {
                    assert(v.code[0] == 88u8 && v.code[1] == 76u8 && v.code[2] == 77u8);
                }
            }
        }
        if found {
            assert(matches_asset(*asset, campaign@.accepted_assets[i as int]));
            return true;
        }
        i = i + 1;
    }
    false
}

/// Whether the accepted asset `a` matches the donated `asset`.
pub open spec fn matches_asset(asset: AssetInfo, a: AssetView) -> bool {
    match asset {
        AssetInfo::Stellar(addr) => a.issuer == Some(addr),
        AssetInfo::Native => a.code == xlm_code(),
    }
}

/// Donate to a specific campaign, identified by `campaign_id`.
///
/// Internal accounting only: updates the campaign's recorded balance and the
/// donor's record; moves an `Active` campaign to `GoalReached` once the goal
/// is met.
///
/// Rejected with, in this order of checks:
/// - `CampaignNotFound` if no campaign exists with this ID
/// - `CampaignNotActive` unless status is `Active` or `GoalReached`
/// - `CampaignEnded` if the campaign's deadline has passed
/// - `DonationTooSmall` if `amount <= 0` or below `min_donation_amount`
/// - `AssetNotAccepted` if `asset` is not in the campaign's accepted list
/// - `Overflow` if `raised_amount` or a counter would overflow
pub fn donate(env: &mut RegistryEnv, donor: Address, campaign_id: u64, amount: i128, asset: AssetInfo) -> (r:
    Result<(), Error>)
    ensures
        match donate_spec(old(env)@, donor, campaign_id, amount, asset) {
            Ok(s) => r is Ok && final(env)@ == s,
            Err(e) => r == Err::<(), Error>(e) && final(env)@ == old(env)@,
        },
{
    let ghost s = env@;
    let mut campaign = match get_campaign_or_panic(env, campaign_id) {
        Ok(c) => c,
        Err(e) => {
            return Err(e);
        },
    };
    let ghost c = campaign@;
    if !campaign.status.accepts_donations() {
        return Err(Error::CampaignNotActive);
    }
    if env.timestamp >= campaign.end_time {
        return Err(Error::CampaignEnded);
    }
    if amount <= 0 || (campaign.min_donation_amount > 0 && amount < campaign.min_donation_amount) {
        return Err(Error::DonationTooSmall);
    }
    if !is_asset_accepted(&asset, &campaign) {
        return Err(Error::AssetNotAccepted);
    }
    let raised = match campaign.raised_amount.checked_add(amount) {
        Some(v) => v,
        None => {
            return Err(Error::Overflow);
        },
    };
    let count = match campaign.donation_count.checked_add(1) {
        Some(v) => v,
        None => {
            return Err(Error::Overflow);
        },
    };
    let mut donor_record = match get_donor(env, campaign_id, &donor) {
        Some(d) => d,
        None => DonorRecord {
            donor,
            total_donated: 0,
            donation_count: 0,
            last_donation_time: 0,
            last_donation_ledger: 0,
        },
    };
    assert(donor_record == prior_donor_record(s, campaign_id, donor));
    let total = match donor_record.total_donated.checked_add(amount) {
        Some(v) => v,
        None => {
            return Err(Error::Overflow);
        },
    };
    let donor_count = match donor_record.donation_count.checked_add(1) {
        Some(v) => v,
        None => {
            return Err(Error::Overflow);
        },
    };
    campaign.raised_amount = raised;
    campaign.donation_count = count;
    if campaign.status == CampaignStatus::Active && raised >= campaign.goal_amount {
        campaign.status = CampaignStatus::GoalReached;
        campaign_status_changed(
            env,
            campaign_id,
            CampaignStatus::Active,
            CampaignStatus::GoalReached,
        );
    }
    assert(campaign@ == donated_campaign(c, amount));
    set_campaign(env, campaign);
    donor_record.total_donated = total;
    donor_record.donation_count = donor_count;
    donor_record.last_donation_time = env.timestamp;
    donor_record.last_donation_ledger = env.sequence;
    set_donor(env, campaign_id, &donor, &donor_record);
    donation_received(env, campaign_id, &donor, amount, raised);
    Ok(())
}

/// Moves campaign `campaign_id` to the concluding status `to`, recording the
/// ledger at which it concluded.
fn conclude(env: &mut RegistryEnv, campaign_id: u64, to: CampaignStatus) -> (r: Result<(), Error>)
    ensures
        match conclude_spec(old(env)@, campaign_id, to) {
            Ok(s) => r is Ok && final(env)@ == s,
            Err(e) => r == Err::<(), Error>(e) && final(env)@ == old(env)@,
        },
{
    let mut campaign = match get_campaign_or_panic(env, campaign_id) {
        Ok(c) => c,
        Err(e) => {
            return Err(e);
        },
    };
    let from = campaign.status;
    match validate_campaign_transition(&from, &to) {
        Ok(()) => {},
        Err(e) => {
            return Err(e);
        },
    }
    campaign.status = to;
    campaign.concluded_at_ledger = Some(env.sequence);
    set_campaign(env, campaign);
    campaign_status_changed(env, campaign_id, from, to);
    Ok(())
}

/// End a campaign early (before its deadline).
///
/// Rejected with `CampaignNotFound` if no campaign exists with this ID, and
/// with `InvalidCampaignTransition` unless the campaign is `Active` or
/// `GoalReached`.
pub fn end_campaign(env: &mut RegistryEnv, campaign_id: u64) -> (r: Result<(), Error>)
    ensures
        match conclude_spec(old(env)@, campaign_id, CampaignStatus::Ended) {
            Ok(s) => r is Ok && final(env)@ == s,
            Err(e) => r == Err::<(), Error>(e) && final(env)@ == old(env)@,
        },
{
    conclude(env, campaign_id, CampaignStatus::Ended)
}

/// Cancel a campaign.
///
/// Rejected with `CampaignNotFound` if no campaign exists with this ID, and
/// with `InvalidCampaignTransition` if the campaign is already `Cancelled`.
pub fn cancel_campaign(env: &mut RegistryEnv, campaign_id: u64) -> (r: Result<(), Error>)
    ensures
        match conclude_spec(old(env)@, campaign_id, CampaignStatus::Cancelled) {
            Ok(s) => r is Ok && final(env)@ == s,
            Err(e) => r == Err::<(), Error>(e) && final(env)@ == old(env)@,
        },
{
    conclude(env, campaign_id, CampaignStatus::Cancelled)
}

/// Get a campaign's current status with computed `days_remaining`.
///
/// Rejected with `CampaignNotFound` if no campaign exists with this ID.
pub fn get_campaign_status(env: &RegistryEnv, campaign_id: u64) -> (r: Result<
    CampaignStatusResponse,
    Error,
>)
    ensures
        r == status_spec(env@, campaign_id),
{
    let campaign = match get_campaign_or_panic(env, campaign_id) {
        Ok(c) => c,
        Err(e) => {
            return Err(e);
        },
    };
    let now = env.timestamp;
    let days_remaining: i64 = if now < campaign.end_time {
        let d = (campaign.end_time - now) / SECONDS_PER_DAY;
        assert(d <= u64::MAX / 86_400);
        d as i64
    } else {
        let d = (now - campaign.end_time) / SECONDS_PER_DAY;
        assert(d <= u64::MAX / 86_400);
        -(d as i64)
    };
    Ok(CampaignStatusResponse { status: campaign.status, days_remaining })
}

// ─── Authorization ───────────────────────────────────────────────────────────
/// A state-changing registry call, as far as its authorization is
/// concerned.
#[derive(Clone, Copy, Debug, PartialEq, Eq, Structural)]
pub enum SignedCall {
    CreateCampaign { creator: Address },
    Donate { donor: Address, campaign_id: u64 },
    EndCampaign { campaign_id: u64 },
    CancelCampaign { campaign_id: u64 },
}

/// The address that must authorize `call` in state `s`: the creator for a
/// creation, the donor for a donation, and the campaign's stored creator for
/// ending or cancelling it (`None` when there is no such campaign, which the
/// operation then rejects with `CampaignNotFound`).
pub open spec fn signer_spec(s: RegistryState, call: SignedCall) -> Option<Address> {
    match call {
        SignedCall::CreateCampaign { creator } => Some(creator),
        SignedCall::Donate { donor, .. } => Some(donor),
        SignedCall::EndCampaign { campaign_id } | SignedCall::CancelCampaign { campaign_id } => {
            if s.campaigns.contains_key(campaign_id) {
                Some(s.campaigns[campaign_id].creator)
            } else {
                None
            }
        },
    }
}

/// The address whose authorization `call` needs before it runs; ending and
/// cancelling are creator-only.
pub fn required_signer(env: &RegistryEnv, call: &SignedCall) -> (r: Option<Address>)
    ensures
        r == signer_spec(env@, *call),
{
    match call {
        SignedCall::CreateCampaign { creator } => Some(*creator),
        SignedCall::Donate { donor, .. } => Some(*donor),
        SignedCall::EndCampaign { campaign_id } | SignedCall::CancelCampaign { campaign_id } => {
            match get_campaign_or_panic(env, *campaign_id) {
                Ok(c) => Some(c.creator),
                Err(_) => None,
            }
        },
    }
}

} // verus!
