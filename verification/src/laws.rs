//! Properties of the registry that hold across all of its operations.
use crate::contract::{
    conclude_spec, create_campaign_spec, donate_error, donate_spec, new_campaign,
    signer_spec, SignedCall, MAX_CAMPAIGNS_PER_INSTANCE,
};
use crate::contract::{
    asset_accepted, donated_donor, prior_donor_record, reaches_goal, status_spec,
};
use crate::event::RegistryEvent;
use crate::types::AssetView;
use crate::storage::RegistryState;
use crate::sum::{lemma_sum_point_update, lemma_sum_zero, sum_over};
use crate::types::{
    accepts_donations_spec, status_rank, transition_allowed, Address, AssetInfo, CampaignStatus,
    DonorRecord, Error, MetadataView,
};
use vstd::prelude::*;

verus! {

/// A state-changing registry operation, as a caller issues it.
pub enum RegistryOp {
    Create { creator: Address, metadata: MetadataView },
    Donate { donor: Address, campaign_id: u64, amount: i128, asset: AssetInfo },
    End { campaign_id: u64 },
    Cancel { campaign_id: u64 },
}

/// The state after `op`, or its rejection.
pub open spec fn step(s: RegistryState, op: RegistryOp) -> Result<RegistryState, Error> {
    match op {
        RegistryOp::Create { creator, metadata } => match create_campaign_spec(s, creator, metadata) {
            Ok((s2, _)) => Ok(s2),
            Err(e) => Err(e),
        },
        RegistryOp::Donate { donor, campaign_id, amount, asset } => donate_spec(
            s,
            donor,
            campaign_id,
            amount,
            asset,
        ),
        RegistryOp::End { campaign_id } => conclude_spec(s, campaign_id, CampaignStatus::Ended),
        RegistryOp::Cancel { campaign_id } => conclude_spec(
            s,
            campaign_id,
            CampaignStatus::Cancelled,
        ),
    }
}

/// The one campaign that `op` addresses in state `s`.
pub open spec fn target(s: RegistryState, op: RegistryOp) -> u64 {
    match op {
        RegistryOp::Create { .. } => (s.next_campaign_id + 1) as u64,
        RegistryOp::Donate { campaign_id, .. } => campaign_id,
        RegistryOp::End { campaign_id } => campaign_id,
        RegistryOp::Cancel { campaign_id } => campaign_id,
    }
}

/// Every stored campaign ID lies between 1 and the campaign counter.
pub open spec fn ids_within_counter(s: RegistryState) -> bool {
    forall|id: u64| #[trigger] s.campaigns.contains_key(id) ==> 1 <= id <= s.next_campaign_id
}

/// Operations on one campaign never affect another: an accepted operation
/// leaves every other campaign's record, and every donor record of every
/// other campaign, exactly as it was; the ledger is never changed.
pub proof fn operations_are_scoped_to_one_campaign(s: RegistryState, op: RegistryOp)
    ensures
        step(s, op) matches Ok(s2) ==> {
            let t = target(s, op);
            &&& s2.timestamp == s.timestamp
            &&& s2.sequence == s.sequence
            &&& forall|id: u64| id != t ==> (#[trigger] s2.campaigns.contains_key(id)
                <==> s.campaigns.contains_key(id))
            &&& forall|id: u64| id != t && #[trigger] s.campaigns.contains_key(id) ==> s2.campaigns[id]
                == s.campaigns[id]
            &&& forall|id: u64, a: Address| id != t ==> (#[trigger] s2.donors.contains_key((id, a))
                <==> s.donors.contains_key((id, a)))
            &&& forall|id: u64, a: Address|
                id != t && #[trigger] s.donors.contains_key((id, a)) ==> s2.donors[(id, a)]
                    == s.donors[(id, a)]
        },
{
}

/// The campaign counter only moves on `create_campaign`, by exactly one,
/// and never past `MAX_CAMPAIGNS_PER_INSTANCE`. (A rejected operation
/// changes nothing at all: see the `ensures` of the entry points.)
pub proof fn campaign_counter_advances_only_on_create(s: RegistryState, op: RegistryOp)
    ensures
        step(s, op) matches Ok(s2) ==> match op {
            RegistryOp::Create { .. } => s2.next_campaign_id == s.next_campaign_id + 1
                && s2.next_campaign_id <= MAX_CAMPAIGNS_PER_INSTANCE,
            _ => s2.next_campaign_id == s.next_campaign_id,
        },
{
}

/// IDs are assigned sequentially from 1: while every stored ID lies between
/// 1 and the counter (as in a fresh instance), `create_campaign` assigns the
/// counter plus one, which names no existing campaign, and every operation
/// keeps the property.
pub proof fn ids_are_fresh_and_sequential(s: RegistryState, op: RegistryOp)
    requires
        ids_within_counter(s),
    ensures
        step(s, op) matches Ok(s2) ==> ids_within_counter(s2),
        op is Create && step(s, op) is Ok ==> !s.campaigns.contains_key(target(s, op)),
{
    let t = target(s, op);
    if op is Create && step(s, op) is Ok && s.campaigns.contains_key(t) {
        assert(1 <= t <= s.next_campaign_id);
        assert(false);
    }
    if let Ok(s2) = step(s, op) {
        assert forall|id: u64| #[trigger] s2.campaigns.contains_key(id) implies 1 <= id
            <= s2.next_campaign_id by {
            if id != target(s, op) {
                assert(s.campaigns.contains_key(id));
            }
        }
    }
}

/// (Both laws below presume that every stored ID lies within the counter, as
/// in any instance built by these operations from a fresh one.)
///
/// Every status change that an operation makes is a permitted lifecycle
/// transition; in particular a `Cancelled` campaign never changes status and
/// no status is ever re-entered.
pub proof fn status_changes_follow_lifecycle(s: RegistryState, op: RegistryOp, id: u64)
    requires
        ids_within_counter(s),
        s.campaigns.contains_key(id),
    ensures
        step(s, op) matches Ok(s2) ==> {
            let from = s.campaigns[id].status;
            let to = s2.campaigns[id].status;
            &&& s2.campaigns.contains_key(id)
            &&& (to == from || transition_allowed(from, to))
            &&& status_rank(from) <= status_rank(to)
            &&& (from is Cancelled ==> to is Cancelled)
        },
{
    ids_are_fresh_and_sequential(s, op);
    crate::types::transitions_move_forward(
        s.campaigns[id].status,
        CampaignStatus::Ended,
    );
    crate::types::transitions_move_forward(s.campaigns[id].status, CampaignStatus::Cancelled);
    crate::types::transitions_move_forward(s.campaigns[id].status, CampaignStatus::GoalReached);
}

/// The amount raised by a campaign and its donation count never decrease;
/// an accepted donation adds exactly its amount and one donation, and moves
/// an `Active` campaign to `GoalReached` exactly when the new total meets
/// the goal.
pub proof fn raised_amounts_only_grow(s: RegistryState, op: RegistryOp, id: u64)
    requires
        ids_within_counter(s),
        s.campaigns.contains_key(id),
    ensures
        step(s, op) matches Ok(s2) ==> {
            &&& s2.campaigns[id].raised_amount >= s.campaigns[id].raised_amount
            &&& s2.campaigns[id].donation_count >= s.campaigns[id].donation_count
            &&& match op {
                RegistryOp::Donate { campaign_id, amount, .. } => campaign_id == id ==> {
                    &&& s2.campaigns[id].raised_amount == s.campaigns[id].raised_amount + amount
                    &&& s2.campaigns[id].donation_count == s.campaigns[id].donation_count + 1
                    &&& (s2.campaigns[id].status is GoalReached <==> (s.campaigns[id].status
                        is GoalReached || (s.campaigns[id].status is Active
                        && s2.campaigns[id].raised_amount >= s.campaigns[id].goal_amount)))
                },
                _ => true,
            }
        },
{
    ids_are_fresh_and_sequential(s, op);
}

/// A donation is accepted only by an existing campaign that is `Active` or
/// `GoalReached`, before its deadline, for a positive amount no smaller than
/// the campaign's minimum.
pub proof fn donations_only_while_open(
    s: RegistryState,
    donor: Address,
    campaign_id: u64,
    amount: i128,
    asset: AssetInfo,
)
    ensures
        donate_error(s, donor, campaign_id, amount, asset) is None ==> {
            let c = s.campaigns[campaign_id];
            &&& s.campaigns.contains_key(campaign_id)
            &&& accepts_donations_spec(c.status)
            &&& s.timestamp < c.end_time
            &&& amount > 0
            &&& amount >= c.min_donation_amount
        },
{
}

/// A created campaign reads back as created: under its new ID the registry
/// holds an `Active` record with nothing raised, the creator, and the
/// metadata's goal, deadline, assets and minimum; the campaign count is that
/// ID.
pub proof fn created_campaign_reads_back(s: RegistryState, creator: Address, m: MetadataView)
    ensures
        create_campaign_spec(s, creator, m) matches Ok((s2, id)) ==> {
            &&& s2.campaigns.contains_key(id)
            &&& s2.campaigns[id] == new_campaign(s, id, creator, m)
            &&& s2.campaigns[id].status is Active
            &&& s2.campaigns[id].raised_amount == 0
            &&& s2.campaigns[id].creator == creator
            &&& s2.campaigns[id].accepted_assets == m.accepted_assets
            &&& s2.campaigns[id].id == id
            &&& s2.campaigns[id].goal_amount == m.goal_amount
            &&& s2.campaigns[id].end_time == m.end_time
            &&& s2.campaigns[id].min_donation_amount == m.min_donation_amount
            &&& s2.campaigns[id].created_at_ledger == s.sequence
            &&& s2.campaigns[id].created_at_time == s.timestamp
            &&& s2.campaigns[id].concluded_at_ledger is None
            &&& s2.campaigns[id].donation_count == 0
            &&& s2.next_campaign_id == id
            &&& id == s.next_campaign_id + 1
        },
{
}

/// The authorization that `op` needs, as a `SignedCall`.
pub open spec fn signed_call(op: RegistryOp) -> SignedCall {
    match op {
        RegistryOp::Create { creator, .. } => SignedCall::CreateCampaign { creator },
        RegistryOp::Donate { donor, campaign_id, .. } => SignedCall::Donate { donor, campaign_id },
        RegistryOp::End { campaign_id } => SignedCall::EndCampaign { campaign_id },
        RegistryOp::Cancel { campaign_id } => SignedCall::CancelCampaign { campaign_id },
    }
}

/// Every accepted operation names the address that must authorize it:
/// creation the creator, a donation the donor, and ending or cancelling the
/// creator stored in the campaign that changes (creator-only).
pub proof fn accepted_operations_name_their_signer(s: RegistryState, op: RegistryOp)
    ensures
        step(s, op) is Ok ==> match op {
            RegistryOp::Create { creator, .. } => signer_spec(s, signed_call(op)) == Some(creator),
            RegistryOp::Donate { donor, .. } => signer_spec(s, signed_call(op)) == Some(donor),
            RegistryOp::End { campaign_id } | RegistryOp::Cancel { campaign_id } => {
                &&& s.campaigns.contains_key(campaign_id)
                &&& signer_spec(s, signed_call(op)) == Some(s.campaigns[campaign_id].creator)
            },
        },
{
}

// ─── Accounting ──────────────────────────────────────────────────────────────
/// Contribution of donor record `k` to campaign `id`'s donated total.
pub open spec fn total_term(donors: Map<(u64, Address), DonorRecord>, id: u64) -> spec_fn(
    (u64, Address),
) -> int {
    |k: (u64, Address)|
        if k.0 == id {
            donors[k].total_donated as int
        } else {
            0
        }
}

/// Contribution of donor record `k` to campaign `id`'s donation tally.
pub open spec fn count_term(donors: Map<(u64, Address), DonorRecord>, id: u64) -> spec_fn(
    (u64, Address),
) -> int {
    |k: (u64, Address)|
        if k.0 == id {
            donors[k].donation_count as int
        } else {
            0
        }
}

/// The sum of `total_donated` over campaign `id`'s donor records.
pub open spec fn donated_total(s: RegistryState, id: u64) -> int {
    sum_over(s.donors.dom(), total_term(s.donors, id))
}

/// The sum of `donation_count` over campaign `id`'s donor records.
pub open spec fn donation_tally(s: RegistryState, id: u64) -> int {
    sum_over(s.donors.dom(), count_term(s.donors, id))
}

/// Campaign `id`'s books balance: its raised amount and donation count are
/// the sums over its donor records, the raised amount is not negative, an
/// `Active` campaign is below its goal and a `GoalReached` one at or above.
pub open spec fn campaign_balanced(s: RegistryState, id: u64) -> bool {
    let c = s.campaigns[id];
    &&& c.raised_amount == donated_total(s, id)
    &&& c.donation_count == donation_tally(s, id)
    &&& c.raised_amount >= 0
    &&& (c.status is Active ==> c.raised_amount < c.goal_amount)
    &&& (c.status is GoalReached ==> c.raised_amount >= c.goal_amount)
}

/// The registry's accounting invariant: stored IDs lie within the counter,
/// every donor record belongs to a stored campaign and names the donor it is
/// stored under, and every campaign's books balance.
pub open spec fn accounting_invariant(s: RegistryState) -> bool {
    &&& ids_within_counter(s)
    &&& s.donors.dom().finite()
    &&& forall|k: (u64, Address)| #[trigger]
        s.donors.contains_key(k) ==> s.campaigns.contains_key(k.0) && s.donors[k].donor == k.1
    &&& forall|id: u64| #[trigger] s.campaigns.contains_key(id) ==> campaign_balanced(s, id)
}

/// Storing donor record `rec` under `key` moves campaign `j`'s sums by the
/// difference between the record replaced (if any) and `rec`.
pub proof fn lemma_sums_after_donor_insert(
    d: Map<(u64, Address), DonorRecord>,
    key: (u64, Address),
    rec: DonorRecord,
    j: u64,
)
    requires
        d.dom().finite(),
    ensures
        sum_over(d.insert(key, rec).dom(), total_term(d.insert(key, rec), j)) == sum_over(
            d.dom(),
            total_term(d, j),
        ) - (if d.contains_key(key) && key.0 == j {
            d[key].total_donated as int
        } else {
            0
        }) + (if key.0 == j {
            rec.total_donated as int
        } else {
            0
        }),
        sum_over(d.insert(key, rec).dom(), count_term(d.insert(key, rec), j)) == sum_over(
            d.dom(),
            count_term(d, j),
        ) - (if d.contains_key(key) && key.0 == j {
            d[key].donation_count as int
        } else {
            0
        }) + (if key.0 == j {
            rec.donation_count as int
        } else {
            0
        }),
{
    let d2 = d.insert(key, rec);
    assert(d2.dom() =~= d.dom().insert(key));
    assert forall|k: (u64, Address)| d.dom().contains(k) && k != key implies total_term(d, j)(k)
        == total_term(d2, j)(k) by {
        assert(d2[k] == d[k]);
    }
    assert forall|k: (u64, Address)| d.dom().contains(k) && k != key implies count_term(d, j)(k)
        == count_term(d2, j)(k) by {
        assert(d2[k] == d[k]);
    }
    lemma_sum_point_update(d.dom(), total_term(d, j), total_term(d2, j), key);
    lemma_sum_point_update(d.dom(), count_term(d, j), count_term(d2, j), key);
}

/// A fresh registry (no campaigns, no donors) satisfies the accounting
/// invariant.
pub proof fn fresh_registry_is_balanced(s: RegistryState)
    requires
        s.campaigns == Map::<u64, crate::types::CampaignView>::empty(),
        s.donors == Map::<(u64, Address), DonorRecord>::empty(),
    ensures
        accounting_invariant(s),
{
    assert(s.donors.dom() =~= Set::<(u64, Address)>::empty());
}

/// Every operation keeps the accounting invariant: a campaign's raised
/// amount and donation count stay equal to the sums over its donor records,
/// and `Active` / `GoalReached` stay below / at or above the goal.
pub proof fn accounting_invariant_is_kept(s: RegistryState, op: RegistryOp)
    requires
        accounting_invariant(s),
    ensures
        step(s, op) matches Ok(s2) ==> accounting_invariant(s2),
{
    ids_are_fresh_and_sequential(s, op);
    if let Ok(s2) = step(s, op) {
        match op {
            RegistryOp::Create { creator, metadata } => {
                let t = target(s, op);
                assert(s2.donors == s.donors);
                assert forall|id: u64| #[trigger] s2.campaigns.contains_key(id) implies campaign_balanced(
                    s2,
                    id,
                ) by {
                    if id == t {
                        assert forall|k: (u64, Address)| s.donors.dom().contains(k) implies total_term(
                            s.donors,
                            t,
                        )(k) == 0 by {
                            assert(s.donors.contains_key(k));
                            assert(s.campaigns.contains_key(k.0));
                        }
                        assert forall|k: (u64, Address)| s.donors.dom().contains(k) implies count_term(
                            s.donors,
                            t,
                        )(k) == 0 by {
                            assert(s.donors.contains_key(k));
                            assert(s.campaigns.contains_key(k.0));
                        }
                        lemma_sum_zero(s.donors.dom(), total_term(s.donors, t));
                        lemma_sum_zero(s.donors.dom(), count_term(s.donors, t));
                    } else {
                        assert(s.campaigns.contains_key(id));
                        assert(campaign_balanced(s, id));
                    }
                }
                assert forall|k: (u64, Address)| #[trigger] s2.donors.contains_key(k) implies s2.campaigns.contains_key(
                    k.0,
                ) && s2.donors[k].donor == k.1 by {
                    assert(s.donors.contains_key(k));
                }
            },
            RegistryOp::Donate { donor, campaign_id, amount, asset } => {
                let key = (campaign_id, donor);
                let c = s.campaigns[campaign_id];
                let rec = donated_donor(s, campaign_id, donor, amount);
                let prior = prior_donor_record(s, campaign_id, donor);
                assert(s2.donors == s.donors.insert(key, rec));
                if s.donors.contains_key(key) {
                    assert(prior.donor == donor);
                }
                assert forall|id: u64| #[trigger] s2.campaigns.contains_key(id) implies campaign_balanced(
                    s2,
                    id,
                ) by {
                    assert(s.campaigns.contains_key(id));
                    assert(campaign_balanced(s, id));
                    lemma_sums_after_donor_insert(s.donors, key, rec, id);
                    if id == campaign_id {
                        assert(rec.total_donated == prior.total_donated + amount);
                        assert(rec.donation_count == prior.donation_count + 1);
                        if reaches_goal(c, amount) {
                            assert(s2.campaigns[id].status is GoalReached);
                        }
                    }
                }
                assert forall|k: (u64, Address)| #[trigger] s2.donors.contains_key(k) implies s2.campaigns.contains_key(
                    k.0,
                ) && s2.donors[k].donor == k.1 by {
                    if k != key {
                        assert(s.donors.contains_key(k));
                    }
                }
            },
            RegistryOp::End { campaign_id } | RegistryOp::Cancel { campaign_id } => {
                assert(s2.donors == s.donors);
                assert forall|id: u64| #[trigger] s2.campaigns.contains_key(id) implies campaign_balanced(
                    s2,
                    id,
                ) by {
                    assert(s.campaigns.contains_key(id));
                    assert(campaign_balanced(s, id));
                }
                assert forall|k: (u64, Address)| #[trigger] s2.donors.contains_key(k) implies s2.campaigns.contains_key(
                    k.0,
                ) && s2.donors[k].donor == k.1 by {
                    assert(s.donors.contains_key(k));
                }
            },
        }
    }
}

// ─── What each operation is for ──────────────────────────────────────────────
/// The asset code `XLM`, as bytes.
pub open spec fn xlm_bytes() -> Seq<u8> {
    seq![88u8, 76u8, 77u8]
}

/// Whether some entry of `assets`, at any position, matches the donated
/// `asset`: an `XLM` code for a native donation, the issuer for an issued one.
pub open spec fn listed_anywhere(asset: AssetInfo, assets: Seq<AssetView>) -> bool {
    match asset {
        AssetInfo::Native => exists|i: int|
            0 <= i < assets.len() && #[trigger] assets[i].code == xlm_bytes(),
        AssetInfo::Stellar(addr) => exists|i: int|
            0 <= i < assets.len() && #[trigger] assets[i].issuer == Some(addr),
    }
}

/// A donation's asset is accepted exactly when some entry of the campaign's
/// list, at any position, matches it; so adding assets before or after the
/// list never turns an accepted asset away.
pub proof fn accepted_assets_are_searched_in_full(
    asset: AssetInfo,
    assets: Seq<AssetView>,
    before: Seq<AssetView>,
    after: Seq<AssetView>,
)
    ensures
        asset_accepted(asset, assets) <==> listed_anywhere(asset, assets),
        asset_accepted(asset, assets) ==> asset_accepted(asset, before + assets + after),
{
    let whole = before + assets + after;
    assert(xlm_bytes() == crate::contract::xlm_code());
    match asset {
        AssetInfo::Native => {
            if listed_anywhere(asset, assets) {
                let i = choose|i: int| 0 <= i < assets.len() && #[trigger] assets[i].code == xlm_bytes();
                assert(whole[before.len() + i] == assets[i]);
                assert(whole[before.len() + i].code == crate::contract::xlm_code());
            }
        },
        AssetInfo::Stellar(addr) => {
            if listed_anywhere(asset, assets) {
                let i = choose|i: int| 0 <= i < assets.len() && #[trigger] assets[i].issuer == Some(addr);
                assert(whole[before.len() + i] == assets[i]);
                assert(whole[before.len() + i].issuer == Some(addr));
            }
        },
    }
}

/// A donation to an open campaign (`Active` or `GoalReached`, before its
/// deadline) of a positive amount no smaller than the minimum, in an asset
/// listed anywhere in the campaign's accepted assets, that overflows no
/// counter, is accepted: the raised amount grows by the amount and the
/// donation count by one.
pub proof fn open_campaigns_take_listed_donations(
    s: RegistryState,
    donor: Address,
    campaign_id: u64,
    amount: i128,
    asset: AssetInfo,
)
    requires
        s.campaigns.contains_key(campaign_id),
        s.campaigns[campaign_id].status is Active || s.campaigns[campaign_id].status is GoalReached,
        s.timestamp < s.campaigns[campaign_id].end_time,
        amount > 0,
        amount >= s.campaigns[campaign_id].min_donation_amount,
        listed_anywhere(asset, s.campaigns[campaign_id].accepted_assets),
        s.campaigns[campaign_id].raised_amount + amount <= i128::MAX,
        s.campaigns[campaign_id].donation_count < u64::MAX,
        prior_donor_record(s, campaign_id, donor).total_donated + amount <= i128::MAX,
        prior_donor_record(s, campaign_id, donor).donation_count < u32::MAX,
    ensures
        donate_spec(s, donor, campaign_id, amount, asset) matches Ok(s2) && {
            &&& s2.campaigns[campaign_id].raised_amount == s.campaigns[campaign_id].raised_amount
                + amount
            &&& s2.campaigns[campaign_id].donation_count == s.campaigns[campaign_id].donation_count
                + 1
        },
{
    accepted_assets_are_searched_in_full(
        asset,
        s.campaigns[campaign_id].accepted_assets,
        Seq::empty(),
        Seq::empty(),
    );
    assert(prior_donor_record(s, campaign_id, donor).total_donated >= i128::MIN);
}

/// Ending succeeds exactly on an `Active` or `GoalReached` campaign, and
/// cancelling exactly on one that is not yet `Cancelled`; on success the
/// campaign takes the new status and records the current ledger sequence,
/// and otherwise the answer is `InvalidCampaignTransition`.
pub proof fn ending_and_cancelling_follow_the_lifecycle(s: RegistryState, campaign_id: u64)
    requires
        s.campaigns.contains_key(campaign_id),
    ensures
        ({
            let c = s.campaigns[campaign_id];
            &&& (c.status is Active || c.status is GoalReached) ==> (conclude_spec(
                s,
                campaign_id,
                CampaignStatus::Ended,
            ) matches Ok(s2) && s2.campaigns[campaign_id].status is Ended
                && s2.campaigns[campaign_id].concluded_at_ledger == Some(s.sequence)
                && s2.campaigns[campaign_id].raised_amount == c.raised_amount)
            &&& (c.status is Ended || c.status is Cancelled) ==> conclude_spec(
                s,
                campaign_id,
                CampaignStatus::Ended,
            ) == Err::<RegistryState, Error>(Error::InvalidCampaignTransition)
            &&& !(c.status is Cancelled) ==> (conclude_spec(
                s,
                campaign_id,
                CampaignStatus::Cancelled,
            ) matches Ok(s2) && s2.campaigns[campaign_id].status is Cancelled
                && s2.campaigns[campaign_id].concluded_at_ledger == Some(s.sequence)
                && s2.campaigns[campaign_id].raised_amount == c.raised_amount)
            &&& c.status is Cancelled ==> conclude_spec(s, campaign_id, CampaignStatus::Cancelled)
                == Err::<RegistryState, Error>(Error::InvalidCampaignTransition)
        }),
{
}

/// `days_remaining` counts whole days to the deadline, rounded down, and
/// after the deadline minus the whole days since it: before the deadline
/// `d * 86400 <= end - now < (d + 1) * 86400`, and after it
/// `-d * 86400 <= now - end < (-d + 1) * 86400`.
pub proof fn days_remaining_counts_whole_days(s: RegistryState, campaign_id: u64)
    requires
        s.campaigns.contains_key(campaign_id),
    ensures
        status_spec(s, campaign_id) matches Ok(r) && {
            let e = s.campaigns[campaign_id].end_time as int;
            let n = s.timestamp as int;
            let d = r.days_remaining as int;
            &&& r.status == s.campaigns[campaign_id].status
            &&& n < e ==> 0 <= d && d * 86400 <= e - n < d * 86400 + 86400
            &&& n >= e ==> d <= 0 && -d * 86400 <= n - e < -d * 86400 + 86400
        },
{
    let e = s.campaigns[campaign_id].end_time as int;
    let n = s.timestamp as int;
    if n < e {
        let x = e - n;
        let q = x / 86400;
        assert(0 <= q && q * 86400 <= x < q * 86400 + 86400 && q <= u64::MAX / 86400)
            by (nonlinear_arith)
            requires
                0 < x <= u64::MAX,
                q == x / 86400,
        ;
        assert((q as i64) as int == q);
    } else {
        let x = n - e;
        let q = x / 86400;
        assert(0 <= q && q * 86400 <= x < q * 86400 + 86400 && q <= u64::MAX / 86400)
            by (nonlinear_arith)
            requires
                0 <= x <= u64::MAX,
                q == x / 86400,
        ;
        assert((-q as i64) as int == -q);
    }
}

/// Valid metadata is accepted whatever the number of assets: with a positive
/// goal, a future deadline, a non-empty list of codes of 1 to 12 bytes and
/// the counter below the cap, creation succeeds with the next ID and stores
/// the list as given; and, given a positive goal and a future deadline,
/// `InvalidAssets` comes exactly when the list is empty.
pub proof fn valid_metadata_is_accepted(s: RegistryState, creator: Address, m: MetadataView)
    ensures
        ({
            &&& m.goal_amount > 0
            &&& m.end_time > s.timestamp
            &&& m.accepted_assets.len() > 0
            &&& forall|i: int|
                0 <= i < m.accepted_assets.len() ==> 0 < (#[trigger] m.accepted_assets[i]).code.len()
                    <= 12
            &&& s.next_campaign_id < MAX_CAMPAIGNS_PER_INSTANCE
        }) ==> (create_campaign_spec(s, creator, m) matches Ok((s2, id)) && {
            &&& id == s.next_campaign_id + 1
            &&& s2.campaigns[id].accepted_assets == m.accepted_assets
            &&& s2.campaigns[id].goal_amount == m.goal_amount
            &&& s2.campaigns[id].end_time == m.end_time
            &&& s2.campaigns[id].min_donation_amount == m.min_donation_amount
        }),
        m.goal_amount > 0 && m.end_time > s.timestamp ==> (create_campaign_spec(s, creator, m)
            == Err::<(RegistryState, u64), Error>(Error::InvalidAssets)
            <==> m.accepted_assets.len() == 0),
{
}

/// Creation is refused, in this order, for a goal that is not positive
/// (`InvalidGoalAmount`), a deadline not after the current ledger time
/// (`InvalidEndTime`), an empty asset list (`InvalidAssets`), any asset code
/// that is empty or longer than 12 bytes (`InvalidAssetCode`), and a full
/// instance (`MaxCampaignsExceeded`).
pub proof fn creation_rejections(s: RegistryState, creator: Address, m: MetadataView)
    ensures
        m.goal_amount <= 0 ==> create_campaign_spec(s, creator, m) == Err::<(RegistryState, u64), Error>(
            Error::InvalidGoalAmount,
        ),
        m.goal_amount > 0 && m.end_time <= s.timestamp ==> create_campaign_spec(s, creator, m)
            == Err::<(RegistryState, u64), Error>(Error::InvalidEndTime),
        (m.goal_amount > 0 && m.end_time > s.timestamp && m.accepted_assets.len() > 0 && exists|
            i: int,
        |
            0 <= i < m.accepted_assets.len() && ((#[trigger] m.accepted_assets[i]).code.len() == 0
                || m.accepted_assets[i].code.len() > 12)) ==> create_campaign_spec(s, creator, m)
            == Err::<(RegistryState, u64), Error>(Error::InvalidAssetCode),
        (m.goal_amount > 0 && m.end_time > s.timestamp && m.accepted_assets.len() > 0 && (forall|
            i: int,
        |
            0 <= i < m.accepted_assets.len() ==> 0 < (#[trigger] m.accepted_assets[i]).code.len()
                <= 12) && s.next_campaign_id >= MAX_CAMPAIGNS_PER_INSTANCE) ==> create_campaign_spec(
            s,
            creator,
            m,
        ) == Err::<(RegistryState, u64), Error>(Error::MaxCampaignsExceeded),
{
}

/// A donation is refused, in this order, for an unknown campaign
/// (`CampaignNotFound`), an `Ended` or `Cancelled` one (`CampaignNotActive`),
/// a deadline reached (`CampaignEnded`), an amount not positive or below a
/// positive minimum (`DonationTooSmall`), an asset listed nowhere in the
/// campaign (`AssetNotAccepted`), and a raised total that would overflow
/// (`Overflow`).
pub proof fn donation_rejections(
    s: RegistryState,
    donor: Address,
    campaign_id: u64,
    amount: i128,
    asset: AssetInfo,
)
    ensures
        !s.campaigns.contains_key(campaign_id) ==> donate_spec(s, donor, campaign_id, amount, asset)
            == Err::<RegistryState, Error>(Error::CampaignNotFound),
        s.campaigns.contains_key(campaign_id) ==> ({
            let c = s.campaigns[campaign_id];
            let r = donate_spec(s, donor, campaign_id, amount, asset);
            let open = c.status is Active || c.status is GoalReached;
            let big_enough = amount > 0 && !(c.min_donation_amount > 0 && amount
                < c.min_donation_amount);
            &&& !open ==> r == Err::<RegistryState, Error>(Error::CampaignNotActive)
            &&& open && s.timestamp >= c.end_time ==> r == Err::<RegistryState, Error>(
                Error::CampaignEnded,
            )
            &&& open && s.timestamp < c.end_time && !big_enough ==> r == Err::<RegistryState, Error>(
                Error::DonationTooSmall,
            )
            &&& open && s.timestamp < c.end_time && big_enough && !listed_anywhere(
                asset,
                c.accepted_assets,
            ) ==> r == Err::<RegistryState, Error>(Error::AssetNotAccepted)
            &&& open && s.timestamp < c.end_time && big_enough && listed_anywhere(
                asset,
                c.accepted_assets,
            ) && c.raised_amount + amount > i128::MAX ==> r == Err::<RegistryState, Error>(
                Error::Overflow,
            )
        }),
{
    if s.campaigns.contains_key(campaign_id) {
        accepted_assets_are_searched_in_full(
            asset,
            s.campaigns[campaign_id].accepted_assets,
            Seq::empty(),
            Seq::empty(),
        );
    }
}

/// An accepted donation stamps the donor's record for the campaign with the
/// current ledger time and sequence and adds the amount and one donation to
/// it (starting from nothing for a first donation, which names the donor),
/// and publishes `donation_received` with the new total last, preceded by a
/// `campaign_status_changed` to `GoalReached` exactly when it moves an
/// `Active` campaign to its goal.
pub proof fn accepted_donation_updates_donor_and_events(
    s: RegistryState,
    donor: Address,
    campaign_id: u64,
    amount: i128,
    asset: AssetInfo,
)
    ensures
        donate_spec(s, donor, campaign_id, amount, asset) matches Ok(s2) ==> {
            let key = (campaign_id, donor);
            let d2 = s2.donors[key];
            let c = s.campaigns[campaign_id];
            let moves = c.status is Active && c.raised_amount + amount >= c.goal_amount;
            &&& s2.donors.contains_key(key)
            &&& d2.last_donation_time == s.timestamp
            &&& d2.last_donation_ledger == s.sequence
            &&& s.donors.contains_key(key) ==> {
                &&& d2.total_donated == s.donors[key].total_donated + amount
                &&& d2.donation_count == s.donors[key].donation_count + 1
                &&& d2.donor == s.donors[key].donor
            }
            &&& !s.donors.contains_key(key) ==> {
                &&& d2.total_donated == amount
                &&& d2.donation_count == 1
                &&& d2.donor == donor
            }
            &&& s2.events.len() == s.events.len() + if moves {
                2int
            } else {
                1int
            }
            &&& s2.events.last() == (RegistryEvent::DonationReceived {
                campaign_id,
                donor,
                amount,
                new_raised_total: s2.campaigns[campaign_id].raised_amount,
            })
            &&& moves ==> s2.events[s.events.len() as int] == (RegistryEvent::CampaignStatusChanged {
                campaign_id,
                from: CampaignStatus::Active,
                to: CampaignStatus::GoalReached,
            })
            &&& s2.events.subrange(0, s.events.len() as int) == s.events
        },
{
    if let Ok(s2) = donate_spec(s, donor, campaign_id, amount, asset) {
        assert(s2.events.subrange(0, s.events.len() as int) =~= s.events);
    }
}

/// Creating, ending and cancelling each publish exactly one event:
/// `campaign_created` with the new ID and the creator, or
/// `campaign_status_changed` from the campaign's previous status to the new
/// one.
pub proof fn accepted_operations_publish_their_event(s: RegistryState, op: RegistryOp)
    ensures
        step(s, op) matches Ok(s2) ==> match op {
            RegistryOp::Create { creator, .. } => s2.events == s.events.push(
                RegistryEvent::CampaignCreated {
                    campaign_id: (s.next_campaign_id + 1) as u64,
                    creator,
                },
            ),
            RegistryOp::End { campaign_id } => s2.events == s.events.push(
                RegistryEvent::CampaignStatusChanged {
                    campaign_id,
                    from: s.campaigns[campaign_id].status,
                    to: CampaignStatus::Ended,
                },
            ),
            RegistryOp::Cancel { campaign_id } => s2.events == s.events.push(
                RegistryEvent::CampaignStatusChanged {
                    campaign_id,
                    from: s.campaigns[campaign_id].status,
                    to: CampaignStatus::Cancelled,
                },
            ),
            RegistryOp::Donate { .. } => true,
        },
{
}

} // verus!
