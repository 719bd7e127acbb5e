//! The registry's contract environment: ledger information, persistent
//! storage and published events.
//!
//! All reads and writes are scoped by campaign ID (`DataKey::Campaign(id)`)
//! or by campaign ID and donor (`DataKey::DonorData(id, donor)`), so many
//! campaigns share one contract instance without their state colliding.
use crate::event::RegistryEvent;
use crate::keyed::{
    entries_map, last_with_key, lemma_entries_map_absent, lemma_entries_map_present,
    lemma_entries_map_push, lemma_entries_map_update, lemma_entries_map_values_name_keys, no_key,
};
use crate::types::{Address, CampaignRecord, CampaignView, DonorRecord, Error};
use vstd::prelude::*;

verus! {

/// A stored donor record together with its storage key.
#[derive(Clone, Copy, Debug, PartialEq, Eq, Structural)]
pub struct DonorEntry {
    pub campaign_id: u64,
    pub donor: Address,
    pub record: DonorRecord,
}

/// The contract environment of one registry instance: the current ledger,
/// the persistent storage (kept as keyed entry lists, later entries taking
/// precedence) and the events published so far.
pub struct RegistryEnv {
    /// Current ledger timestamp (UNIX seconds).
    pub timestamp: u64,
    /// Current ledger sequence number.
    pub sequence: u32,
    /// Stored `DataKey::NextCampaignId`; `0` when nothing was stored.
    pub next_campaign_id: u64,
    /// Stored `DataKey::Campaign(id)` entries, keyed by the record's `id`.
    pub campaigns: Vec<CampaignRecord>,
    /// Stored `DataKey::DonorData(id, donor)` entries.
    pub donors: Vec<DonorEntry>,
    /// Events published so far, oldest first.
    pub events: Vec<RegistryEvent>,
}

/// Abstract value of a `RegistryEnv`.
pub struct RegistryState {
    pub timestamp: u64,
    pub sequence: u32,
    pub next_campaign_id: u64,
    pub campaigns: Map<u64, CampaignView>,
    pub donors: Map<(u64, Address), DonorRecord>,
    pub events: Seq<RegistryEvent>,
}

pub open spec fn campaign_key() -> spec_fn(CampaignRecord) -> u64 {
    |c: CampaignRecord| c.id
}

pub open spec fn campaign_val() -> spec_fn(CampaignRecord) -> CampaignView {
    |c: CampaignRecord| c@
}

pub open spec fn donor_key() -> spec_fn(DonorEntry) -> (u64, Address) {
    |e: DonorEntry| (e.campaign_id, e.donor)
}

pub open spec fn donor_val() -> spec_fn(DonorEntry) -> DonorRecord {
    |e: DonorEntry| e.record
}

impl View for RegistryEnv {
    type V = RegistryState;

    open spec fn view(&self) -> RegistryState {
        RegistryState {
            timestamp: self.timestamp,
            sequence: self.sequence,
            next_campaign_id: self.next_campaign_id,
            campaigns: entries_map(self.campaigns@, campaign_key(), campaign_val()),
            donors: entries_map(self.donors@, donor_key(), donor_val()),
            events: self.events@,
        }
    }
}

impl RegistryEnv {
    /// A fresh instance with empty storage at the given ledger.
    pub fn new(timestamp: u64, sequence: u32) -> (env: Self)
        ensures
            env@ == (RegistryState {
                timestamp,
                sequence,
                next_campaign_id: 0,
                campaigns: Map::empty(),
                donors: Map::empty(),
                events: Seq::empty(),
            }),
    {
        let env = RegistryEnv {
            timestamp,
            sequence,
            next_campaign_id: 0,
            campaigns: Vec::new(),
            donors: Vec::new(),
            events: Vec::new(),
        };
        assert(env@.campaigns =~= Map::empty());
        assert(env@.donors =~= Map::empty());
        env
    }
}

/// Every stored campaign record carries the ID it is stored under.
pub proof fn lemma_stored_ids_match(env: &RegistryEnv)
    ensures
        forall|id: u64| #[trigger]
            env@.campaigns.contains_key(id) ==> env@.campaigns[id].id == id,
{
    let name = |v: CampaignView| v.id;
    assert forall|c: CampaignRecord| #[trigger]
        name(campaign_val()(c)) == campaign_key()(c) by {}
    lemma_entries_map_values_name_keys(env.campaigns@, campaign_key(), campaign_val(), name);
    assert forall|id: u64| #[trigger] env@.campaigns.contains_key(id) implies env@.campaigns[id].id
        == id by {
        assert(name(env@.campaigns[id]) == id);
    }
}

// ─── Campaign ID counter ────────────────────────────────────────────────────
/// Next campaign ID to assign. `0` before the first campaign is created (so
/// the first assigned ID is `1`); also the total-campaigns-created counter.
pub fn next_campaign_id(env: &RegistryEnv) -> (id: u64)
    ensures
        id == env@.next_campaign_id,
{
    env.next_campaign_id
}

/// Store the next campaign ID.
pub fn set_next_campaign_id(env: &mut RegistryEnv, id: u64)
    ensures
        final(env)@ == (RegistryState { next_campaign_id: id, ..old(env)@ }),
{
    env.next_campaign_id = id;
}

/// Position of the last stored campaign entry with ID `id`, if any.
fn find_campaign(campaigns: &Vec<CampaignRecord>, id: u64) -> (r: Option<usize>)
    ensures
        match r {
            Some(i) => last_with_key(campaigns@, campaign_key(), id, i as int),
            None => no_key(campaigns@, campaign_key(), id),
        },
{
    let mut i: usize = campaigns.len();
    while i > 0
        invariant
            i <= campaigns@.len(),
            forall|j: int| i <= j < campaigns@.len() ==> campaign_key()(#[trigger] campaigns@[j])
                != id,
        decreases i,
    {
        i = i - 1;
        if campaigns[i].id == id {
            return Some(i);
        }
    }
    None
}

// ─── Campaigns ───────────────────────────────────────────────────────────────
/// Store the campaign record, scoped by `campaign.id`.
pub fn set_campaign(env: &mut RegistryEnv, campaign: CampaignRecord)
    ensures
        final(env)@ == (RegistryState {
            campaigns: old(env)@.campaigns.insert(campaign.id, campaign@),
            ..old(env)@
        }),
{
    let ghost s = env.campaigns@;
    let ghost c = campaign;
    match find_campaign(&env.campaigns, campaign.id) {
        Some(i) => {
            env.campaigns.set(i, campaign);
            proof {
                lemma_entries_map_update(s, campaign_key(), campaign_val(), i as int, c);
            }
        },
        None => {
            env.campaigns.push(campaign);
            proof {
                lemma_entries_map_push(s, campaign_key(), campaign_val(), c);
            }
        },
    }
}

/// Load a campaign record by ID. Returns `None` if no campaign with this ID
/// exists.
pub fn get_campaign(env: &RegistryEnv, id: u64) -> (r: Option<CampaignRecord>)
    ensures
        r is Some <==> env@.campaigns.contains_key(id),
        r matches Some(c) ==> c@ == env@.campaigns[id] && c.id == id,
{
    proof {
        lemma_stored_ids_match(env);
    }
    match find_campaign(&env.campaigns, id) {
        Some(i) => {
            proof {
                lemma_entries_map_present(env.campaigns@, campaign_key(), campaign_val(), id, i as int);
            }
            Some(env.campaigns[i].clone())
        },
        None => {
            proof {
                lemma_entries_map_absent(env.campaigns@, campaign_key(), campaign_val(), id);
            }
            None
        },
    }
}

/// Same as `get_campaign` but fails with `CampaignNotFound` instead of
/// returning `None`.
pub fn get_campaign_or_panic(env: &RegistryEnv, id: u64) -> (r: Result<CampaignRecord, Error>)
    ensures
        r is Ok <==> env@.campaigns.contains_key(id),
        r matches Ok(c) ==> c@ == env@.campaigns[id] && c.id == id,
        r matches Err(e) ==> e == Error::CampaignNotFound,
{
    match get_campaign(env, id) {
        Some(c) => Ok(c),
        None => Err(Error::CampaignNotFound),
    }
}

// ─── Donors (scoped by campaign_id + donor address) ───────────────────────────
/// Position of the last stored donor entry for `(campaign_id, donor)`, if any.
fn find_donor(donors: &Vec<DonorEntry>, campaign_id: u64, donor: &Address) -> (r: Option<usize>)
    ensures
        match r {
            Some(i) => last_with_key(donors@, donor_key(), (campaign_id, *donor), i as int),
            None => no_key(donors@, donor_key(), (campaign_id, *donor)),
        },
{
    let mut i: usize = donors.len();
    while i > 0
        invariant
            i <= donors@.len(),
            forall|j: int| i <= j < donors@.len() ==> donor_key()(#[trigger] donors@[j]) != (
                campaign_id,
                *donor,
            ),
        decreases i,
    {
        i = i - 1;
        if donors[i].campaign_id == campaign_id && donors[i].donor == *donor {
            return Some(i);
        }
    }
    None
}

/// Load the donor record of `donor` for campaign `campaign_id`, if any.
pub fn get_donor(env: &RegistryEnv, campaign_id: u64, donor: &Address) -> (r: Option<DonorRecord>)
    ensures
        r == (if env@.donors.contains_key((campaign_id, *donor)) {
            Some(env@.donors[(campaign_id, *donor)])
        } else {
            None::<DonorRecord>
        }),
{
    match find_donor(&env.donors, campaign_id, donor) {
        Some(i) => {
            proof {
                lemma_entries_map_present(
                    env.donors@,
                    donor_key(),
                    donor_val(),
                    (campaign_id, *donor),
                    i as int,
                );
            }
            Some(env.donors[i].record)
        },
        None => {
            proof {
                lemma_entries_map_absent(env.donors@, donor_key(), donor_val(), (campaign_id, *donor));
            }
            None
        },
    }
}

/// Store the donor record of `donor` for campaign `campaign_id`.
pub fn set_donor(env: &mut RegistryEnv, campaign_id: u64, donor: &Address, record: &DonorRecord)
    ensures
        final(env)@ == (RegistryState {
            donors: old(env)@.donors.insert((campaign_id, *donor), *record),
            ..old(env)@
        }),
{
    let entry = DonorEntry { campaign_id, donor: *donor, record: *record };
    let ghost s = env.donors@;
    match find_donor(&env.donors, campaign_id, donor) {
        Some(i) => {
            env.donors.set(i, entry);
            proof {
                lemma_entries_map_update(s, donor_key(), donor_val(), i as int, entry);
            }
        },
        None => {
            env.donors.push(entry);
            proof {
                lemma_entries_map_push(s, donor_key(), donor_val(), entry);
            }
        },
    }
}

/// A read gives back what the last write stored: after `set_campaign`,
/// `get_campaign` of its ID yields the record written and every other ID
/// reads as before; likewise for `set_donor` and `get_donor`.
pub proof fn reads_return_last_write(s: RegistryState, c: CampaignView, key: (u64, Address), d: DonorRecord)
    ensures
        ({
            let s1 = RegistryState { campaigns: s.campaigns.insert(c.id, c), ..s };
            &&& s1.campaigns.contains_key(c.id) && s1.campaigns[c.id] == c
            &&& forall|id: u64| id != c.id ==> (#[trigger] s1.campaigns.contains_key(id)
                == s.campaigns.contains_key(id) && s1.campaigns[id] == s.campaigns[id])
        }),
        ({
            let s1 = RegistryState { donors: s.donors.insert(key, d), ..s };
            &&& s1.donors.contains_key(key) && s1.donors[key] == d
            &&& forall|k: (u64, Address)| k != key ==> (#[trigger] s1.donors.contains_key(k)
                == s.donors.contains_key(k) && s1.donors[k] == s.donors[k])
        }),
{
}

} // verus!
