//! The StellarAid contract: campaigns with a fixed per-donation fee,
//! per-asset raised totals and a paginated donation history.
use crate::keyed::{
    entries_map, last_with_key, lemma_entries_map_absent, lemma_entries_map_present,
    lemma_entries_map_push, lemma_entries_map_update, no_key,
};
use crate::types::Address;
use vstd::prelude::*;

verus! {

/// Stellar base fee in stroops deducted from every donation
/// (1 XLM = 10_000_000 stroops).
pub const BASE_FEE: i128 = 100;

/// A short symbol (asset code or campaign title), held as its bytes.
pub struct Symbol {
    pub bytes: Vec<u8>,
}

impl View for Symbol {
    type V = Seq<u8>;

    open spec fn view(&self) -> Seq<u8> {
        self.bytes@
    }
}

impl Clone for Symbol {
    fn clone(&self) -> (r: Self)
        ensures
            r@ == self@,
    {
        Symbol { bytes: self.bytes.clone() }
    }
}

/// Byte-wise equality of two symbols.
pub fn symbol_eq(a: &Symbol, b: &Symbol) -> (r: bool)
    ensures
        r == (a@ == b@),
{
    if a.bytes.len() != b.bytes.len() {
        return false;
    }
    let mut i: usize = 0;
    while i < a.bytes.len()
        invariant
            i <= a@.len(),
            a@.len() == b@.len(),
            forall|j: int| 0 <= j < i ==> a@[j] == b@[j],
        decreases a.bytes.len() - i,
    {
        if a.bytes[i] != b.bytes[i] {
            return false;
        }
        i = i + 1;
    }
    assert(a@ =~= b@);
    true
}

/// Abstract value of a `Campaign`.
pub struct CampaignView {
    pub id: u64,
    pub creator: Address,
    pub title: Seq<u8>,
    pub goal: i128,
    pub raised: i128,
    pub deadline: u64,
    pub active: bool,
}

/// A campaign of the StellarAid contract.
pub struct Campaign {
    pub id: u64,
    pub creator: Address,
    pub title: Symbol,
    pub goal: i128,
    pub raised: i128,
    pub deadline: u64,
    pub active: bool,
}

impl View for Campaign {
    type V = CampaignView;

    open spec fn view(&self) -> CampaignView {
        CampaignView {
            id: self.id,
            creator: self.creator,
            title: self.title@,
            goal: self.goal,
            raised: self.raised,
            deadline: self.deadline,
            active: self.active,
        }
    }
}

impl Clone for Campaign {
    fn clone(&self) -> (r: Self)
        ensures
            r@ == self@,
    {
        Campaign {
            id: self.id,
            creator: self.creator,
            title: self.title.clone(),
            goal: self.goal,
            raised: self.raised,
            deadline: self.deadline,
            active: self.active,
        }
    }
}

/// Abstract value of a `DonationRecord`.
pub struct DonationView {
    pub donor: Address,
    pub amount: i128,
    pub fee: i128,
    pub asset: Seq<u8>,
    pub timestamp: u64,
}

/// One entry in a campaign's donation history.
pub struct DonationRecord {
    pub donor: Address,
    /// Net amount after fee.
    pub amount: i128,
    pub fee: i128,
    pub asset: Symbol,
    pub timestamp: u64,
}

impl View for DonationRecord {
    type V = DonationView;

    open spec fn view(&self) -> DonationView {
        DonationView {
            donor: self.donor,
            amount: self.amount,
            fee: self.fee,
            asset: self.asset@,
            timestamp: self.timestamp,
        }
    }
}

impl Clone for DonationRecord {
    fn clone(&self) -> (r: Self)
        ensures
            r@ == self@,
    {
        DonationRecord {
            donor: self.donor,
            amount: self.amount,
            fee: self.fee,
            asset: self.asset.clone(),
            timestamp: self.timestamp,
        }
    }
}

/// The abstract values of a list of donation records.
pub open spec fn records_view(v: Seq<DonationRecord>) -> Seq<DonationView> {
    v.map_values(|r: DonationRecord| r@)
}

/// Stored per-campaign, per-asset raised total.
pub struct AssetRaisedEntry {
    pub campaign_id: u64,
    pub asset: Symbol,
    pub total: i128,
}

/// Stored donation history of one campaign.
pub struct HistoryEntry {
    pub campaign_id: u64,
    pub records: Vec<DonationRecord>,
}

/// Why a donation is refused.
#[derive(Clone, Copy, Debug, PartialEq, Eq, Structural)]
pub enum DonateError {
    /// The asset symbol is empty ("Asset must be specified").
    AssetNotSpecified,
    /// The amount does not exceed the base fee ("Amount must exceed the base fee").
    AmountNotAboveFee,
    /// No campaign has this ID ("Campaign not found").
    CampaignNotFound,
    /// The campaign is not active ("Campaign is not active").
    CampaignNotActive,
}

/// The contract environment of one StellarAid instance: the ledger time,
/// instance storage (admin, campaign counter) and persistent storage
/// (campaigns, per-asset totals, histories), kept as keyed entry lists in
/// which a later entry takes precedence.
pub struct AidEnv {
    pub timestamp: u64,
    pub admin: Option<Address>,
    /// Stored campaign counter; `0` when nothing was stored.
    pub count: u64,
    pub campaigns: Vec<Campaign>,
    pub asset_raised: Vec<AssetRaisedEntry>,
    pub history: Vec<HistoryEntry>,
}

/// Abstract value of an `AidEnv`.
pub struct AidState {
    pub timestamp: u64,
    pub admin: Option<Address>,
    pub count: u64,
    pub campaigns: Map<u64, CampaignView>,
    pub asset_raised: Map<(u64, Seq<u8>), i128>,
    pub history: Map<u64, Seq<DonationView>>,
}

pub open spec fn aid_campaign_key() -> spec_fn(Campaign) -> u64 {
    |c: Campaign| c.id
}

pub open spec fn aid_campaign_val() -> spec_fn(Campaign) -> CampaignView {
    |c: Campaign| c@
}

pub open spec fn raised_key() -> spec_fn(AssetRaisedEntry) -> (u64, Seq<u8>) {
    |e: AssetRaisedEntry| (e.campaign_id, e.asset@)
}

pub open spec fn raised_val() -> spec_fn(AssetRaisedEntry) -> i128 {
    |e: AssetRaisedEntry| e.total
}

pub open spec fn history_key() -> spec_fn(HistoryEntry) -> u64 {
    |e: HistoryEntry| e.campaign_id
}

pub open spec fn history_val() -> spec_fn(HistoryEntry) -> Seq<DonationView> {
    |e: HistoryEntry| records_view(e.records@)
}

impl View for AidEnv {
    type V = AidState;

    open spec fn view(&self) -> AidState {
        AidState {
            timestamp: self.timestamp,
            admin: self.admin,
            count: self.count,
            campaigns: entries_map(self.campaigns@, aid_campaign_key(), aid_campaign_val()),
            asset_raised: entries_map(self.asset_raised@, raised_key(), raised_val()),
            history: entries_map(self.history@, history_key(), history_val()),
        }
    }
}

impl AidEnv {
    /// A fresh, uninitialized instance at the given ledger time.
    pub fn new(timestamp: u64) -> (env: Self)
        ensures
            env@ == (AidState {
                timestamp,
                admin: None,
                count: 0,
                campaigns: Map::empty(),
                asset_raised: Map::empty(),
                history: Map::empty(),
            }),
    {
        let env = AidEnv {
            timestamp,
            admin: None,
            count: 0,
            campaigns: Vec::new(),
            asset_raised: Vec::new(),
            history: Vec::new(),
        };
        assert(env@.campaigns =~= Map::empty());
        assert(env@.asset_raised =~= Map::empty());
        assert(env@.history =~= Map::empty());
        env
    }
}

// ─── Specification ───────────────────────────────────────────────────────────
/// The per-asset total raised for `(campaign_id, asset)`; `0` when none is
/// stored.
pub open spec fn asset_total(s: AidState, campaign_id: u64, asset: Seq<u8>) -> i128 {
    if s.asset_raised.contains_key((campaign_id, asset)) {
        s.asset_raised[(campaign_id, asset)]
    } else {
        0
    }
}

/// The donation history of `campaign_id`; empty when none is stored.
pub open spec fn history_of(s: AidState, campaign_id: u64) -> Seq<DonationView> {
    if s.history.contains_key(campaign_id) {
        s.history[campaign_id]
    } else {
        Seq::empty()
    }
}

/// Why `donate` refuses a donation, if it does; the checks come in this
/// order.
pub open spec fn aid_donate_error(s: AidState, campaign_id: u64, amount: i128, asset: Seq<u8>) -> Option<
    DonateError,
> {
    if asset.len() == 0 {
        Some(DonateError::AssetNotSpecified)
    } else if amount <= BASE_FEE {
        Some(DonateError::AmountNotAboveFee)
    } else if !s.campaigns.contains_key(campaign_id) {
        Some(DonateError::CampaignNotFound)
    } else if !s.campaigns[campaign_id].active {
        Some(DonateError::CampaignNotActive)
    } else {
        None
    }
}

/// An accepted donation keeps the campaign total and the per-asset total
/// within `i128` (the contract traps otherwise).
pub open spec fn donation_fits(s: AidState, campaign_id: u64, amount: i128, asset: Seq<u8>) -> bool {
    aid_donate_error(s, campaign_id, amount, asset) is None ==> {
        &&& s.campaigns[campaign_id].raised + (amount - BASE_FEE) <= i128::MAX
        &&& asset_total(s, campaign_id, asset) + (amount - BASE_FEE) <= i128::MAX
    }
}

/// The state after an accepted donation.
pub open spec fn aid_donated(s: AidState, donor: Address, campaign_id: u64, amount: i128, asset: Seq<u8>) -> AidState {
    let net = (amount - BASE_FEE) as i128;
    let c = s.campaigns[campaign_id];
    AidState {
        campaigns: s.campaigns.insert(campaign_id, CampaignView { raised: (c.raised + net) as i128, ..c }),
        asset_raised: s.asset_raised.insert(
            (campaign_id, asset),
            (asset_total(s, campaign_id, asset) + net) as i128,
        ),
        history: s.history.insert(
            campaign_id,
            history_of(s, campaign_id).push(
                DonationView { donor, amount: net, fee: BASE_FEE, asset, timestamp: s.timestamp },
            ),
        ),
        ..s
    }
}

/// The records of page `page` (0-indexed) of size `page_size` of `history`:
/// those at positions `page * page_size` up to, excluding,
/// `min(page * page_size + page_size, history.len())`.
pub open spec fn page_of(history: Seq<DonationView>, page: u32, page_size: u32) -> Seq<DonationView> {
    let start = page * page_size;
    if start >= history.len() {
        Seq::empty()
    } else {
        let end = if start + page_size <= history.len() {
            start + page_size
        } else {
            history.len() as int
        };
        history.subrange(start, end)
    }
}

/// The page arithmetic stays within `u32`, as the contract requires.
pub open spec fn page_fits(total: int, page: u32, page_size: u32) -> bool {
    &&& page * page_size <= u32::MAX
    &&& page * page_size < total ==> page * page_size + page_size <= u32::MAX
}

// ─── Storage helpers ─────────────────────────────────────────────────────────
fn find_aid_campaign(v: &Vec<Campaign>, id: u64) -> (r: Option<usize>)
    ensures
        match r {
            Some(i) => last_with_key(v@, aid_campaign_key(), id, i as int),
            None => no_key(v@, aid_campaign_key(), id),
        },
{
    let mut i: usize = v.len();
    while i > 0
        invariant
            i <= v@.len(),
            forall|j: int| i <= j < v@.len() ==> aid_campaign_key()(#[trigger] v@[j]) != id,
        decreases i,
    {
        i = i - 1;
        if v[i].id == id {
            return Some(i);
        }
    }
    None
}

fn find_asset_raised(v: &Vec<AssetRaisedEntry>, id: u64, asset: &Symbol) -> (r: Option<usize>)
    ensures
        match r {
            Some(i) => last_with_key(v@, raised_key(), (id, asset@), i as int),
            None => no_key(v@, raised_key(), (id, asset@)),
        },
{
    let mut i: usize = v.len();
    while i > 0
        invariant
            i <= v@.len(),
            forall|j: int| i <= j < v@.len() ==> raised_key()(#[trigger] v@[j]) != (id, asset@),
        decreases i,
    {
        i = i - 1;
        if v[i].campaign_id == id && symbol_eq(&v[i].asset, asset) {
            return Some(i);
        }
    }
    None
}

fn find_history(v: &Vec<HistoryEntry>, id: u64) -> (r: Option<usize>)
    ensures
        match r {
            Some(i) => last_with_key(v@, history_key(), id, i as int),
            None => no_key(v@, history_key(), id),
        },
{
    let mut i: usize = v.len();
    while i > 0
        invariant
            i <= v@.len(),
            forall|j: int| i <= j < v@.len() ==> history_key()(#[trigger] v@[j]) != id,
        decreases i,
    {
        i = i - 1;
        if v[i].campaign_id == id {
            return Some(i);
        }
    }
    None
}

fn store_campaign(env: &mut AidEnv, campaign: Campaign)
    ensures
        final(env)@ == (AidState {
            campaigns: old(env)@.campaigns.insert(campaign.id, campaign@),
            ..old(env)@
        }),
{
    let ghost s = env.campaigns@;
    let ghost c = campaign;
    match find_aid_campaign(&env.campaigns, campaign.id) {
        Some(i) => {
            env.campaigns.set(i, campaign);
            proof {
                lemma_entries_map_update(s, aid_campaign_key(), aid_campaign_val(), i as int, c);
            }
        },
        None => {
            env.campaigns.push(campaign);
            proof {
                lemma_entries_map_push(s, aid_campaign_key(), aid_campaign_val(), c);
            }
        },
    }
}

fn load_campaign(env: &AidEnv, id: u64) -> (r: Option<Campaign>)
    ensures
        r is Some <==> env@.campaigns.contains_key(id),
        r matches Some(c) ==> c@ == env@.campaigns[id] && c.id == id,
{
    match find_aid_campaign(&env.campaigns, id) {
        Some(i) => {
            proof {
                lemma_entries_map_present(env.campaigns@, aid_campaign_key(), aid_campaign_val(), id, i as int);
            }
            Some(env.campaigns[i].clone())
        },
        None => {
            proof {
                lemma_entries_map_absent(env.campaigns@, aid_campaign_key(), aid_campaign_val(), id);
            }
            None
        },
    }
}

fn load_asset_raised(env: &AidEnv, id: u64, asset: &Symbol) -> (r: i128)
    ensures
        r == asset_total(env@, id, asset@),
{
    match find_asset_raised(&env.asset_raised, id, asset) {
        Some(i) => {
            proof {
                lemma_entries_map_present(env.asset_raised@, raised_key(), raised_val(), (id, asset@), i as int);
            }
            env.asset_raised[i].total
        },
        None => {
            proof {
                lemma_entries_map_absent(env.asset_raised@, raised_key(), raised_val(), (id, asset@));
            }
            0
        },
    }
}

fn store_asset_raised(env: &mut AidEnv, id: u64, asset: Symbol, total: i128)
    ensures
        final(env)@ == (AidState {
            asset_raised: old(env)@.asset_raised.insert((id, asset@), total),
            ..old(env)@
        }),
{
    let ghost s = env.asset_raised@;
    let found = find_asset_raised(&env.asset_raised, id, &asset);
    let entry = AssetRaisedEntry { campaign_id: id, asset, total };
    match found {
        Some(i) => {
            env.asset_raised.set(i, entry);
            proof {
                lemma_entries_map_update(s, raised_key(), raised_val(), i as int, entry);
            }
        },
        None => {
            env.asset_raised.push(entry);
            proof {
                lemma_entries_map_push(s, raised_key(), raised_val(), entry);
            }
        },
    }
}

/// Copies a list of donation records, keeping its abstract value.
fn clone_records(v: &Vec<DonationRecord>) -> (r: Vec<DonationRecord>)
    ensures
        records_view(r@) == records_view(v@),
{
    let mut r: Vec<DonationRecord> = Vec::new();
    let mut i: usize = 0;
    while i < v.len()
        invariant
            i <= v@.len(),
            r@.len() == i,
            forall|j: int| 0 <= j < i ==> #[trigger] r@[j]@ == v@[j]@,
        decreases v.len() - i,
    {
        r.push(v[i].clone());
        i = i + 1;
    }
    assert(records_view(r@) =~= records_view(v@));
    r
}

fn load_history(env: &AidEnv, id: u64) -> (r: Vec<DonationRecord>)
    ensures
        records_view(r@) == history_of(env@, id),
{
    match find_history(&env.history, id) {
        Some(i) => {
            proof {
                lemma_entries_map_present(env.history@, history_key(), history_val(), id, i as int);
            }
            clone_records(&env.history[i].records)
        },
        None => {
            proof {
                lemma_entries_map_absent(env.history@, history_key(), history_val(), id);
            }
            let r: Vec<DonationRecord> = Vec::new();
            assert(records_view(r@) =~= Seq::empty());
            r
        },
    }
}

fn store_history(env: &mut AidEnv, id: u64, records: Vec<DonationRecord>)
    ensures
        final(env)@ == (AidState {
            history: old(env)@.history.insert(id, records_view(records@)),
            ..old(env)@
        }),
{
    let ghost s = env.history@;
    let entry = HistoryEntry { campaign_id: id, records };
    let ghost e = entry;
    match find_history(&env.history, id) {
        Some(i) => {
            env.history.set(i, entry);
            proof {
                lemma_entries_map_update(s, history_key(), history_val(), i as int, e);
            }
        },
        None => {
            env.history.push(entry);
            proof {
                lemma_entries_map_push(s, history_key(), history_val(), e);
            }
        },
    }
}

// ─── Contract ─────────────────────────────────────────────────────────────────
/// The StellarAid contract.
pub struct StellarAidContract;

impl StellarAidContract {
    /// Initialize the contract with its admin address; resets the campaign
    /// counter to 0.
    pub fn initialize(env: &mut AidEnv, admin: Address)
        ensures
            final(env)@ == (AidState { admin: Some(admin), count: 0, ..old(env)@ }),
    {
        env.admin = Some(admin);
        env.count = 0;
    }

    /// Ping method for health check.
    pub fn ping() -> (r: u32)
        ensures
            r == 1,
    {
        1
    }

    /// Create a new campaign with the next ID (counter plus one), active and
    /// with nothing raised; returns the ID.
    pub fn create_campaign(
        env: &mut AidEnv,
        creator: Address,
        title: Symbol,
        goal: i128,
        deadline: u64,
    ) -> (id: u64)
        requires
            old(env)@.count < u64::MAX,
        ensures
            id == old(env)@.count + 1,
            final(env)@ == (AidState {
                count: id,
                campaigns: old(env)@.campaigns.insert(
                    id,
                    CampaignView {
                        id,
                        creator,
                        title: title@,
                        goal,
                        raised: 0,
                        deadline,
                        active: true,
                    },
                ),
                ..old(env)@
            }),
    {
        let count = env.count + 1;
        let campaign = Campaign { id: count, creator, title, goal, raised: 0, deadline, active: true };
        store_campaign(env, campaign);
        env.count = count;
        count
    }

    /// Donate to a campaign: deducts `BASE_FEE` from `amount`, credits the
    /// net amount to the campaign and to its per-asset total, and appends a
    /// record to the campaign's donation history.
    pub fn donate(
        env: &mut AidEnv,
        donor: Address,
        campaign_id: u64,
        amount: i128,
        asset: Symbol,
    ) -> (r: Result<(), DonateError>)
        requires
            donation_fits(old(env)@, campaign_id, amount, asset@),
        ensures
            match aid_donate_error(old(env)@, campaign_id, amount, asset@) {
                Some(e) => r == Err::<(), DonateError>(e) && final(env)@ == old(env)@,
                None => r is Ok && final(env)@ == aid_donated(
                    old(env)@,
                    donor,
                    campaign_id,
                    amount,
                    asset@,
                ),
            },
    {
        if asset.bytes.len() == 0 {
            return Err(DonateError::AssetNotSpecified);
        }
        if amount <= BASE_FEE {
            return Err(DonateError::AmountNotAboveFee);
        }
        let mut campaign = match load_campaign(env, campaign_id) {
            Some(c) => c,
            None => {
                return Err(DonateError::CampaignNotFound);
            },
        };
        if !campaign.active {
            return Err(DonateError::CampaignNotActive);
        }
        let ghost s = env@;
        let ghost a = asset@;
        assert(aid_donate_error(s, campaign_id, amount, a) is None);
        let fee = BASE_FEE;
        let net = amount - fee;
        campaign.raised = campaign.raised + net;
        let ghost c2 = campaign@;
        store_campaign(env, campaign);
        assert(env@.campaigns == s.campaigns.insert(campaign_id, c2));
        let prev_asset_raised = load_asset_raised(env, campaign_id, &asset);
        let record = DonationRecord {
            donor,
            amount: net,
            fee,
            asset: asset.clone(),
            timestamp: env.timestamp,
        };
        store_asset_raised(env, campaign_id, asset, prev_asset_raised + net);
        let mut history = load_history(env, campaign_id);
        let ghost h = history@;
        let ghost rec = record;
        history.push(record);
        assert(records_view(history@) =~= records_view(h).push(rec@));
        store_history(env, campaign_id, history);
        assert(env@.campaigns =~= aid_donated(s, donor, campaign_id, amount, a).campaigns);
        Ok(())
    }

    /// Get campaign details.
    pub fn get_campaign(env: &AidEnv, campaign_id: u64) -> (r: Option<Campaign>)
        ensures
            r is Some <==> env@.campaigns.contains_key(campaign_id),
            r matches Some(c) ==> c@ == env@.campaigns[campaign_id],
    {
        load_campaign(env, campaign_id)
    }

    /// Total raised for a specific asset on a campaign (`0` if none).
    pub fn get_asset_raised(env: &AidEnv, campaign_id: u64, asset: &Symbol) -> (r: i128)
        ensures
            r == asset_total(env@, campaign_id, asset@),
    {
        load_asset_raised(env, campaign_id, asset)
    }

    /// The fee deducted from every donation, so callers can calculate it
    /// upfront.
    pub fn get_base_fee() -> (r: i128)
        ensures
            r == BASE_FEE,
    {
        BASE_FEE
    }

    /// Paginated donation history for a campaign: `page` is 0-indexed and
    /// the result holds up to `page_size` records.
    pub fn get_donation_history(env: &AidEnv, campaign_id: u64, page: u32, page_size: u32) -> (r: Vec<
        DonationRecord,
    >)
        requires
            page_fits(history_of(env@, campaign_id).len() as int, page, page_size),
            history_of(env@, campaign_id).len() <= u32::MAX,
        ensures
            records_view(r@) == page_of(history_of(env@, campaign_id), page, page_size),
    {
        let history = load_history(env, campaign_id);
        proof {
            assert(records_view(history@).len() == history@.len());
        }
        let total = history.len() as u32;
        let start = page * page_size;
        if start >= total {
            let r: Vec<DonationRecord> = Vec::new();
            assert(records_view(r@) =~= Seq::empty());
            return r;
        }
        let end = if start + page_size < total {
            start + page_size
        } else {
            total
        };
        let mut page_records: Vec<DonationRecord> = Vec::new();
        let mut i: u32 = start;
        while i < end
            invariant
                start <= i <= end,
                end <= total,
                total as int == history@.len(),
                page_records@.len() == i - start,
                forall|j: int| 0 <= j < i - start ==> #[trigger] page_records@[j]@ == history@[start + j]@,
            decreases end - i,
        {
            page_records.push(history[i as usize].clone());
            i = i + 1;
        }
        let ghost hv = records_view(history@);
        assert(records_view(page_records@) =~= hv.subrange(start as int, end as int));
        page_records
    }

    /// Get the admin address, if initialized.
    pub fn get_admin(env: &AidEnv) -> (r: Option<Address>)
        ensures
            r == env@.admin,
    {
        env.admin
    }
}

// ─── Authorization ───────────────────────────────────────────────────────────
/// A StellarAid call that needs an authorization.
#[derive(Clone, Copy, Debug, PartialEq, Eq, Structural)]
pub enum AidCall {
    Initialize { admin: Address },
    CreateCampaign { creator: Address },
    Donate { donor: Address, campaign_id: u64 },
}

/// The address that must authorize `call`: the admin being installed, the
/// campaign's creator, or the donor.
pub open spec fn aid_signer_spec(call: AidCall) -> Address {
    match call {
        AidCall::Initialize { admin } => admin,
        AidCall::CreateCampaign { creator } => creator,
        AidCall::Donate { donor, .. } => donor,
    }
}

impl StellarAidContract {
    /// The address whose authorization `call` needs before it runs.
    pub fn required_signer(call: &AidCall) -> (r: Address)
        ensures
            r == aid_signer_spec(*call),
    {
        match call {
            AidCall::Initialize { admin } => *admin,
            AidCall::CreateCampaign { creator } => *creator,
            AidCall::Donate { donor, .. } => *donor,
        }
    }
}

// ─── Laws ─────────────────────────────────────────────────────────────────────
/// `x` clamped to the range `0..=len`.
pub open spec fn clamp(x: int, len: int) -> int {
    if x < 0 {
        0
    } else if x > len {
        len
    } else {
        x
    }
}

/// Pages are consecutive windows of the history: page `p` of size `k` holds
/// the records from `p * k` up to `p * k + k` (clamped to the history), so
/// page `p + 1` starts exactly where page `p` ends and together they hold
/// the records from `p * k` up to `p * k + 2 * k`.
pub proof fn pages_are_consecutive_windows(h: Seq<DonationView>, p: u32, k: u32)
    requires
        p < u32::MAX,
    ensures
        page_of(h, p, k) == h.subrange(clamp(p * k, h.len() as int), clamp(p * k + k, h.len() as int)),
        page_of(h, (p + 1) as u32, k) == h.subrange(
            clamp(p * k + k, h.len() as int),
            clamp(p * k + 2 * k, h.len() as int),
        ),
        page_of(h, p, k) + page_of(h, (p + 1) as u32, k) == h.subrange(
            clamp(p * k, h.len() as int),
            clamp(p * k + 2 * k, h.len() as int),
        ),
{
    let q = (p + 1) as u32;
    assert(q * k == p * k + k) by (nonlinear_arith)
        requires
            q == p + 1,
    ;
    assert(p * k >= 0) by (nonlinear_arith);
    let len = h.len() as int;
    assert(page_of(h, p, k) =~= h.subrange(clamp(p * k, len), clamp(p * k + k, len)));
    assert(page_of(h, q, k) =~= h.subrange(clamp(p * k + k, len), clamp(p * k + 2 * k, len)));
    assert(page_of(h, p, k) + page_of(h, q, k) =~= h.subrange(
        clamp(p * k, len),
        clamp(p * k + 2 * k, len),
    ));
}

/// Every accepted donation splits into the fee and the net amount: the
/// campaign total and the per-asset total grow by exactly `amount - BASE_FEE`,
/// and the history gains one record holding that net amount and the fee,
/// which add up to the donated amount.
pub proof fn donation_splits_into_fee_and_net(
    s: AidState,
    donor: Address,
    campaign_id: u64,
    amount: i128,
    asset: Seq<u8>,
)
    requires
        donation_fits(s, campaign_id, amount, asset),
        aid_donate_error(s, campaign_id, amount, asset) is None,
    ensures
        ({
            let s2 = aid_donated(s, donor, campaign_id, amount, asset);
            let rec = history_of(s2, campaign_id).last();
            &&& s2.campaigns[campaign_id].raised == s.campaigns[campaign_id].raised + amount - BASE_FEE
            &&& asset_total(s2, campaign_id, asset) == asset_total(s, campaign_id, asset) + amount
                - BASE_FEE
            &&& history_of(s2, campaign_id).len() == history_of(s, campaign_id).len() + 1
            &&& rec.amount + rec.fee == amount
            &&& rec.fee == BASE_FEE
            &&& rec.donor == donor
            &&& rec.asset == asset
        }),
{
}

/// A donation is refused exactly for an empty asset, an amount not above the
/// fee, an unknown campaign or an inactive one. An accepted donation changes
/// the stored campaign only in its raised total, which grows by
/// `amount - BASE_FEE` (ID, creator, title, goal, deadline and the active
/// flag stay as they were, whatever the new total), leaves every other
/// campaign as it was, and so a following donation to the same campaign
/// (non-empty asset, amount above the fee) is accepted as well.
pub proof fn donations_change_only_the_raised_total(
    s: AidState,
    donor: Address,
    campaign_id: u64,
    amount: i128,
    asset: Seq<u8>,
    next_amount: i128,
    next_asset: Seq<u8>,
)
    ensures
        aid_donate_error(s, campaign_id, amount, asset) is None <==> (asset.len() > 0 && amount
            > BASE_FEE && s.campaigns.contains_key(campaign_id) && s.campaigns[campaign_id].active),
        aid_donate_error(s, campaign_id, amount, asset) is None && donation_fits(
            s,
            campaign_id,
            amount,
            asset,
        ) ==> ({
            let s2 = aid_donated(s, donor, campaign_id, amount, asset);
            let c = s.campaigns[campaign_id];
            let c2 = s2.campaigns[campaign_id];
            &&& s2.campaigns.contains_key(campaign_id)
            &&& c2.id == c.id
            &&& c2.creator == c.creator
            &&& c2.title == c.title
            &&& c2.goal == c.goal
            &&& c2.deadline == c.deadline
            &&& c2.active == c.active
            &&& c2.raised == c.raised + amount - BASE_FEE
            &&& forall|j: u64| j != campaign_id ==> (#[trigger] s2.campaigns.contains_key(j)
                == s.campaigns.contains_key(j) && s2.campaigns[j] == s.campaigns[j])
            &&& (next_asset.len() > 0 && next_amount > BASE_FEE) ==> aid_donate_error(
                s2,
                campaign_id,
                next_amount,
                next_asset,
            ) is None
        }),
{
}

/// The refusals come in this order: an empty asset (`AssetNotSpecified`),
/// an amount not above the fee (`AmountNotAboveFee`), an unknown campaign
/// (`CampaignNotFound`), an inactive one (`CampaignNotActive`).
pub proof fn aid_donation_rejections(s: AidState, campaign_id: u64, amount: i128, asset: Seq<u8>)
    ensures
        asset.len() == 0 ==> aid_donate_error(s, campaign_id, amount, asset) == Some(
            DonateError::AssetNotSpecified,
        ),
        asset.len() > 0 && amount <= 100 ==> aid_donate_error(s, campaign_id, amount, asset) == Some(
            DonateError::AmountNotAboveFee,
        ),
        asset.len() > 0 && amount > 100 && !s.campaigns.contains_key(campaign_id)
            ==> aid_donate_error(s, campaign_id, amount, asset) == Some(DonateError::CampaignNotFound),
        asset.len() > 0 && amount > 100 && s.campaigns.contains_key(campaign_id)
            && !s.campaigns[campaign_id].active ==> aid_donate_error(s, campaign_id, amount, asset)
            == Some(DonateError::CampaignNotActive),
{
}

} // verus!
