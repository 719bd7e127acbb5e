//! Types of the multi-campaign registry: error codes, the campaign lifecycle,
//! assets, campaign and donor records.
use vstd::prelude::*;

verus! {

// ─── Error enum ───────────────────────────────────────────────────────────────
/// Canonical typed error codes of the campaigns registry. Each variant has a
/// stable wire code, given by `as_wire_code`.
#[derive(Clone, Copy, Debug, PartialEq, Eq, Structural)]
pub enum Error {
    /// The campaign deadline has already passed (wire code 4).
    CampaignEnded,
    /// Operation requires the campaign to be `Active` or `GoalReached` (5).
    CampaignNotActive,
    /// Donated asset is not in the campaign's accepted assets list (6).
    AssetNotAccepted,
    /// Donation amount is <= 0, or below the campaign's minimum threshold (7).
    DonationTooSmall,
    /// `goal_amount` must be strictly positive (13).
    InvalidGoalAmount,
    /// `end_time` must be strictly greater than the current ledger timestamp (14).
    InvalidEndTime,
    /// A checked arithmetic operation overflowed (17).
    Overflow,
    /// `accepted_assets` must be non-empty (18).
    InvalidAssets,
    /// `asset_code` must be non-empty and <= 12 bytes (19).
    InvalidAssetCode,
    /// The requested campaign status transition is not permitted (22).
    InvalidCampaignTransition,
    /// No campaign exists with the given ID (27).
    CampaignNotFound,
    /// The per-instance campaign limit has been reached (28).
    MaxCampaignsExceeded,
}

/// The stable wire code of each error variant.
pub open spec fn wire_code(e: Error) -> u32 {
    match e {
        Error::CampaignEnded => 4,
        Error::CampaignNotActive => 5,
        Error::AssetNotAccepted => 6,
        Error::DonationTooSmall => 7,
        Error::InvalidGoalAmount => 13,
        Error::InvalidEndTime => 14,
        Error::Overflow => 17,
        Error::InvalidAssets => 18,
        Error::InvalidAssetCode => 19,
        Error::InvalidCampaignTransition => 22,
        Error::CampaignNotFound => 27,
        Error::MaxCampaignsExceeded => 28,
    }
}

impl Error {
    /// Returns the stable on-chain wire code for this error variant.
    pub fn as_wire_code(self) -> (code: u32)
        ensures
            code == wire_code(self),
    {
        match self {
            Error::CampaignEnded => 4,
            Error::CampaignNotActive => 5,
            Error::AssetNotAccepted => 6,
            Error::DonationTooSmall => 7,
            Error::InvalidGoalAmount => 13,
            Error::InvalidEndTime => 14,
            Error::Overflow => 17,
            Error::InvalidAssets => 18,
            Error::InvalidAssetCode => 19,
            Error::InvalidCampaignTransition => 22,
            Error::CampaignNotFound => 27,
            Error::MaxCampaignsExceeded => 28,
        }
    }
}

/// `e` occurs in the table.
pub open spec fn table_lists(table: Seq<(Error, u32)>, e: Error) -> bool {
    exists|i: int| 0 <= i < table.len() && #[trigger] table[i].0 == e
}

/// Canonical wire-code table for every variant of `Error`, in ascending code
/// order.
pub fn wire_code_table() -> (table: Vec<(Error, u32)>)
    ensures
        table@.len() == 12,
        forall|i: int| 0 <= i < table@.len() ==> #[trigger] table@[i].1 == wire_code(table@[i].0),
        forall|i: int, j: int| 0 <= i < j < table@.len() ==> table@[i].1 < table@[j].1,
        forall|e: Error| #[trigger] table_lists(table@, e),
{
    let table = vec![
        (Error::CampaignEnded, 4u32),
        (Error::CampaignNotActive, 5u32),
        (Error::AssetNotAccepted, 6u32),
        (Error::DonationTooSmall, 7u32),
        (Error::InvalidGoalAmount, 13u32),
        (Error::InvalidEndTime, 14u32),
        (Error::Overflow, 17u32),
        (Error::InvalidAssets, 18u32),
        (Error::InvalidAssetCode, 19u32),
        (Error::InvalidCampaignTransition, 22u32),
        (Error::CampaignNotFound, 27u32),
        (Error::MaxCampaignsExceeded, 28u32),
    ];
    assert forall|e: Error| #[trigger] table_lists(table@, e) by {
        match e {
            Error::CampaignEnded => assert(table@[0].0 == e),
            Error::CampaignNotActive => assert(table@[1].0 == e),
            Error::AssetNotAccepted => assert(table@[2].0 == e),
            Error::DonationTooSmall => assert(table@[3].0 == e),
            Error::InvalidGoalAmount => assert(table@[4].0 == e),
            Error::InvalidEndTime => assert(table@[5].0 == e),
            Error::Overflow => assert(table@[6].0 == e),
            Error::InvalidAssets => assert(table@[7].0 == e),
            Error::InvalidAssetCode => assert(table@[8].0 == e),
            Error::InvalidCampaignTransition => assert(table@[9].0 == e),
            Error::CampaignNotFound => assert(table@[10].0 == e),
            Error::MaxCampaignsExceeded => assert(table@[11].0 == e),
        }
    }
    table
}

/// Distinct error variants have distinct wire codes, so one lookup table can
/// decode every code.
pub proof fn wire_codes_are_distinct(a: Error, b: Error)
    ensures
        a != b ==> wire_code(a) != wire_code(b),
{
}

// ─── Campaign lifecycle ───────────────────────────────────────────────────────
/// Campaign status with documented transition rules.
///
/// ```text
/// Active ──► GoalReached ──► Ended ──► Cancelled
///   │              │           ▲
///   └──────────────┴───────────┘  (deadline passes in any non-terminal state)
///   │
///   └──► Cancelled  (creator at any point before Ended)
/// ```
#[derive(Clone, Copy, Debug, PartialEq, Eq, Structural)]
pub enum CampaignStatus {
    /// Campaign is open and accepting donations.
    Active,
    /// Goal amount reached; still accepting donations until deadline.
    GoalReached,
    /// Deadline passed or campaign concluded normally.
    Ended,
    /// Creator cancelled the campaign; terminal state.
    Cancelled,
}

/// The statuses in which donations are accepted.
pub open spec fn accepts_donations_spec(s: CampaignStatus) -> bool {
    s is Active || s is GoalReached
}

/// The permitted status transitions of the campaign lifecycle.
pub open spec fn transition_allowed(from: CampaignStatus, to: CampaignStatus) -> bool {
    match (from, to) {
        (CampaignStatus::Active, CampaignStatus::GoalReached) => true,
        (CampaignStatus::Active, CampaignStatus::Ended) => true,
        (CampaignStatus::Active, CampaignStatus::Cancelled) => true,
        (CampaignStatus::GoalReached, CampaignStatus::Ended) => true,
        (CampaignStatus::GoalReached, CampaignStatus::Cancelled) => true,
        (CampaignStatus::Ended, CampaignStatus::Cancelled) => true,
        _ => false,
    }
}

impl CampaignStatus {
    /// Returns `true` when donations are accepted.
    pub fn accepts_donations(self) -> (r: bool)
        ensures
            r == accepts_donations_spec(self),
    {
        match self {
            CampaignStatus::Active | CampaignStatus::GoalReached => true,
            _ => false,
        }
    }
}

/// Validate a proposed status transition: `Ok` exactly for the permitted
/// transitions, `InvalidCampaignTransition` for every other pair.
pub fn validate_campaign_transition(current_status: &CampaignStatus, next_status: &CampaignStatus) -> (r:
    Result<(), Error>)
    ensures
        r is Ok <==> transition_allowed(*current_status, *next_status),
        r is Err ==> r == Err::<(), Error>(Error::InvalidCampaignTransition),
{
    match (current_status, next_status) {
        (CampaignStatus::Active, CampaignStatus::GoalReached) => Ok(()),
        (CampaignStatus::Active, CampaignStatus::Ended) => Ok(()),
        (CampaignStatus::Active, CampaignStatus::Cancelled) => Ok(()),
        (CampaignStatus::GoalReached, CampaignStatus::Ended) => Ok(()),
        (CampaignStatus::GoalReached, CampaignStatus::Cancelled) => Ok(()),
        (CampaignStatus::Ended, CampaignStatus::Cancelled) => Ok(()),
        _ => Err(Error::InvalidCampaignTransition),
    }
}

/// The lifecycle never leaves `Cancelled`, and no status can be re-entered:
/// every permitted transition moves strictly forward along
/// Active < GoalReached < Ended < Cancelled.
pub proof fn transitions_move_forward(from: CampaignStatus, to: CampaignStatus)
    ensures
        transition_allowed(from, to) ==> status_rank(from) < status_rank(to),
        !transition_allowed(CampaignStatus::Cancelled, to),
{
}

/// Position of a status along the lifecycle.
pub open spec fn status_rank(s: CampaignStatus) -> int {
    match s {
        CampaignStatus::Active => 0,
        CampaignStatus::GoalReached => 1,
        CampaignStatus::Ended => 2,
        CampaignStatus::Cancelled => 3,
    }
}

// ─── Addresses and assets ────────────────────────────────────────────────────
/// The two kinds of on-chain address.
#[derive(Clone, Copy, Debug, PartialEq, Eq, Structural)]
pub enum AddressKind {
    /// An account, identified by its ed25519 public key.
    Account,
    /// A contract, identified by its contract id hash.
    Contract,
}

/// An on-chain address: its kind and its 32-byte key, held as two 128-bit
/// halves (most significant half first).
#[derive(Clone, Copy, Debug, PartialEq, Eq, Structural)]
pub struct Address {
    pub kind: AddressKind,
    pub key_hi: u128,
    pub key_lo: u128,
}

/// Abstract value of a `StellarAsset`.
pub struct AssetView {
    pub code: Seq<u8>,
    pub issuer: Option<Address>,
}

/// A Stellar asset descriptor accepted by a campaign.
pub struct StellarAsset {
    /// Asset code bytes (e.g. `"XLM"`, `"USDC"`).
    pub asset_code: Vec<u8>,
    /// Token contract address. `None` only for native XLM.
    pub issuer: Option<Address>,
}

impl View for StellarAsset {
    type V = AssetView;

    open spec fn view(&self) -> AssetView {
        AssetView { code: self.asset_code@, issuer: self.issuer }
    }
}

impl Clone for StellarAsset {
    fn clone(&self) -> (r: Self)
        ensures
            r@ == self@,
    {
        StellarAsset { asset_code: self.asset_code.clone(), issuer: self.issuer }
    }
}

/// An asset code is valid when it is non-empty and at most 12 bytes long.
pub open spec fn valid_code(code: Seq<u8>) -> bool {
    0 < code.len() <= 12
}

impl StellarAsset {
    /// Returns `true` when the asset code is non-empty and <= 12 bytes.
    pub fn has_valid_code(&self) -> (r: bool)
        ensures
            r == valid_code(self@.code),
    {
        let len = self.asset_code.len();
        len > 0 && len <= 12
    }
}

/// Donation asset selector passed by the donor at call time.
#[derive(Clone, Copy, Debug, PartialEq, Eq, Structural)]
pub enum AssetInfo {
    Native,
    Stellar(Address),
}

// ─── Campaign metadata (create_campaign input) ────────────────────────────────
/// Abstract value of `CampaignMetadata`.
pub struct MetadataView {
    pub goal_amount: i128,
    pub end_time: u64,
    pub accepted_assets: Seq<AssetView>,
    pub min_donation_amount: i128,
}

/// Creation parameters for a new campaign.
pub struct CampaignMetadata {
    /// Total funding target in stroops / base units.
    pub goal_amount: i128,
    /// UNIX timestamp (seconds) after which new donations are rejected.
    pub end_time: u64,
    /// Ordered list of accepted tokens; must be non-empty.
    pub accepted_assets: Vec<StellarAsset>,
    /// Donations below this amount are rejected. `0` disables the check.
    pub min_donation_amount: i128,
}

/// The abstract values of a list of assets.
pub open spec fn assets_view(v: Seq<StellarAsset>) -> Seq<AssetView> {
    v.map_values(|a: StellarAsset| a@)
}

impl View for CampaignMetadata {
    type V = MetadataView;

    open spec fn view(&self) -> MetadataView {
        MetadataView {
            goal_amount: self.goal_amount,
            end_time: self.end_time,
            accepted_assets: assets_view(self.accepted_assets@),
            min_donation_amount: self.min_donation_amount,
        }
    }
}

// ─── Campaign record (per-ID storage) ─────────────────────────────────────────
/// Abstract value of a `CampaignRecord`.
pub struct CampaignView {
    pub id: u64,
    pub creator: Address,
    pub goal_amount: i128,
    pub raised_amount: i128,
    pub end_time: u64,
    pub status: CampaignStatus,
    pub accepted_assets: Seq<AssetView>,
    pub min_donation_amount: i128,
    pub created_at_ledger: u32,
    pub created_at_time: u64,
    pub concluded_at_ledger: Option<u32>,
    pub donation_count: u64,
}

/// Per-campaign configuration and runtime state.
pub struct CampaignRecord {
    /// Unique campaign ID, assigned sequentially starting at 1.
    pub id: u64,
    /// Address that created the campaign and holds creator privileges.
    pub creator: Address,
    pub goal_amount: i128,
    pub raised_amount: i128,
    pub end_time: u64,
    pub status: CampaignStatus,
    pub accepted_assets: Vec<StellarAsset>,
    pub min_donation_amount: i128,
    pub created_at_ledger: u32,
    pub created_at_time: u64,
    pub concluded_at_ledger: Option<u32>,
    /// Total number of accepted donation calls for this campaign.
    pub donation_count: u64,
}

impl View for CampaignRecord {
    type V = CampaignView;

    open spec fn view(&self) -> CampaignView {
        CampaignView {
            id: self.id,
            creator: self.creator,
            goal_amount: self.goal_amount,
            raised_amount: self.raised_amount,
            end_time: self.end_time,
            status: self.status,
            accepted_assets: assets_view(self.accepted_assets@),
            min_donation_amount: self.min_donation_amount,
            created_at_ledger: self.created_at_ledger,
            created_at_time: self.created_at_time,
            concluded_at_ledger: self.concluded_at_ledger,
            donation_count: self.donation_count,
        }
    }
}

/// Copies a list of assets, keeping its abstract value.
pub fn clone_assets(v: &Vec<StellarAsset>) -> (r: Vec<StellarAsset>)
    ensures
        assets_view(r@) == assets_view(v@),
{
    let mut r: Vec<StellarAsset> = Vec::new();
    let mut i: usize = 0;
    while i < v.len()
        invariant
            i <= v.len(),
            r@.len() == i,
            forall|j: int| 0 <= j < i ==> #[trigger] r@[j]@ == v@[j]@,
        decreases v.len() - i,
    {
        r.push(v[i].clone());
        i = i + 1;
    }
    assert(assets_view(r@) =~= assets_view(v@));
    r
}

impl Clone for CampaignRecord {
    fn clone(&self) -> (r: Self)
        ensures
            r@ == self@,
    {
        CampaignRecord {
            id: self.id,
            creator: self.creator,
            goal_amount: self.goal_amount,
            raised_amount: self.raised_amount,
            end_time: self.end_time,
            status: self.status,
            accepted_assets: clone_assets(&self.accepted_assets),
            min_donation_amount: self.min_donation_amount,
            created_at_ledger: self.created_at_ledger,
            created_at_time: self.created_at_time,
            concluded_at_ledger: self.concluded_at_ledger,
            donation_count: self.donation_count,
        }
    }
}

// ─── Donor record (per campaign, per donor) ───────────────────────────────────
/// Aggregate donation record for a single donor address, scoped to one
/// campaign ID.
#[derive(Clone, Copy, Debug, PartialEq, Eq, Structural)]
pub struct DonorRecord {
    pub donor: Address,
    pub total_donated: i128,
    pub donation_count: u32,
    pub last_donation_time: u64,
    pub last_donation_ledger: u32,
}

// ─── Storage keys ─────────────────────────────────────────────────────────────
/// The keys of the registry's persistent storage.
#[derive(Clone, Copy, Debug, PartialEq, Eq, Structural)]
pub enum DataKey {
    /// Next campaign ID to assign; doubles as the total-created counter.
    NextCampaignId,
    /// Campaign record, scoped by ID.
    Campaign(u64),
    /// Donor record, scoped by (campaign_id, donor_address).
    DonorData(u64, Address),
}

// ─── Read-only response types ─────────────────────────────────────────────────
/// Response type for `get_campaign_status`.
#[derive(Clone, Copy, Debug, PartialEq, Eq, Structural)]
pub struct CampaignStatusResponse {
    pub status: CampaignStatus,
    /// Negative means the deadline has passed.
    pub days_remaining: i64,
}

} // verus!
