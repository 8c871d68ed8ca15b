use vstd::prelude::*;

verus! {

/// A verified caller identity (256 bits, split in two halves).
#[derive(Clone, Copy, Debug, PartialEq, Eq, Structural, Hash)]
pub struct Identity {
    pub hi: u128,
    pub lo: u128,
}

/// The context of one operation: who calls, when, and which identity the
/// scheduler runs under.
#[derive(Clone, Copy, Debug, PartialEq, Eq, Structural)]
pub struct CallContext {
    pub sender: Identity,
    /// Microseconds since the Unix epoch.
    pub timestamp: i64,
    /// The identity of the module itself, under which scheduled jobs run.
    pub module_identity: Identity,
}

/// Where a patent application stands in its lifecycle.
#[derive(Clone, Copy, Debug, PartialEq, Eq, Structural)]
pub enum PatentStatus {
    Draft,
    Submitted,
    Examination,
    Granted,
    Rejected,
    Abandoned,
}

/// The kind of document a generation job produces.
#[derive(Clone, Copy, Debug, PartialEq, Eq, Structural)]
pub enum DocType {
    Spec,
    Claims,
    Drawings,
    Abstract,
}

/// The state of a document generation job.
#[derive(Clone, Copy, Debug, PartialEq, Eq, Structural)]
pub enum DocGenStatus {
    NotStarted,
    InProgress,
    Completed,
    Failed,
}

/// A collaboration session is active until it is closed, for good.
#[derive(Clone, Copy, Debug, PartialEq, Eq, Structural)]
pub enum CollabStatus {
    Active,
    Closed,
}

/// The role a portfolio entry gives its owner on an application.
#[derive(Clone, Copy, Debug, PartialEq, Eq, Structural)]
pub enum PortfolioRole {
    Owner,
    CoOwner,
    Licensee,
    Viewer,
}

/// The state of a connection between two inventors.
#[derive(Clone, Copy, Debug, PartialEq, Eq, Structural)]
pub enum ConnectionStatus {
    Pending,
    Connected,
    Rejected,
    Blocked,
}

/// How serious an infringement alert is.
#[derive(Clone, Copy, Debug, PartialEq, Eq, Structural)]
pub enum AlertSeverity {
    Low,
    Medium,
    High,
    Critical,
}

/// What a market trend snapshot counts.
#[derive(Clone, Copy, Debug, PartialEq, Eq, Structural)]
pub enum TrendMetric {
    FilingCount,
    GrantCount,
    AlertCount,
    ActiveSessionCount,
}

/// A stage of the patent process whose progress is tracked.
#[derive(Clone, Copy, Debug, PartialEq, Eq, Structural)]
pub enum Stage {
    Idea,
    Drafting,
    PriorArt,
    Filing,
    Examination,
    OfficeAction,
    Appeal,
    Grant,
    Maintenance,
}

/// Why an operation was refused. A refused operation leaves the store as it was.
#[derive(Clone, Copy, Debug, PartialEq, Eq, Structural)]
pub enum StoreError {
    /// The referenced row does not exist.
    NotFound,
    /// The caller is not the owner, creator or endpoint the operation requires.
    Unauthorized,
    /// The operation is not valid in the row's current lifecycle state.
    InvalidState,
    /// The request is malformed (a self-connection).
    InvalidArgument,
    /// A table has used up its identifier space.
    StorageFailure,
}

/// The profile of one inventor, keyed by identity.
#[derive(Clone, Debug)]
pub struct InventorProfile {
    pub identity: Identity,
    pub name: String,
    pub email: String,
    pub affiliation: String,
    /// Comma-separated skill tags.
    pub skills: String,
    pub bio: String,
    pub created_at: i64,
    pub updated_at: i64,
}

/// A patent application and its lifecycle status.
#[derive(Clone, Debug)]
pub struct PatentApplication {
    pub application_id: u64,
    pub owner: Identity,
    pub title: String,
    pub abstract_text: String,
    pub claims_text: String,
    pub status: PatentStatus,
    pub created_at: i64,
    pub last_updated: i64,
}

/// One prior-art search result recorded for an application.
#[derive(Clone, Debug)]
pub struct PriorArtResult {
    pub result_id: u64,
    pub application_id: u64,
    pub source: String,
    pub url: String,
    pub summary: String,
    /// The relevance score as the bits of an IEEE-754 single-precision number.
    pub relevance_score_bits: u32,
    pub found_at: i64,
}

/// The state of the generation job for one (application, document type).
#[derive(Clone, Debug)]
pub struct DocumentGeneration {
    pub doc_id: u64,
    pub application_id: u64,
    pub doc_type: DocType,
    pub status: DocGenStatus,
    pub error_message: String,
    pub updated_at: i64,
}

/// One anchoring of an application on an external ledger.
#[derive(Clone, Debug)]
pub struct BlockchainRecord {
    pub record_id: u64,
    pub application_id: u64,
    pub tx_hash: String,
    pub network: String,
    pub recorded_at: i64,
}

/// A collaboration session; only its creator may close it.
#[derive(Clone, Debug)]
pub struct CollaborationSession {
    pub session_id: u64,
    pub title: String,
    pub created_by: Identity,
    pub status: CollabStatus,
    pub started_at: i64,
    pub ended_at: i64,
    pub ended: bool,
}

/// A membership in a session; leaving clears `active` rather than deleting.
#[derive(Clone, Copy, Debug, PartialEq, Eq, Structural)]
pub struct SessionParticipant {
    pub row_id: u64,
    pub session_id: u64,
    pub participant: Identity,
    pub joined_at: i64,
    pub active: bool,
}

/// A role that an identity holds on an application.
#[derive(Clone, Copy, Debug, PartialEq, Eq, Structural)]
pub struct PatentPortfolioEntry {
    pub entry_id: u64,
    pub owner: Identity,
    pub application_id: u64,
    pub role: PortfolioRole,
    pub added_at: i64,
}

/// A connection request from `a` to `b` and its state.
#[derive(Clone, Copy, Debug, PartialEq, Eq, Structural)]
pub struct InventorConnection {
    pub connection_id: u64,
    pub a: Identity,
    pub b: Identity,
    pub status: ConnectionStatus,
    pub created_at: i64,
    pub updated_at: i64,
}

/// An alert raised on an application.
#[derive(Clone, Debug)]
pub struct InfringementAlert {
    pub alert_id: u64,
    pub application_id: u64,
    pub alert_type: String,
    pub severity: AlertSeverity,
    pub description: String,
    pub detected_at: i64,
    pub resolved: bool,
}

/// One point of an append-only series of aggregate counts.
#[derive(Clone, Debug)]
pub struct MarketTrendSnapshot {
    pub snapshot_id: u64,
    pub segment: String,
    pub metric: TrendMetric,
    /// The aggregate count that this snapshot records.
    pub value: u64,
    pub window: String,
    pub computed_at: i64,
}

/// How far (0 to 100 percent) an application has come in one stage.
#[derive(Clone, Copy, Debug, PartialEq, Eq, Structural)]
pub struct StageProgress {
    pub progress_id: u64,
    pub application_id: u64,
    pub stage: Stage,
    pub percent: u8,
    pub updated_at: i64,
}

/// A registration of the monitoring job, run every `interval_micros`.
#[derive(Clone, Copy, Debug, PartialEq, Eq, Structural)]
pub struct MonitoringSchedule {
    pub scheduled_id: u64,
    pub interval_micros: u64,
}

/// A registration of the analytics job, run every `interval_micros`.
#[derive(Clone, Copy, Debug, PartialEq, Eq, Structural)]
pub struct AnalyticsSchedule {
    pub scheduled_id: u64,
    pub interval_micros: u64,
}

} // verus!
