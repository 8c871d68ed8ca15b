use vstd::prelude::*;
use crate::types::{
    AnalyticsSchedule, BlockchainRecord, CollaborationSession, DocumentGeneration, Identity,
    InfringementAlert, InventorConnection, InventorProfile, MarketTrendSnapshot,
    MonitoringSchedule, PatentApplication, PatentPortfolioEntry, PriorArtResult,
    SessionParticipant, StageProgress,
};

verus! {

/// Every collection of the store. Each row that has an automatic identifier
/// sits at the index one below it, so that row `n` of a table has id `n + 1`.
pub struct Store {
    pub inventors: Vec<InventorProfile>,
    pub applications: Vec<PatentApplication>,
    pub prior_art: Vec<PriorArtResult>,
    pub documents: Vec<DocumentGeneration>,
    pub blockchain: Vec<BlockchainRecord>,
    pub sessions: Vec<CollaborationSession>,
    pub participants: Vec<SessionParticipant>,
    pub portfolio: Vec<PatentPortfolioEntry>,
    pub connections: Vec<InventorConnection>,
    pub alerts: Vec<InfringementAlert>,
    pub snapshots: Vec<MarketTrendSnapshot>,
    pub progress: Vec<StageProgress>,
    pub monitoring_schedules: Vec<MonitoringSchedule>,
    pub analytics_schedules: Vec<AnalyticsSchedule>,
}

/// The mathematical content of a [`Store`]: one sequence of rows per table.
pub struct StoreView {
    pub inventors: Seq<InventorProfile>,
    pub applications: Seq<PatentApplication>,
    pub prior_art: Seq<PriorArtResult>,
    pub documents: Seq<DocumentGeneration>,
    pub blockchain: Seq<BlockchainRecord>,
    pub sessions: Seq<CollaborationSession>,
    pub participants: Seq<SessionParticipant>,
    pub portfolio: Seq<PatentPortfolioEntry>,
    pub connections: Seq<InventorConnection>,
    pub alerts: Seq<InfringementAlert>,
    pub snapshots: Seq<MarketTrendSnapshot>,
    pub progress: Seq<StageProgress>,
    pub monitoring_schedules: Seq<MonitoringSchedule>,
    pub analytics_schedules: Seq<AnalyticsSchedule>,
}

impl View for Store {
    type V = StoreView;

    open spec fn view(&self) -> StoreView {
        StoreView {
            inventors: self.inventors@,
            applications: self.applications@,
            prior_art: self.prior_art@,
            documents: self.documents@,
            blockchain: self.blockchain@,
            sessions: self.sessions@,
            participants: self.participants@,
            portfolio: self.portfolio@,
            connections: self.connections@,
            alerts: self.alerts@,
            snapshots: self.snapshots@,
            progress: self.progress@,
            monitoring_schedules: self.monitoring_schedules@,
            analytics_schedules: self.analytics_schedules@,
        }
    }
}

/// The identifier that the next row appended to a table of `len` rows gets.
pub open spec fn next_id_of(len: nat) -> nat {
    len + 1
}

/// A table of `len` rows can take one more row.
pub open spec fn has_room(len: nat) -> bool {
    len + 1 <= u64::MAX
}

/// At most one profile per identity.
pub open spec fn inventors_unique(s: Seq<InventorProfile>) -> bool {
    forall|i: int, j: int|
        0 <= i < s.len() && 0 <= j < s.len() && #[trigger] s[i].identity == #[trigger] s[j].identity
            ==> i == j
}

/// At most one generation row per (application, document type).
pub open spec fn documents_unique(s: Seq<DocumentGeneration>) -> bool {
    forall|i: int, j: int|
        0 <= i < s.len() && 0 <= j < s.len() && #[trigger] s[i].application_id
            == #[trigger] s[j].application_id && s[i].doc_type == s[j].doc_type ==> i == j
}

/// At most one progress row per (application, stage).
pub open spec fn progress_unique(s: Seq<StageProgress>) -> bool {
    forall|i: int, j: int|
        0 <= i < s.len() && 0 <= j < s.len() && #[trigger] s[i].application_id
            == #[trigger] s[j].application_id && s[i].stage == s[j].stage ==> i == j
}

/// At most one portfolio row per (owner, application, role).
pub open spec fn portfolio_unique(s: Seq<PatentPortfolioEntry>) -> bool {
    forall|i: int, j: int|
        0 <= i < s.len() && 0 <= j < s.len() && #[trigger] s[i].owner == #[trigger] s[j].owner
            && s[i].application_id == s[j].application_id && s[i].role == s[j].role ==> i == j
}

/// The participant row `p` is an active membership of `who` in session `sid`.
pub open spec fn is_active_member(p: SessionParticipant, sid: u64, who: Identity) -> bool {
    p.session_id == sid && p.participant == who && p.active
}

/// At most one active participant row per (session, identity).
pub open spec fn participants_unique(s: Seq<SessionParticipant>) -> bool {
    forall|i: int, j: int|
        0 <= i < s.len() && 0 <= j < s.len() && #[trigger] s[i].active && #[trigger] s[j].active
            && s[i].session_id == s[j].session_id && s[i].participant == s[j].participant
            ==> i == j
}

/// Row `i` of the applications table has identifier `i + 1`.
pub open spec fn dense_applications(s: Seq<PatentApplication>) -> bool {
    forall|i: int| 0 <= i < s.len() ==> (#[trigger] s[i]).application_id == i + 1
}

/// Row `i` of the prior art table has identifier `i + 1`.
pub open spec fn dense_prior_art(s: Seq<PriorArtResult>) -> bool {
    forall|i: int| 0 <= i < s.len() ==> (#[trigger] s[i]).result_id == i + 1
}

/// Row `i` of the documents table has identifier `i + 1`.
pub open spec fn dense_documents(s: Seq<DocumentGeneration>) -> bool {
    forall|i: int| 0 <= i < s.len() ==> (#[trigger] s[i]).doc_id == i + 1
}

/// Row `i` of the blockchain table has identifier `i + 1`.
pub open spec fn dense_blockchain(s: Seq<BlockchainRecord>) -> bool {
    forall|i: int| 0 <= i < s.len() ==> (#[trigger] s[i]).record_id == i + 1
}

/// Row `i` of the sessions table has identifier `i + 1`.
pub open spec fn dense_sessions(s: Seq<CollaborationSession>) -> bool {
    forall|i: int| 0 <= i < s.len() ==> (#[trigger] s[i]).session_id == i + 1
}

/// Row `i` of the participants table has identifier `i + 1`.
pub open spec fn dense_participants(s: Seq<SessionParticipant>) -> bool {
    forall|i: int| 0 <= i < s.len() ==> (#[trigger] s[i]).row_id == i + 1
}

/// Row `i` of the portfolio table has identifier `i + 1`.
pub open spec fn dense_portfolio(s: Seq<PatentPortfolioEntry>) -> bool {
    forall|i: int| 0 <= i < s.len() ==> (#[trigger] s[i]).entry_id == i + 1
}

/// Row `i` of the connections table has identifier `i + 1`.
pub open spec fn dense_connections(s: Seq<InventorConnection>) -> bool {
    forall|i: int| 0 <= i < s.len() ==> (#[trigger] s[i]).connection_id == i + 1
}

/// Row `i` of the alerts table has identifier `i + 1`.
pub open spec fn dense_alerts(s: Seq<InfringementAlert>) -> bool {
    forall|i: int| 0 <= i < s.len() ==> (#[trigger] s[i]).alert_id == i + 1
}

/// Row `i` of the snapshots table has identifier `i + 1`.
pub open spec fn dense_snapshots(s: Seq<MarketTrendSnapshot>) -> bool {
    forall|i: int| 0 <= i < s.len() ==> (#[trigger] s[i]).snapshot_id == i + 1
}

/// Row `i` of the progress table has identifier `i + 1`.
pub open spec fn dense_progress(s: Seq<StageProgress>) -> bool {
    forall|i: int| 0 <= i < s.len() ==> (#[trigger] s[i]).progress_id == i + 1
}

/// Row `i` of the monitoring schedules table has identifier `i + 1`.
pub open spec fn dense_monitoring_schedules(s: Seq<MonitoringSchedule>) -> bool {
    forall|i: int| 0 <= i < s.len() ==> (#[trigger] s[i]).scheduled_id == i + 1
}

/// Row `i` of the analytics schedules table has identifier `i + 1`.
pub open spec fn dense_analytics_schedules(s: Seq<AnalyticsSchedule>) -> bool {
    forall|i: int| 0 <= i < s.len() ==> (#[trigger] s[i]).scheduled_id == i + 1
}

/// The alert is a monitoring heartbeat.
pub open spec fn is_heartbeat(al: InfringementAlert) -> bool {
    al.alert_type@ == "monitor_heartbeat"@
}

/// At most one heartbeat alert per application.
pub open spec fn heartbeats_unique(s: Seq<InfringementAlert>) -> bool {
    forall|i: int, j: int|
        0 <= i < s.len() && 0 <= j < s.len() && is_heartbeat(#[trigger] s[i]) && is_heartbeat(
            #[trigger] s[j],
        ) && s[i].application_id == s[j].application_id ==> i == j
}

/// Every participant row refers to an existing session.
pub open spec fn participants_in_sessions(s: Seq<SessionParticipant>, sessions: nat) -> bool {
    forall|i: int| 0 <= i < s.len() ==> 1 <= #[trigger] s[i].session_id <= sessions
}

/// Every table's rows carry the identifiers `1, 2, 3, ...` in order.
pub open spec fn ids_dense(v: StoreView) -> bool {
    &&& dense_applications(v.applications)
    &&& dense_prior_art(v.prior_art)
    &&& dense_documents(v.documents)
    &&& dense_blockchain(v.blockchain)
    &&& dense_sessions(v.sessions)
    &&& dense_participants(v.participants)
    &&& dense_portfolio(v.portfolio)
    &&& dense_connections(v.connections)
    &&& dense_alerts(v.alerts)
    &&& dense_snapshots(v.snapshots)
    &&& dense_progress(v.progress)
    &&& dense_monitoring_schedules(v.monitoring_schedules)
    &&& dense_analytics_schedules(v.analytics_schedules)
}

impl StoreView {
    /// The store's invariant: dense identifiers and the uniqueness of every
    /// upsert or dedup key.
    pub open spec fn wf(self) -> bool {
        &&& ids_dense(self)
        &&& inventors_unique(self.inventors)
        &&& documents_unique(self.documents)
        &&& progress_unique(self.progress)
        &&& portfolio_unique(self.portfolio)
        &&& participants_unique(self.participants)
        &&& participants_in_sessions(self.participants, self.sessions.len())
        &&& heartbeats_unique(self.alerts)
    }
}

impl Store {
    /// An empty store.
    pub fn new() -> (r: Store)
        ensures
            r@.wf(),
            r@.inventors.len() == 0,
            r@.applications.len() == 0,
            r@.prior_art.len() == 0,
            r@.documents.len() == 0,
            r@.blockchain.len() == 0,
            r@.sessions.len() == 0,
            r@.participants.len() == 0,
            r@.portfolio.len() == 0,
            r@.connections.len() == 0,
            r@.alerts.len() == 0,
            r@.snapshots.len() == 0,
            r@.progress.len() == 0,
            r@.monitoring_schedules.len() == 0,
            r@.analytics_schedules.len() == 0,
    {
        Store {
            inventors: Vec::new(),
            applications: Vec::new(),
            prior_art: Vec::new(),
            documents: Vec::new(),
            blockchain: Vec::new(),
            sessions: Vec::new(),
            participants: Vec::new(),
            portfolio: Vec::new(),
            connections: Vec::new(),
            alerts: Vec::new(),
            snapshots: Vec::new(),
            progress: Vec::new(),
            monitoring_schedules: Vec::new(),
            analytics_schedules: Vec::new(),
        }
    }
}

/// The identifier for a row appended to a table of `len` rows, or `None`
/// when the table's identifier space is used up.
pub fn next_id(len: usize) -> (r: Option<u64>)
    ensures
        r is Some <==> has_room(len as nat),
        r matches Some(id) ==> id == next_id_of(len as nat),
{
    if (len as u64) < u64::MAX {
        Some(len as u64 + 1)
    } else {
        None
    }
}

/// The single authorization policy: a caller may act on a resource only
/// when it is the resource's owner.
pub fn authorize(caller: Identity, owner: Identity) -> (r: bool)
    ensures
        r == (caller == owner),
{
    caller == owner
}

/// The index of the row with identifier `id` in a table of `len` rows, when
/// there is one.
pub fn index_of_id(id: u64, len: usize) -> (r: Option<usize>)
    ensures
        r is Some <==> 1 <= id <= len,
        r matches Some(i) ==> i + 1 == id,
{
    if 1 <= id && id <= len as u64 {
        Some((id - 1) as usize)
    } else {
        None
    }
}

} // verus!
