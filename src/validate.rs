use vstd::prelude::*;
use crate::store::{
    heartbeats_unique, is_heartbeat, documents_unique, ids_dense, inventors_unique, participants_in_sessions, participants_unique, portfolio_unique, progress_unique, Store,
};
use crate::types::{
    AnalyticsSchedule, BlockchainRecord, CollaborationSession, DocumentGeneration, Identity, InfringementAlert, InventorConnection, InventorProfile, MarketTrendSnapshot, MonitoringSchedule, PatentApplication, PatentPortfolioEntry, PriorArtResult, SessionParticipant, StageProgress,
};

verus! {

/// A row with an automatic identifier.
pub trait Numbered {
    spec fn spec_number(&self) -> u64;

    fn number(&self) -> (r: u64)
        ensures
            r == self.spec_number(),
    ;
}

impl Numbered for PatentApplication {
    open spec fn spec_number(&self) -> u64 {
        self.application_id
    }

    fn number(&self) -> (r: u64) {
        self.application_id
    }
}

impl Numbered for PriorArtResult {
    open spec fn spec_number(&self) -> u64 {
        self.result_id
    }

    fn number(&self) -> (r: u64) {
        self.result_id
    }
}

impl Numbered for DocumentGeneration {
    open spec fn spec_number(&self) -> u64 {
        self.doc_id
    }

    fn number(&self) -> (r: u64) {
        self.doc_id
    }
}

impl Numbered for BlockchainRecord {
    open spec fn spec_number(&self) -> u64 {
        self.record_id
    }

    fn number(&self) -> (r: u64) {
        self.record_id
    }
}

impl Numbered for CollaborationSession {
    open spec fn spec_number(&self) -> u64 {
        self.session_id
    }

    fn number(&self) -> (r: u64) {
        self.session_id
    }
}

impl Numbered for SessionParticipant {
    open spec fn spec_number(&self) -> u64 {
        self.row_id
    }

    fn number(&self) -> (r: u64) {
        self.row_id
    }
}

impl Numbered for PatentPortfolioEntry {
    open spec fn spec_number(&self) -> u64 {
        self.entry_id
    }

    fn number(&self) -> (r: u64) {
        self.entry_id
    }
}

impl Numbered for InventorConnection {
    open spec fn spec_number(&self) -> u64 {
        self.connection_id
    }

    fn number(&self) -> (r: u64) {
        self.connection_id
    }
}

impl Numbered for InfringementAlert {
    open spec fn spec_number(&self) -> u64 {
        self.alert_id
    }

    fn number(&self) -> (r: u64) {
        self.alert_id
    }
}

impl Numbered for MarketTrendSnapshot {
    open spec fn spec_number(&self) -> u64 {
        self.snapshot_id
    }

    fn number(&self) -> (r: u64) {
        self.snapshot_id
    }
}

impl Numbered for StageProgress {
    open spec fn spec_number(&self) -> u64 {
        self.progress_id
    }

    fn number(&self) -> (r: u64) {
        self.progress_id
    }
}

impl Numbered for MonitoringSchedule {
    open spec fn spec_number(&self) -> u64 {
        self.scheduled_id
    }

    fn number(&self) -> (r: u64) {
        self.scheduled_id
    }
}

impl Numbered for AnalyticsSchedule {
    open spec fn spec_number(&self) -> u64 {
        self.scheduled_id
    }

    fn number(&self) -> (r: u64) {
        self.scheduled_id
    }
}

fn numbered_densely<T: Numbered>(rows: &Vec<T>) -> (r: bool)
    ensures
        r == forall|i: int| 0 <= i < rows@.len() ==> (#[trigger] rows@[i]).spec_number() == i + 1,
{
    let mut i: usize = 0;
    while i < rows.len()
        invariant
            i <= rows@.len(),
            forall|j: int| 0 <= j < i ==> (#[trigger] rows@[j]).spec_number() == j + 1,
        decreases rows@.len() - i,
    {
        if (i as u64) >= u64::MAX || rows[i].number() != i as u64 + 1 {
            return false;
        }
        i = i + 1;
    }
    true
}

fn inventors_distinct(s: &Vec<InventorProfile>) -> (r: bool)
    ensures
        r == inventors_unique(s@),
{
    let mut i: usize = 0;
    while i < s.len()
        invariant
            i <= s@.len(),
            forall|a: int, b: int|
                0 <= a < i && 0 <= b < s@.len() && #[trigger] s@[a].identity == #[trigger] s@[b].identity
                    ==> a == b,
        decreases s@.len() - i,
    {
        let mut j: usize = 0;
        while j < s.len()
            invariant
                i < s@.len(),
                j <= s@.len(),
                forall|a: int, b: int|
                    0 <= a < i && 0 <= b < s@.len() && #[trigger] s@[a].identity == #[trigger] s@[b].identity
                        ==> a == b,
                forall|b: int| 0 <= b < j && #[trigger] s@[b].identity == s@[i as int].identity ==> b == i,
            decreases s@.len() - j,
        {
            if j != i && s[j].identity == s[i].identity {
                return false;
            }
            j = j + 1;
        }
        i = i + 1;
    }
    true
}

fn documents_distinct(s: &Vec<DocumentGeneration>) -> (r: bool)
    ensures
        r == documents_unique(s@),
{
    let mut i: usize = 0;
    while i < s.len()
        invariant
            i <= s@.len(),
            forall|a: int, b: int|
                0 <= a < i && 0 <= b < s@.len() && #[trigger] s@[a].application_id == #[trigger] s@[b].application_id
                    && s@[a].doc_type == s@[b].doc_type ==> a == b,
        decreases s@.len() - i,
    {
        let mut j: usize = 0;
        while j < s.len()
            invariant
                i < s@.len(),
                j <= s@.len(),
                forall|a: int, b: int|
                    0 <= a < i && 0 <= b < s@.len() && #[trigger] s@[a].application_id == #[trigger] s@[b].application_id
                        && s@[a].doc_type == s@[b].doc_type ==> a == b,
                forall|b: int|
                    0 <= b < j && #[trigger] s@[b].application_id == s@[i as int].application_id
                        && s@[i as int].doc_type == s@[b].doc_type ==> b == i,
            decreases s@.len() - j,
        {
            let x = &s[j];
            let y = &s[i];
            if j != i && x.application_id == y.application_id && x.doc_type == y.doc_type {
                return false;
            }
            j = j + 1;
        }
        i = i + 1;
    }
    true
}

fn progress_distinct(s: &Vec<StageProgress>) -> (r: bool)
    ensures
        r == progress_unique(s@),
{
    let mut i: usize = 0;
    while i < s.len()
        invariant
            i <= s@.len(),
            forall|a: int, b: int|
                0 <= a < i && 0 <= b < s@.len() && #[trigger] s@[a].application_id == #[trigger] s@[b].application_id
                    && s@[a].stage == s@[b].stage ==> a == b,
        decreases s@.len() - i,
    {
        let mut j: usize = 0;
        while j < s.len()
            invariant
                i < s@.len(),
                j <= s@.len(),
                forall|a: int, b: int|
                    0 <= a < i && 0 <= b < s@.len() && #[trigger] s@[a].application_id == #[trigger] s@[b].application_id
                        && s@[a].stage == s@[b].stage ==> a == b,
                forall|b: int|
                    0 <= b < j && #[trigger] s@[b].application_id == s@[i as int].application_id
                        && s@[i as int].stage == s@[b].stage ==> b == i,
            decreases s@.len() - j,
        {
            let x = &s[j];
            let y = &s[i];
            if j != i && x.application_id == y.application_id && x.stage == y.stage {
                return false;
            }
            j = j + 1;
        }
        i = i + 1;
    }
    true
}

fn portfolio_distinct(s: &Vec<PatentPortfolioEntry>) -> (r: bool)
    ensures
        r == portfolio_unique(s@),
{
    let mut i: usize = 0;
    while i < s.len()
        invariant
            i <= s@.len(),
            forall|a: int, b: int|
                0 <= a < i && 0 <= b < s@.len() && #[trigger] s@[a].owner == #[trigger] s@[b].owner
                    && s@[a].application_id == s@[b].application_id && s@[a].role == s@[b].role ==> a == b,
        decreases s@.len() - i,
    {
        let mut j: usize = 0;
        while j < s.len()
            invariant
                i < s@.len(),
                j <= s@.len(),
                forall|a: int, b: int|
                    0 <= a < i && 0 <= b < s@.len() && #[trigger] s@[a].owner == #[trigger] s@[b].owner
                        && s@[a].application_id == s@[b].application_id && s@[a].role == s@[b].role ==> a == b,
                forall|b: int|
                    0 <= b < j && #[trigger] s@[b].owner == s@[i as int].owner
                        && s@[i as int].application_id == s@[b].application_id && s@[i as int].role == s@[b].role ==> b == i,
            decreases s@.len() - j,
        {
            let x = &s[j];
            let y = &s[i];
            if j != i && x.owner == y.owner && x.application_id == y.application_id && x.role == y.role {
                return false;
            }
            j = j + 1;
        }
        i = i + 1;
    }
    true
}

fn participants_distinct(s: &Vec<SessionParticipant>) -> (r: bool)
    ensures
        r == participants_unique(s@),
{
    let mut i: usize = 0;
    while i < s.len()
        invariant
            i <= s@.len(),
            forall|a: int, b: int|
                0 <= a < i && 0 <= b < s@.len() && #[trigger] s@[a].active && #[trigger] s@[b].active
                    && s@[a].session_id == s@[b].session_id && s@[a].participant == s@[b].participant
                    ==> a == b,
        decreases s@.len() - i,
    {
        let mut j: usize = 0;
        while j < s.len()
            invariant
                i < s@.len(),
                j <= s@.len(),
                forall|a: int, b: int|
                    0 <= a < i && 0 <= b < s@.len() && #[trigger] s@[a].active && #[trigger] s@[b].active
                        && s@[a].session_id == s@[b].session_id && s@[a].participant == s@[b].participant
                        ==> a == b,
                forall|b: int|
                    0 <= b < j && s@[i as int].active && #[trigger] s@[b].active && s@[i as int].session_id
                        == s@[b].session_id && s@[i as int].participant == s@[b].participant ==> b == i,
            decreases s@.len() - j,
        {
            let x = s[j];
            let y = s[i];
            if j != i && x.active && y.active && x.session_id == y.session_id && x.participant
                == y.participant {
                return false;
            }
            j = j + 1;
        }
        i = i + 1;
    }
    true
}

fn participants_refer_to_sessions(s: &Vec<SessionParticipant>, sessions: usize) -> (r: bool)
    ensures
        r == participants_in_sessions(s@, sessions as nat),
{
    let mut i: usize = 0;
    while i < s.len()
        invariant
            i <= s@.len(),
            forall|j: int| 0 <= j < i ==> 1 <= #[trigger] s@[j].session_id <= sessions,
        decreases s@.len() - i,
    {
        if s[i].session_id < 1 || s[i].session_id as u128 > sessions as u128 {
            return false;
        }
        i = i + 1;
    }
    true
}

fn heartbeats_distinct(s: &Vec<InfringementAlert>) -> (r: bool)
    ensures
        r == heartbeats_unique(s@),
{
    let kind = "monitor_heartbeat".to_owned();
    let mut i: usize = 0;
    while i < s.len()
        invariant
            i <= s@.len(),
            kind@ == "monitor_heartbeat"@,
            forall|a: int, b: int|
                0 <= a < i && 0 <= b < s@.len() && is_heartbeat(#[trigger] s@[a]) && is_heartbeat(
                    #[trigger] s@[b],
                ) && s@[a].application_id == s@[b].application_id ==> a == b,
        decreases s@.len() - i,
    {
        if s[i].alert_type == kind {
            let mut j: usize = 0;
            while j < s.len()
                invariant
                    i < s@.len(),
                    j <= s@.len(),
                    kind@ == "monitor_heartbeat"@,
                    is_heartbeat(s@[i as int]),
                    forall|a: int, b: int|
                        0 <= a < i && 0 <= b < s@.len() && is_heartbeat(#[trigger] s@[a])
                            && is_heartbeat(#[trigger] s@[b]) && s@[a].application_id
                            == s@[b].application_id ==> a == b,
                    forall|b: int|
                        0 <= b < j && is_heartbeat(#[trigger] s@[b]) && s@[b].application_id
                            == s@[i as int].application_id ==> b == i,
                decreases s@.len() - j,
            {
                if j != i && s[j].alert_type == kind && s[j].application_id == s[i].application_id {
                    return false;
                }
                j = j + 1;
            }
        }
        i = i + 1;
    }
    true
}

impl Store {
    /// Whether the store holds its invariant: dense identifiers in every
    /// table and no duplicate upsert or dedup key.
    pub fn is_well_formed(&self) -> (r: bool)
        ensures
            r == self@.wf(),
    {
        let d0 = numbered_densely(&self.applications);
        let d1 = numbered_densely(&self.prior_art);
        let d2 = numbered_densely(&self.documents);
        let d3 = numbered_densely(&self.blockchain);
        let d4 = numbered_densely(&self.sessions);
        let d5 = numbered_densely(&self.participants);
        let d6 = numbered_densely(&self.portfolio);
        let d7 = numbered_densely(&self.connections);
        let d8 = numbered_densely(&self.alerts);
        let d9 = numbered_densely(&self.snapshots);
        let d10 = numbered_densely(&self.progress);
        let d11 = numbered_densely(&self.monitoring_schedules);
        let d12 = numbered_densely(&self.analytics_schedules);
        let u0 = inventors_distinct(&self.inventors);
        let u1 = documents_distinct(&self.documents);
        let u2 = progress_distinct(&self.progress);
        let u3 = portfolio_distinct(&self.portfolio);
        let u4 = participants_distinct(&self.participants);
        let u5 = participants_refer_to_sessions(&self.participants, self.sessions.len());
        let u6 = heartbeats_distinct(&self.alerts);
        d0 && d1 && d2 && d3 && d4 && d5 && d6 && d7 && d8 && d9 && d10 && d11 && d12
            && u0 && u1 && u2 && u3 && u4 && u5 && u6
    }
}

} // verus!
