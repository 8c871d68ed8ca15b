use patent_ecosystem::collab::{
    close_collab_session, join_collab_session, leave_collab_session, start_collab_session,
};
use patent_ecosystem::graph::{connect_inventor, respond_connection};
use patent_ecosystem::jobs::{
    analytics_tick, init, monitor_tick, ANALYTICS_INTERVAL_MICROS, MONITOR_INTERVAL_MICROS,
};
use patent_ecosystem::lifecycle::{
    register_inventor, resolve_alert, submit_patent, update_patent_status, update_stage_progress,
};
use patent_ecosystem::store::{authorize, index_of_id, next_id, Store};
use patent_ecosystem::tracking::{
    add_blockchain_record, add_prior_art_result, add_to_portfolio, upsert_document_generation,
};
use patent_ecosystem::types::{
    AlertSeverity, AnalyticsSchedule, CallContext, CollabStatus, ConnectionStatus, DocGenStatus,
    DocType, Identity, InfringementAlert, MonitoringSchedule, PatentStatus, PortfolioRole, Stage,
    StoreError, TrendMetric,
};

const MODULE: Identity = Identity { hi: 9, lo: 9 };

fn id(n: u128) -> Identity {
    Identity { hi: 0, lo: n }
}

fn ctx(who: Identity, t: i64) -> CallContext {
    CallContext { sender: who, timestamp: t, module_identity: MODULE }
}

fn s(x: &str) -> String {
    x.to_string()
}

fn monitoring() -> MonitoringSchedule {
    MonitoringSchedule { scheduled_id: 1, interval_micros: MONITOR_INTERVAL_MICROS }
}

fn analytics() -> AnalyticsSchedule {
    AnalyticsSchedule { scheduled_id: 1, interval_micros: ANALYTICS_INTERVAL_MICROS }
}

#[test]
fn register_twice_keeps_one_profile_with_second_values() {
    let mut db = Store::new();
    register_inventor(&mut db, &ctx(id(1), 10), s("Ann"), s("a@x"), s("Lab"), s("ml"), s("b1")).unwrap();
    register_inventor(&mut db, &ctx(id(2), 11), s("Bob"), s("b@x"), s("Uni"), s("db"), s("b2")).unwrap();
    register_inventor(&mut db, &ctx(id(1), 20), s("Ann B"), s("ab@x"), s("Co"), s("ml,db"), s("b3")).unwrap();
    assert_eq!(db.inventors.len(), 2);
    let p = &db.inventors[0];
    assert_eq!(p.identity, id(1));
    assert_eq!(p.name, "Ann B");
    assert_eq!(p.email, "ab@x");
    assert_eq!(p.affiliation, "Co");
    assert_eq!(p.skills, "ml,db");
    assert_eq!(p.bio, "b3");
    assert_eq!(p.created_at, 10);
    assert_eq!(p.updated_at, 20);
    assert_eq!(db.inventors[1].name, "Bob");
}

#[test]
fn submit_and_update_status_scenario() {
    let mut db = Store::new();
    let i = id(1);
    let j = id(2);
    let app = submit_patent(&mut db, &ctx(i, 100), s("T"), s("A"), s("C")).unwrap();
    assert_eq!(app, 1);
    let a = &db.applications[0];
    assert_eq!(a.application_id, 1);
    assert_eq!(a.owner, i);
    assert_eq!(a.status, PatentStatus::Submitted);
    assert_eq!((a.title.as_str(), a.abstract_text.as_str(), a.claims_text.as_str()), ("T", "A", "C"));
    assert_eq!(a.last_updated, 100);

    assert_eq!(update_patent_status(&mut db, &ctx(i, 200), app, PatentStatus::Granted), Ok(()));
    assert_eq!(db.applications[0].status, PatentStatus::Granted);
    assert_eq!(db.applications[0].last_updated, 200);
    assert_eq!(db.applications[0].created_at, 100);

    assert_eq!(
        update_patent_status(&mut db, &ctx(j, 300), app, PatentStatus::Abandoned),
        Err(StoreError::Unauthorized)
    );
    assert_eq!(db.applications[0].status, PatentStatus::Granted);
    assert_eq!(db.applications[0].last_updated, 200);
}

#[test]
fn update_status_of_missing_application_is_not_found() {
    let mut db = Store::new();
    assert_eq!(
        update_patent_status(&mut db, &ctx(id(1), 1), 1, PatentStatus::Granted),
        Err(StoreError::NotFound)
    );
    submit_patent(&mut db, &ctx(id(1), 1), s("T"), s("A"), s("C")).unwrap();
    assert_eq!(
        update_patent_status(&mut db, &ctx(id(1), 2), 0, PatentStatus::Granted),
        Err(StoreError::NotFound)
    );
    assert_eq!(
        update_patent_status(&mut db, &ctx(id(1), 2), 2, PatentStatus::Granted),
        Err(StoreError::NotFound)
    );
}

#[test]
fn document_generation_upserts_by_application_and_type() {
    let mut db = Store::new();
    let c = ctx(id(1), 5);
    upsert_document_generation(&mut db, &c, 7, DocType::Claims, DocGenStatus::InProgress, s("")).unwrap();
    upsert_document_generation(&mut db, &c, 7, DocType::Spec, DocGenStatus::NotStarted, s("")).unwrap();
    upsert_document_generation(&mut db, &ctx(id(2), 9), 7, DocType::Claims, DocGenStatus::Failed, s("timeout"))
        .unwrap();
    assert_eq!(db.documents.len(), 2);
    let d = &db.documents[0];
    assert_eq!((d.doc_id, d.application_id, d.doc_type), (1, 7, DocType::Claims));
    assert_eq!(d.status, DocGenStatus::Failed);
    assert_eq!(d.error_message, "timeout");
    assert_eq!(d.updated_at, 9);
    assert_eq!(db.documents[1].doc_type, DocType::Spec);
    assert_eq!(db.documents[1].doc_id, 2);
}

#[test]
fn stage_progress_upserts_and_touches_application() {
    let mut db = Store::new();
    let app = submit_patent(&mut db, &ctx(id(1), 1), s("T"), s("A"), s("C")).unwrap();
    update_stage_progress(&mut db, &ctx(id(3), 5), app, Stage::Drafting, 10).unwrap();
    update_stage_progress(&mut db, &ctx(id(3), 6), app, Stage::Filing, 0).unwrap();
    update_stage_progress(&mut db, &ctx(id(3), 7), app, Stage::Drafting, 80).unwrap();
    assert_eq!(db.progress.len(), 2);
    assert_eq!(db.progress[0].percent, 80);
    assert_eq!(db.progress[0].updated_at, 7);
    assert_eq!(db.progress[1].stage, Stage::Filing);
    assert_eq!(db.applications[0].last_updated, 7);
}

#[test]
fn stage_progress_for_missing_application_is_recorded() {
    let mut db = Store::new();
    assert_eq!(update_stage_progress(&mut db, &ctx(id(1), 5), 42, Stage::Idea, 100), Ok(()));
    assert_eq!(db.progress.len(), 1);
    assert_eq!(db.progress[0].application_id, 42);
    assert_eq!(db.progress[0].percent, 100);
    assert!(db.applications.is_empty());
}

#[test]
fn prior_art_and_blockchain_are_appended_without_dedup() {
    let mut db = Store::new();
    let c = ctx(id(1), 3);
    let bits = 0.75f32.to_bits();
    assert_eq!(add_prior_art_result(&mut db, &c, 1, s("uspto"), s("u"), s("sum"), bits), Ok(1));
    assert_eq!(add_prior_art_result(&mut db, &c, 1, s("uspto"), s("u"), s("sum"), bits), Ok(2));
    assert_eq!(db.prior_art.len(), 2);
    assert_eq!(f32::from_bits(db.prior_art[1].relevance_score_bits), 0.75);
    assert_eq!(db.prior_art[1].found_at, 3);
    assert_eq!(add_blockchain_record(&mut db, &c, 1, s("0xabc"), s("eth")), Ok(1));
    assert_eq!(add_blockchain_record(&mut db, &c, 1, s("0xabc"), s("eth")), Ok(2));
    assert_eq!(db.blockchain[0].tx_hash, "0xabc");
    assert_eq!(db.blockchain[1].record_id, 2);
}

#[test]
fn portfolio_duplicates_are_no_ops() {
    let mut db = Store::new();
    add_to_portfolio(&mut db, &ctx(id(1), 1), 5, PortfolioRole::Owner).unwrap();
    add_to_portfolio(&mut db, &ctx(id(1), 2), 5, PortfolioRole::Owner).unwrap();
    add_to_portfolio(&mut db, &ctx(id(1), 3), 5, PortfolioRole::Viewer).unwrap();
    add_to_portfolio(&mut db, &ctx(id(2), 4), 5, PortfolioRole::Owner).unwrap();
    assert_eq!(db.portfolio.len(), 3);
    assert_eq!(db.portfolio[0].added_at, 1);
    assert_eq!(db.portfolio[2].owner, id(2));
}

#[test]
fn collab_session_scenario() {
    let mut db = Store::new();
    let i = id(1);
    let j = id(2);
    let sid = start_collab_session(&mut db, &ctx(i, 10), s("Design Review")).unwrap();
    assert_eq!(db.sessions[0].status, CollabStatus::Active);
    assert_eq!(db.sessions[0].title, "Design Review");
    assert_eq!(db.sessions[0].created_by, i);
    assert!(!db.sessions[0].ended);
    let active: Vec<_> = db.participants.iter().filter(|p| p.session_id == sid && p.active).collect();
    assert_eq!(active.len(), 1);
    assert_eq!(active[0].participant, i);

    assert_eq!(close_collab_session(&mut db, &ctx(j, 20), sid), Err(StoreError::Unauthorized));
    assert_eq!(db.sessions[0].status, CollabStatus::Active);
    assert_eq!(close_collab_session(&mut db, &ctx(i, 30), sid), Ok(()));
    assert_eq!(db.sessions[0].status, CollabStatus::Closed);
    assert!(db.sessions[0].ended);
    assert_eq!(db.sessions[0].ended_at, 30);
    assert_eq!(close_collab_session(&mut db, &ctx(i, 40), sid), Ok(()));
    assert_eq!(db.sessions[0].ended_at, 40);
    assert_eq!(close_collab_session(&mut db, &ctx(i, 40), 9), Err(StoreError::NotFound));
}

#[test]
fn join_twice_gives_one_membership_and_closed_session_refuses() {
    let mut db = Store::new();
    let sid = start_collab_session(&mut db, &ctx(id(1), 1), s("S")).unwrap();
    assert_eq!(join_collab_session(&mut db, &ctx(id(2), 2), sid), Ok(()));
    assert_eq!(join_collab_session(&mut db, &ctx(id(2), 3), sid), Ok(()));
    let rows = db.participants.iter().filter(|p| p.participant == id(2) && p.active).count();
    assert_eq!(rows, 1);
    assert_eq!(db.participants.len(), 2);
    assert_eq!(join_collab_session(&mut db, &ctx(id(2), 3), 5), Err(StoreError::NotFound));
    close_collab_session(&mut db, &ctx(id(1), 4), sid).unwrap();
    assert_eq!(join_collab_session(&mut db, &ctx(id(3), 5), sid), Err(StoreError::InvalidState));
    assert_eq!(db.participants.len(), 2);
}

#[test]
fn leave_deactivates_and_rejoin_adds_a_row() {
    let mut db = Store::new();
    let sid = start_collab_session(&mut db, &ctx(id(1), 1), s("S")).unwrap();
    join_collab_session(&mut db, &ctx(id(2), 2), sid).unwrap();
    assert_eq!(leave_collab_session(&mut db, &ctx(id(2), 3), sid), Ok(()));
    assert!(!db.participants[1].active);
    assert!(db.participants[0].active);
    assert_eq!(leave_collab_session(&mut db, &ctx(id(7), 3), sid), Ok(()));
    join_collab_session(&mut db, &ctx(id(2), 4), sid).unwrap();
    assert_eq!(db.participants.len(), 3);
    assert!(db.participants[2].active);
    assert_eq!(db.participants[2].joined_at, 4);
}

#[test]
fn connection_requests_are_deduplicated_both_ways() {
    let mut db = Store::new();
    let a = id(1);
    let b = id(2);
    assert_eq!(connect_inventor(&mut db, &ctx(a, 1), a), Err(StoreError::InvalidArgument));
    assert_eq!(connect_inventor(&mut db, &ctx(a, 1), b), Ok(()));
    assert_eq!(connect_inventor(&mut db, &ctx(b, 2), a), Ok(()));
    assert_eq!(db.connections.len(), 1);
    assert_eq!((db.connections[0].a, db.connections[0].b), (a, b));
    assert_eq!(db.connections[0].status, ConnectionStatus::Pending);
}

#[test]
fn respond_connection_checks_endpoints() {
    let mut db = Store::new();
    let a = id(1);
    let b = id(2);
    connect_inventor(&mut db, &ctx(a, 1), b).unwrap();
    assert_eq!(respond_connection(&mut db, &ctx(id(3), 2), 1, true), Err(StoreError::Unauthorized));
    assert_eq!(respond_connection(&mut db, &ctx(b, 2), 2, true), Err(StoreError::NotFound));
    assert_eq!(respond_connection(&mut db, &ctx(b, 3), 1, false), Ok(()));
    assert_eq!(db.connections[0].status, ConnectionStatus::Rejected);
    assert_eq!(db.connections[0].updated_at, 3);
    connect_inventor(&mut db, &ctx(b, 4), a).unwrap();
    assert_eq!(db.connections.len(), 2);
    assert_eq!(respond_connection(&mut db, &ctx(b, 5), 2, true), Ok(()));
    assert_eq!(db.connections[1].status, ConnectionStatus::Connected);
}

#[test]
fn monitor_ticks_record_one_heartbeat_per_application() {
    let mut db = Store::new();
    let app = submit_patent(&mut db, &ctx(id(1), 1), s("T"), s("A"), s("C")).unwrap();
    let other = submit_patent(&mut db, &ctx(id(1), 1), s("U"), s("A"), s("C")).unwrap();
    update_patent_status(&mut db, &ctx(id(1), 2), other, PatentStatus::Draft).unwrap();
    assert_eq!(monitor_tick(&mut db, &ctx(MODULE, 60), monitoring()), Ok(()));
    assert_eq!(monitor_tick(&mut db, &ctx(MODULE, 120), monitoring()), Ok(()));
    assert_eq!(db.alerts.len(), 1);
    let al: &InfringementAlert = &db.alerts[0];
    assert_eq!(al.application_id, app);
    assert_eq!(al.alert_type, "monitor_heartbeat");
    assert_eq!(al.severity, AlertSeverity::Low);
    assert_eq!(al.description, "Automated monitoring check executed");
    assert!(al.resolved);
    assert_eq!(al.detected_at, 60);
}

#[test]
fn scheduled_jobs_refuse_other_callers() {
    let mut db = Store::new();
    submit_patent(&mut db, &ctx(id(1), 1), s("T"), s("A"), s("C")).unwrap();
    assert_eq!(monitor_tick(&mut db, &ctx(id(1), 60), monitoring()), Err(StoreError::Unauthorized));
    assert_eq!(analytics_tick(&mut db, &ctx(id(1), 60), analytics()), Err(StoreError::Unauthorized));
    assert!(db.alerts.is_empty());
    assert!(db.snapshots.is_empty());
}

#[test]
fn analytics_tick_appends_four_global_snapshots() {
    let mut db = Store::new();
    let owner = ctx(id(1), 1);
    submit_patent(&mut db, &owner, s("A"), s("a"), s("c")).unwrap();
    let granted = submit_patent(&mut db, &owner, s("B"), s("a"), s("c")).unwrap();
    submit_patent(&mut db, &owner, s("C"), s("a"), s("c")).unwrap();
    update_patent_status(&mut db, &owner, granted, PatentStatus::Granted).unwrap();
    start_collab_session(&mut db, &owner, s("S1")).unwrap();
    let closed = start_collab_session(&mut db, &owner, s("S2")).unwrap();
    close_collab_session(&mut db, &owner, closed).unwrap();
    for app in 1..=2u64 {
        db.alerts.push(InfringementAlert {
            alert_id: app,
            application_id: app,
            alert_type: s("similar_claims"),
            severity: AlertSeverity::High,
            description: s("d"),
            detected_at: 1,
            resolved: false,
        });
    }
    assert_eq!(analytics_tick(&mut db, &ctx(MODULE, 300), analytics()), Ok(()));
    assert_eq!(db.snapshots.len(), 4);
    let values: Vec<u64> = db.snapshots.iter().map(|r| r.value).collect();
    assert_eq!(values, vec![3, 1, 1, 2]);
    let metrics: Vec<TrendMetric> = db.snapshots.iter().map(|r| r.metric).collect();
    assert_eq!(
        metrics,
        vec![
            TrendMetric::FilingCount,
            TrendMetric::GrantCount,
            TrendMetric::ActiveSessionCount,
            TrendMetric::AlertCount
        ]
    );
    assert!(db.snapshots.iter().all(|r| r.segment == "global" && r.computed_at == 300));
    assert_eq!(db.snapshots[0].window, "all_time");
    assert_eq!(db.snapshots[3].window, "current");
    assert_eq!(analytics_tick(&mut db, &ctx(MODULE, 600), analytics()), Ok(()));
    assert_eq!(db.snapshots.len(), 8);
    assert_eq!(db.snapshots[7].snapshot_id, 8);
}

#[test]
fn resolve_alert_sets_flag() {
    let mut db = Store::new();
    assert_eq!(resolve_alert(&mut db, &ctx(id(1), 1), 1), Err(StoreError::NotFound));
    db.alerts.push(InfringementAlert {
        alert_id: 1,
        application_id: 4,
        alert_type: s("x"),
        severity: AlertSeverity::Critical,
        description: s("d"),
        detected_at: 1,
        resolved: false,
    });
    assert_eq!(resolve_alert(&mut db, &ctx(id(1), 2), 1), Ok(()));
    assert!(db.alerts[0].resolved);
}

#[test]
fn init_seeds_each_schedule_once() {
    let mut db = Store::new();
    assert_eq!(init(&mut db), Ok(()));
    assert_eq!(init(&mut db), Ok(()));
    assert_eq!(db.monitoring_schedules, vec![monitoring()]);
    assert_eq!(db.analytics_schedules, vec![analytics()]);
    assert_eq!(db.monitoring_schedules[0].interval_micros, 60_000_000);
    assert_eq!(db.analytics_schedules[0].interval_micros, 300_000_000);
}

#[test]
fn id_helpers() {
    assert_eq!(next_id(0), Some(1));
    assert_eq!(next_id(41), Some(42));
    assert_eq!(index_of_id(0, 3), None);
    assert_eq!(index_of_id(3, 3), Some(2));
    assert_eq!(index_of_id(4, 3), None);
    assert_eq!(next_id(usize::MAX), None);
    assert!(authorize(id(1), id(1)));
    assert!(!authorize(id(1), id(2)));
}

#[test]
fn well_formedness_is_detected() {
    let mut db = Store::new();
    assert!(db.is_well_formed());
    let sid = start_collab_session(&mut db, &ctx(id(1), 1), s("S")).unwrap();
    join_collab_session(&mut db, &ctx(id(2), 2), sid).unwrap();
    register_inventor(&mut db, &ctx(id(1), 1), s("n"), s("e"), s("a"), s("k"), s("b")).unwrap();
    upsert_document_generation(&mut db, &ctx(id(1), 1), 1, DocType::Spec, DocGenStatus::Completed, s("")).unwrap();
    assert!(db.is_well_formed());

    let mut gap = Store::new();
    submit_patent(&mut gap, &ctx(id(1), 1), s("T"), s("A"), s("C")).unwrap();
    gap.applications[0].application_id = 5;
    assert!(!gap.is_well_formed());

    let dup = db.participants[1];
    db.participants.push(patent_ecosystem::types::SessionParticipant { row_id: 3, ..dup });
    assert!(!db.is_well_formed());
    db.participants[2].active = false;
    assert!(db.is_well_formed());
    db.participants[2].session_id = 9;
    assert!(!db.is_well_formed());
}

#[test]
fn duplicate_heartbeat_breaks_well_formedness() {
    let mut db = Store::new();
    let app = submit_patent(&mut db, &ctx(id(1), 1), s("T"), s("A"), s("C")).unwrap();
    monitor_tick(&mut db, &ctx(MODULE, 60), monitoring()).unwrap();
    assert!(db.is_well_formed());
    db.alerts.push(InfringementAlert {
        alert_id: 2,
        application_id: app,
        alert_type: s("monitor_heartbeat"),
        severity: AlertSeverity::Low,
        description: s("again"),
        detected_at: 61,
        resolved: true,
    });
    assert!(!db.is_well_formed());
}
