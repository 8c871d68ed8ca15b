use vstd::prelude::*;
use crate::store::{dense_applications, has_room, heartbeats_unique, is_heartbeat, Store, StoreView};
use crate::types::{
    AlertSeverity, AnalyticsSchedule, CallContext, CollabStatus, CollaborationSession,
    InfringementAlert, MarketTrendSnapshot, MonitoringSchedule, PatentApplication, PatentStatus,
    StoreError, TrendMetric,
};

verus! {

/// How often the monitoring job runs, in microseconds.
pub const MONITOR_INTERVAL_MICROS: u64 = 60_000_000;

/// How often the analytics job runs, in microseconds.
pub const ANALYTICS_INTERVAL_MICROS: u64 = 300_000_000;

/// The number of applications with status `Granted`.
pub open spec fn count_granted(s: Seq<PatentApplication>) -> nat
    decreases s.len(),
{
    if s.len() == 0 {
        0
    } else {
        count_granted(s.drop_last()) + if s.last().status == PatentStatus::Granted {
            1nat
        } else {
            0nat
        }
    }
}

/// The number of sessions with status `Active`.
pub open spec fn count_active_sessions(s: Seq<CollaborationSession>) -> nat
    decreases s.len(),
{
    if s.len() == 0 {
        0
    } else {
        count_active_sessions(s.drop_last()) + if s.last().status == CollabStatus::Active {
            1nat
        } else {
            0nat
        }
    }
}

/// The number of alerts not yet resolved.
pub open spec fn count_unresolved(s: Seq<InfringementAlert>) -> nat
    decreases s.len(),
{
    if s.len() == 0 {
        0
    } else {
        count_unresolved(s.drop_last()) + if !s.last().resolved {
            1nat
        } else {
            0nat
        }
    }
}

/// The snapshot row `r` has identifier `id` and records `value` for `metric`
/// over `window`, in segment "global", at time `now`.
pub open spec fn is_snapshot(
    r: MarketTrendSnapshot,
    id: nat,
    metric: TrendMetric,
    value: nat,
    window: Seq<char>,
    now: i64,
) -> bool {
    &&& r.snapshot_id == id
    &&& r.segment@ == "global"@
    &&& r.metric == metric
    &&& r.value == value
    &&& r.window@ == window
    &&& r.computed_at == now
}

/// `after` is `before` with the four snapshot rows of one analytics tick at
/// time `now` appended, and nothing else changed.
pub open spec fn analytics_appended(before: StoreView, after: StoreView, now: i64) -> bool {
    let n = before.snapshots.len();
    &&& after == (StoreView { snapshots: after.snapshots, ..before })
    &&& after.snapshots.len() == n + 4
    &&& after.snapshots.subrange(0, n as int) == before.snapshots
    &&& is_snapshot(
        after.snapshots[n as int],
        n + 1,
        TrendMetric::FilingCount,
        before.applications.len(),
        "all_time"@,
        now,
    )
    &&& is_snapshot(
        after.snapshots[n + 1 as int],
        n + 2,
        TrendMetric::GrantCount,
        count_granted(before.applications),
        "all_time"@,
        now,
    )
    &&& is_snapshot(
        after.snapshots[n + 2 as int],
        n + 3,
        TrendMetric::ActiveSessionCount,
        count_active_sessions(before.sessions),
        "current"@,
        now,
    )
    &&& is_snapshot(
        after.snapshots[n + 3 as int],
        n + 4,
        TrendMetric::AlertCount,
        count_unresolved(before.alerts),
        "current"@,
        now,
    )
}

fn push_snapshot(
    snapshots: &mut Vec<MarketTrendSnapshot>,
    metric: TrendMetric,
    value: u64,
    window: &str,
    now: i64,
)
    requires
        has_room(old(snapshots)@.len()),
    ensures
        final(snapshots)@.len() == old(snapshots)@.len() + 1,
        final(snapshots)@.subrange(0, old(snapshots)@.len() as int) == old(snapshots)@,
        is_snapshot(
            final(snapshots)@.last(),
            old(snapshots)@.len() + 1,
            metric,
            value as nat,
            window@,
            now,
        ),
{
    let id = snapshots.len() as u64 + 1;
    snapshots.push(
        MarketTrendSnapshot {
            snapshot_id: id,
            segment: "global".to_owned(),
            metric,
            value,
            window: window.to_owned(),
            computed_at: now,
        },
    );
    assert(snapshots@.subrange(0, old(snapshots)@.len() as int) =~= old(snapshots)@);
}

fn granted_count(apps: &Vec<PatentApplication>) -> (r: usize)
    ensures
        r == count_granted(apps@),
{
    let mut granted: usize = 0;
    let mut i: usize = 0;
    while i < apps.len()
        invariant
            i <= apps@.len(),
            granted <= i,
            granted == count_granted(apps@.subrange(0, i as int)),
        decreases apps@.len() - i,
    {
        assert(apps@.subrange(0, i + 1).drop_last() =~= apps@.subrange(0, i as int));
        if apps[i].status == PatentStatus::Granted {
            granted = granted + 1;
        }
        i = i + 1;
    }
    assert(apps@.subrange(0, i as int) =~= apps@);
    granted
}

fn active_session_count(sessions: &Vec<CollaborationSession>) -> (r: usize)
    ensures
        r == count_active_sessions(sessions@),
{
    let mut active: usize = 0;
    let mut i: usize = 0;
    while i < sessions.len()
        invariant
            i <= sessions@.len(),
            active <= i,
            active == count_active_sessions(sessions@.subrange(0, i as int)),
        decreases sessions@.len() - i,
    {
        assert(sessions@.subrange(0, i + 1).drop_last() =~= sessions@.subrange(0, i as int));
        if sessions[i].status == CollabStatus::Active {
            active = active + 1;
        }
        i = i + 1;
    }
    assert(sessions@.subrange(0, i as int) =~= sessions@);
    active
}

fn unresolved_count(alerts: &Vec<InfringementAlert>) -> (r: usize)
    ensures
        r == count_unresolved(alerts@),
{
    let mut unresolved: usize = 0;
    let mut i: usize = 0;
    while i < alerts.len()
        invariant
            i <= alerts@.len(),
            unresolved <= i,
            unresolved == count_unresolved(alerts@.subrange(0, i as int)),
        decreases alerts@.len() - i,
    {
        assert(alerts@.subrange(0, i + 1).drop_last() =~= alerts@.subrange(0, i as int));
        if !alerts[i].resolved {
            unresolved = unresolved + 1;
        }
        i = i + 1;
    }
    assert(alerts@.subrange(0, i as int) =~= alerts@);
    unresolved
}

/// The scheduled analytics job: counts all applications, granted
/// applications, active sessions and unresolved alerts, and appends one
/// snapshot row for each count. Only the module's own identity may run it.
pub fn analytics_tick(db: &mut Store, ctx: &CallContext, _info: AnalyticsSchedule) -> (r: Result<
    (),
    StoreError,
>)
    requires
        old(db)@.wf(),
    ensures
        final(db)@.wf(),
        ctx.sender != ctx.module_identity ==> r == Err::<(), StoreError>(StoreError::Unauthorized),
        ctx.sender == ctx.module_identity && !has_room(old(db)@.snapshots.len() + 3) ==> r == Err::<
            (),
            StoreError,
        >(StoreError::StorageFailure),
        r is Err ==> final(db)@ == old(db)@,
        ctx.sender == ctx.module_identity && has_room(old(db)@.snapshots.len() + 3) ==> r is Ok,
        r is Ok ==> analytics_appended(old(db)@, final(db)@, ctx.timestamp),
{
    if ctx.sender != ctx.module_identity {
        return Err(StoreError::Unauthorized);
    }
    if (db.snapshots.len() as u64) >= u64::MAX - 3 {
        return Err(StoreError::StorageFailure);
    }
    let total = db.applications.len();
    let granted = granted_count(&db.applications);
    let active = active_session_count(&db.sessions);
    let unresolved = unresolved_count(&db.alerts);

    let now = ctx.timestamp;
    let ghost s0 = db.snapshots@;
    push_snapshot(&mut db.snapshots, TrendMetric::FilingCount, total as u64, "all_time", now);
    let ghost s1 = db.snapshots@;
    push_snapshot(&mut db.snapshots, TrendMetric::GrantCount, granted as u64, "all_time", now);
    let ghost s2 = db.snapshots@;
    push_snapshot(
        &mut db.snapshots,
        TrendMetric::ActiveSessionCount,
        active as u64,
        "current",
        now,
    );
    let ghost s3 = db.snapshots@;
    push_snapshot(&mut db.snapshots, TrendMetric::AlertCount, unresolved as u64, "current", now);
    proof {
        let n = s0.len() as int;
        assert(s1[n] == s1.last());
        assert(s2[n] == s1[n]) by {
            assert(s2.subrange(0, s1.len() as int)[n] == s2[n]);
        }
        assert(s3[n] == s2[n]) by {
            assert(s3.subrange(0, s2.len() as int)[n] == s3[n]);
        }
        assert(s3[n + 1] == s2[n + 1]) by {
            assert(s3.subrange(0, s2.len() as int)[n + 1] == s3[n + 1]);
        }
        let s4 = db.snapshots@;
        assert(s4.subrange(0, s3.len() as int)[n] == s4[n]);
        assert(s4.subrange(0, s3.len() as int)[n + 1] == s4[n + 1]);
        assert(s4.subrange(0, s3.len() as int)[n + 2] == s4[n + 2]);
        assert(s4.subrange(0, n) =~= s0) by {
            assert forall|k: int| 0 <= k < n implies s4.subrange(0, n)[k] == s0[k] by {
                assert(s4.subrange(0, s3.len() as int)[k] == s4[k]);
                assert(s3.subrange(0, s2.len() as int)[k] == s3[k]);
                assert(s2.subrange(0, s1.len() as int)[k] == s2[k]);
                assert(s1.subrange(0, s0.len() as int)[k] == s1[k]);
            }
        }
        assert forall|k: int| 0 <= k < s4.len() implies #[trigger] s4[k].snapshot_id == k + 1 by {
            if k < n {
                assert(s4.subrange(0, n)[k] == s4[k]);
            } else if k == n + 2 {
                assert(s3[n + 2] == s3.last());
            } else if k == n + 1 {
                assert(s2[n + 1] == s2.last());
            }
        }
    }
    Ok(())
}

/// The application is one that the monitoring job watches.
pub open spec fn is_monitored(a: PatentApplication) -> bool {
    a.status == PatentStatus::Submitted || a.status == PatentStatus::Examination
}

/// The alert is the monitoring heartbeat of application `app_id`.
pub open spec fn is_heartbeat_for(al: InfringementAlert, app_id: u64) -> bool {
    al.application_id == app_id && al.alert_type@ == "monitor_heartbeat"@
}

/// Some alert is the heartbeat of application `app_id`.
pub open spec fn has_heartbeat(alerts: Seq<InfringementAlert>, app_id: u64) -> bool {
    exists|k: int| 0 <= k < alerts.len() && #[trigger] is_heartbeat_for(alerts[k], app_id)
}

/// The ids of the watched applications, in table order, that have no
/// heartbeat yet.
pub open spec fn pending_heartbeats(apps: Seq<PatentApplication>, alerts: Seq<InfringementAlert>) -> Seq<u64>
    decreases apps.len(),
{
    if apps.len() == 0 {
        Seq::empty()
    } else {
        let prev = pending_heartbeats(apps.drop_last(), alerts);
        let a = apps.last();
        if is_monitored(a) && !has_heartbeat(alerts, a.application_id) {
            prev.push(a.application_id)
        } else {
            prev
        }
    }
}

/// The alert row `r` is a heartbeat with identifier `id` for application
/// `app_id`, recorded at `now`: severity low and already resolved.
pub open spec fn is_heartbeat_row(r: InfringementAlert, id: nat, app_id: u64, now: i64) -> bool {
    &&& r.alert_id == id
    &&& is_heartbeat_for(r, app_id)
    &&& r.severity == AlertSeverity::Low
    &&& r.description@ == "Automated monitoring check executed"@
    &&& r.detected_at == now
    &&& r.resolved
}

/// `after` is `before` with one heartbeat appended at time `now` for each
/// watched application that had none, and nothing else changed.
pub open spec fn heartbeats_appended(before: StoreView, after: StoreView, now: i64) -> bool {
    let n = before.alerts.len();
    let p = pending_heartbeats(before.applications, before.alerts);
    &&& after == (StoreView { alerts: after.alerts, ..before })
    &&& after.alerts.len() == n + p.len()
    &&& after.alerts.subrange(0, n as int) == before.alerts
    &&& forall|k: int|
        0 <= k < p.len() ==> is_heartbeat_row(#[trigger] after.alerts[n + k], (n + k + 1) as nat, p[k], now)
}

proof fn lemma_pending_fresh_and_increasing(apps: Seq<PatentApplication>, alerts: Seq<InfringementAlert>)
    requires
        dense_applications(apps),
    ensures
        forall|k: int|
            0 <= k < pending_heartbeats(apps, alerts).len() ==> !has_heartbeat(
                alerts,
                #[trigger] pending_heartbeats(apps, alerts)[k],
            ) && 1 <= pending_heartbeats(apps, alerts)[k] <= apps.len(),
        forall|k1: int, k2: int|
            0 <= k1 < k2 < pending_heartbeats(apps, alerts).len() ==> #[trigger] pending_heartbeats(
                apps,
                alerts,
            )[k1] < #[trigger] pending_heartbeats(apps, alerts)[k2],
    decreases apps.len(),
{
    if apps.len() > 0 {
        let d = apps.drop_last();
        assert forall|i: int| 0 <= i < d.len() implies (#[trigger] d[i]).application_id == i + 1 by {
            assert(d[i] == apps[i]);
        }
        lemma_pending_fresh_and_increasing(d, alerts);
        assert(apps.last().application_id == apps.len());
        let p = pending_heartbeats(apps, alerts);
        let prev = pending_heartbeats(d, alerts);
        let a = apps.last();
        if is_monitored(a) && !has_heartbeat(alerts, a.application_id) {
            assert(p == prev.push(a.application_id));
            assert forall|k: int| 0 <= k < p.len() implies !has_heartbeat(alerts, #[trigger] p[k]) && 1
                <= p[k] <= apps.len() by {
                if k < prev.len() {
                    assert(p[k] == prev[k]);
                }
            }
            assert forall|k1: int, k2: int| 0 <= k1 < k2 < p.len() implies #[trigger] p[k1]
                < #[trigger] p[k2] by {
                assert(p[k1] == prev[k1]);
                if k2 < prev.len() {
                    assert(p[k2] == prev[k2]);
                }
            }
        } else {
            assert(p == prev);
        }
    }
}

fn find_heartbeat(alerts: &Vec<InfringementAlert>, app_id: u64) -> (r: bool)
    ensures
        r == has_heartbeat(alerts@, app_id),
{
    let kind = "monitor_heartbeat".to_owned();
    let mut k: usize = 0;
    while k < alerts.len()
        invariant
            k <= alerts@.len(),
            kind@ == "monitor_heartbeat"@,
            forall|j: int| 0 <= j < k ==> !is_heartbeat_for(#[trigger] alerts@[j], app_id),
        decreases alerts@.len() - k,
    {
        if alerts[k].application_id == app_id && alerts[k].alert_type == kind {
            assert(is_heartbeat_for(alerts@[k as int], app_id));
            return true;
        }
        k = k + 1;
    }
    false
}

fn collect_pending(apps: &Vec<PatentApplication>, alerts: &Vec<InfringementAlert>) -> (r: Vec<u64>)
    ensures
        r@ == pending_heartbeats(apps@, alerts@),
{
    let mut out: Vec<u64> = Vec::new();
    let mut i: usize = 0;
    while i < apps.len()
        invariant
            i <= apps@.len(),
            out@ == pending_heartbeats(apps@.subrange(0, i as int), alerts@),
        decreases apps@.len() - i,
    {
        assert(apps@.subrange(0, i + 1).drop_last() =~= apps@.subrange(0, i as int));
        let st = apps[i].status;
        if st == PatentStatus::Submitted || st == PatentStatus::Examination {
            if !find_heartbeat(alerts, apps[i].application_id) {
                out.push(apps[i].application_id);
            }
        }
        i = i + 1;
    }
    assert(apps@.subrange(0, i as int) =~= apps@);
    out
}

/// The scheduled monitoring job: each watched application (status
/// `Submitted` or `Examination`) that has no heartbeat alert gets exactly
/// one, already resolved. Only the module's own identity may run it.
pub fn monitor_tick(db: &mut Store, ctx: &CallContext, _info: MonitoringSchedule) -> (r: Result<
    (),
    StoreError,
>)
    requires
        old(db)@.wf(),
    ensures
        final(db)@.wf(),
        ctx.sender != ctx.module_identity ==> r == Err::<(), StoreError>(StoreError::Unauthorized),
        ctx.sender == ctx.module_identity && old(db)@.alerts.len() + pending_heartbeats(
            old(db)@.applications,
            old(db)@.alerts,
        ).len() > u64::MAX ==> r == Err::<(), StoreError>(StoreError::StorageFailure),
        r is Err ==> final(db)@ == old(db)@,
        ctx.sender == ctx.module_identity && old(db)@.alerts.len() + pending_heartbeats(
            old(db)@.applications,
            old(db)@.alerts,
        ).len() <= u64::MAX ==> r is Ok,
        r is Ok ==> heartbeats_appended(old(db)@, final(db)@, ctx.timestamp),
{
    if ctx.sender != ctx.module_identity {
        return Err(StoreError::Unauthorized);
    }
    let pending = collect_pending(&db.applications, &db.alerts);
    if pending.len() as u64 > u64::MAX - db.alerts.len() as u64 {
        return Err(StoreError::StorageFailure);
    }
    let ghost a0 = db.alerts@;
    let ghost n = a0.len();
    proof {
        lemma_pending_fresh_and_increasing(db.applications@, a0);
    }
    let mut k: usize = 0;
    while k < pending.len()
        invariant
            k <= pending@.len(),
            n + pending@.len() <= u64::MAX,
            db.alerts@.len() == n + k,
            db.alerts@.subrange(0, n as int) == a0,
            forall|j: int| 0 <= j < n + k ==> #[trigger] db.alerts@[j].alert_id == j + 1,
            forall|j: int|
                0 <= j < k ==> is_heartbeat_row(#[trigger] db.alerts@[n + j], (n + j + 1) as nat, pending@[j], ctx.timestamp),
            db@ == (StoreView { alerts: db.alerts@, ..old(db)@ }),
            pending@ == pending_heartbeats(old(db)@.applications, a0),
            heartbeats_unique(db.alerts@),
            forall|j: int| 0 <= j < pending@.len() ==> !has_heartbeat(a0, #[trigger] pending@[j]),
            forall|j1: int, j2: int|
                0 <= j1 < j2 < pending@.len() ==> #[trigger] pending@[j1] < #[trigger] pending@[j2],
        decreases pending@.len() - k,
    {
        let id = db.alerts.len() as u64 + 1;
        let ghost before = db.alerts@;
        db.alerts.push(
            InfringementAlert {
                alert_id: id,
                application_id: pending[k],
                alert_type: "monitor_heartbeat".to_owned(),
                severity: AlertSeverity::Low,
                description: "Automated monitoring check executed".to_owned(),
                detected_at: ctx.timestamp,
                resolved: true,
            },
        );
        proof {
            assert forall|j: int| 0 <= j < n implies db.alerts@.subrange(0, n as int)[j] == a0[j] by {
                assert(before.subrange(0, n as int)[j] == before[j]);
            }
            assert(db.alerts@.subrange(0, n as int) =~= a0);
            assert forall|j: int|
                0 <= j < k + 1 implies is_heartbeat_row(
                #[trigger] db.alerts@[n + j],
                (n + j + 1) as nat,
                pending@[j],
                ctx.timestamp,
            ) by {
                if j < k {
                    assert(db.alerts@[n + j] == before[n + j]);
                }
            }
            assert forall|i: int|
                0 <= i < before.len() && is_heartbeat(#[trigger] db.alerts@[i])
                    implies db.alerts@[i].application_id != pending@[k as int] by {
                assert(db.alerts@[i] == before[i]);
                if i < n {
                    assert(before.subrange(0, n as int)[i] == before[i]);
                    if before[i].application_id == pending@[k as int] {
                        assert(is_heartbeat_for(a0[i], pending@[k as int]));
                    }
                } else {
                    let j = i - n;
                    assert(is_heartbeat_row(before[n + j], (n + j + 1) as nat, pending@[j], ctx.timestamp));
                    assert(pending@[j] < pending@[k as int]);
                }
            }
            assert(heartbeats_unique(db.alerts@)) by {
                assert forall|i: int, j: int|
                    0 <= i < db.alerts@.len() && 0 <= j < db.alerts@.len() && is_heartbeat(
                        #[trigger] db.alerts@[i],
                    ) && is_heartbeat(#[trigger] db.alerts@[j]) && db.alerts@[i].application_id
                        == db.alerts@[j].application_id implies i == j by {
                    if i < before.len() && j < before.len() {
                        assert(db.alerts@[i] == before[i]);
                        assert(db.alerts@[j] == before[j]);
                    }
                }
            }
        }
        k = k + 1;
    }
    Ok(())
}

/// Registers the two scheduled jobs, each only when it has no registration
/// yet: monitoring every minute and analytics every five minutes.
pub fn init(db: &mut Store) -> (r: Result<(), StoreError>)
    requires
        old(db)@.wf(),
    ensures
        final(db)@.wf(),
        r is Ok,
        final(db)@ == (StoreView {
            monitoring_schedules: final(db)@.monitoring_schedules,
            analytics_schedules: final(db)@.analytics_schedules,
            ..old(db)@
        }),
        old(db)@.monitoring_schedules.len() == 0 ==> final(db)@.monitoring_schedules == seq![
            MonitoringSchedule { scheduled_id: 1, interval_micros: MONITOR_INTERVAL_MICROS },
        ],
        old(db)@.monitoring_schedules.len() != 0 ==> final(db)@.monitoring_schedules == old(
            db,
        )@.monitoring_schedules,
        old(db)@.analytics_schedules.len() == 0 ==> final(db)@.analytics_schedules == seq![
            AnalyticsSchedule { scheduled_id: 1, interval_micros: ANALYTICS_INTERVAL_MICROS },
        ],
        old(db)@.analytics_schedules.len() != 0 ==> final(db)@.analytics_schedules == old(
            db,
        )@.analytics_schedules,
{
    if db.monitoring_schedules.len() == 0 {
        db.monitoring_schedules.push(
            MonitoringSchedule { scheduled_id: 1, interval_micros: MONITOR_INTERVAL_MICROS },
        );
        assert(db.monitoring_schedules@ =~= seq![
            MonitoringSchedule { scheduled_id: 1, interval_micros: MONITOR_INTERVAL_MICROS },
        ]);
    }
    if db.analytics_schedules.len() == 0 {
        db.analytics_schedules.push(
            AnalyticsSchedule { scheduled_id: 1, interval_micros: ANALYTICS_INTERVAL_MICROS },
        );
        assert(db.analytics_schedules@ =~= seq![
            AnalyticsSchedule { scheduled_id: 1, interval_micros: ANALYTICS_INTERVAL_MICROS },
        ]);
    }
    Ok(())
}

} // verus!
