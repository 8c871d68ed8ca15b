use vstd::prelude::*;
use crate::collab::{has_active_member, joined, session_exists};
use crate::graph::{at_most_one_live, connect_requested, has_live_edge, is_live_between};
use crate::jobs::{
    has_heartbeat, heartbeats_appended, is_heartbeat_for, is_monitored, pending_heartbeats,
};
use crate::lifecycle::{app_exists, app_row, has_profile, profile_registered, status_updated};
use crate::store::{documents_unique, has_room, inventors_unique, is_active_member, StoreView};
use crate::tracking::{doc_upserted, has_doc, is_doc_key};
use crate::types::{
    CollabStatus, DocGenStatus, DocType, Identity, InfringementAlert, PatentApplication,
    PatentStatus, StoreError,
};

verus! {

/// Registering twice under one identity leaves exactly one profile for it,
/// holding the second registration's fields.
pub proof fn lemma_register_twice_one_profile(
    v0: Seq<crate::types::InventorProfile>,
    v1: Seq<crate::types::InventorProfile>,
    v2: Seq<crate::types::InventorProfile>,
    who: Identity,
    name1: String,
    email1: String,
    affiliation1: String,
    skills1: String,
    bio1: String,
    now1: i64,
    name2: String,
    email2: String,
    affiliation2: String,
    skills2: String,
    bio2: String,
    now2: i64,
)
    requires
        inventors_unique(v0),
        profile_registered(v0, v1, who, name1, email1, affiliation1, skills1, bio1, now1),
        profile_registered(v1, v2, who, name2, email2, affiliation2, skills2, bio2, now2),
    ensures
        has_profile(v2, who),
        forall|i: int, j: int|
            0 <= i < v2.len() && 0 <= j < v2.len() && #[trigger] v2[i].identity == who
                && #[trigger] v2[j].identity == who ==> i == j,
        forall|i: int|
            0 <= i < v2.len() && #[trigger] v2[i].identity == who ==> v2[i].name == name2
                && v2[i].email == email2 && v2[i].affiliation == affiliation2 && v2[i].skills
                == skills2 && v2[i].bio == bio2 && v2[i].updated_at == now2,
{
    assert(has_profile(v1, who)) by {
        if has_profile(v0, who) {
            let k = choose|k: int| 0 <= k < v0.len() && #[trigger] v0[k].identity == who;
            assert(v1[k].identity == who);
        } else {
            assert(v1[v0.len() as int].identity == who);
        }
    }
    assert(inventors_unique(v1)) by {
        if has_profile(v0, who) {
            assert forall|i: int| 0 <= i < v1.len() implies #[trigger] v1[i].identity
                == v0[i].identity by {}
        } else {
            assert forall|i: int| 0 <= i < v0.len() implies #[trigger] v1[i].identity
                == v0[i].identity && v0[i].identity != who by {}
        }
    }
    let k = choose|k: int| 0 <= k < v1.len() && #[trigger] v1[k].identity == who;
    assert(v2[k].identity == who);
    assert forall|i: int| 0 <= i < v2.len() implies #[trigger] v2[i].identity == v1[i].identity by {}
}

/// A caller who does not own an existing application cannot change its
/// status: the update fails with `Unauthorized` and the store is unchanged.
pub proof fn lemma_non_owner_status_update_rejected(
    v: StoreView,
    caller: Identity,
    now: i64,
    application_id: u64,
    new_status: PatentStatus,
)
    requires
        app_exists(v.applications, application_id),
        v.applications[app_row(application_id)].owner != caller,
    ensures
        status_updated(v, caller, now, application_id, new_status) == (
            Err::<(), StoreError>(StoreError::Unauthorized),
            v,
        ),
{
}

/// Two upserts of the same (application, document type) leave exactly one
/// row for the pair, holding the second call's status and error text.
pub proof fn lemma_upsert_twice_one_row(
    d0: Seq<crate::types::DocumentGeneration>,
    d1: Seq<crate::types::DocumentGeneration>,
    d2: Seq<crate::types::DocumentGeneration>,
    app_id: u64,
    doc_type: DocType,
    status1: DocGenStatus,
    error1: String,
    now1: i64,
    status2: DocGenStatus,
    error2: String,
    now2: i64,
)
    requires
        documents_unique(d0),
        doc_upserted(d0, d1, app_id, doc_type, status1, error1, now1),
        doc_upserted(d1, d2, app_id, doc_type, status2, error2, now2),
    ensures
        has_doc(d2, app_id, doc_type),
        forall|i: int, j: int|
            0 <= i < d2.len() && 0 <= j < d2.len() && #[trigger] is_doc_key(d2[i], app_id, doc_type)
                && #[trigger] is_doc_key(d2[j], app_id, doc_type) ==> i == j,
        forall|i: int|
            0 <= i < d2.len() && #[trigger] is_doc_key(d2[i], app_id, doc_type) ==> d2[i].status
                == status2 && d2[i].error_message == error2 && d2[i].updated_at == now2,
{
    assert(has_doc(d1, app_id, doc_type)) by {
        if has_doc(d0, app_id, doc_type) {
            let k = choose|k: int| 0 <= k < d0.len() && #[trigger] is_doc_key(d0[k], app_id, doc_type);
            assert(is_doc_key(d1[k], app_id, doc_type));
        } else {
            assert(is_doc_key(d1[d0.len() as int], app_id, doc_type));
        }
    }
    assert(documents_unique(d1)) by {
        if has_doc(d0, app_id, doc_type) {
            assert forall|i: int| 0 <= i < d1.len() implies #[trigger] d1[i].application_id
                == d0[i].application_id && d1[i].doc_type == d0[i].doc_type by {}
        } else {
            assert forall|i: int| 0 <= i < d0.len() implies #[trigger] d1[i].application_id
                == d0[i].application_id && d1[i].doc_type == d0[i].doc_type && !is_doc_key(
                d0[i],
                app_id,
                doc_type,
            ) by {}
        }
    }
    let k = choose|k: int| 0 <= k < d1.len() && #[trigger] is_doc_key(d1[k], app_id, doc_type);
    assert(is_doc_key(d2[k], app_id, doc_type));
    assert forall|i: int| 0 <= i < d2.len() implies #[trigger] d2[i].application_id
        == d1[i].application_id && d2[i].doc_type == d1[i].doc_type by {}
}

/// A request from `x` to `y` followed by one from `y` to `x` leaves at most
/// one pending or connected edge between them, where there was at most one
/// before.
pub proof fn lemma_connect_both_ways_one_edge(
    v0: StoreView,
    x: Identity,
    y: Identity,
    now1: i64,
    now2: i64,
)
    requires
        at_most_one_live(v0.connections, x, y),
    ensures
        at_most_one_live(
            connect_requested(connect_requested(v0, x, now1, y).1, y, now2, x).1.connections,
            x,
            y,
        ),
{
    let v1 = connect_requested(v0, x, now1, y).1;
    let v2 = connect_requested(v1, y, now2, x).1;
    assert(at_most_one_live(v1.connections, x, y)) by {
        if v1.connections != v0.connections {
            assert forall|i: int| 0 <= i < v0.connections.len() implies !is_live_between(
                #[trigger] v1.connections[i],
                x,
                y,
            ) by {
                assert(v1.connections[i] == v0.connections[i]);
            }
        }
    }
    assert(forall|c| is_live_between(c, y, x) == is_live_between(c, x, y));
    if v2.connections != v1.connections {
        assert(!has_live_edge(v1.connections, y, x));
        assert forall|i: int| 0 <= i < v1.connections.len() implies !is_live_between(
            #[trigger] v2.connections[i],
            x,
            y,
        ) by {
            assert(v2.connections[i] == v1.connections[i]);
            assert(!is_live_between(v1.connections[i], y, x));
        }
    }
}

/// Joining a closed session fails with `InvalidState` and changes nothing.
pub proof fn lemma_join_closed_session_fails(v: StoreView, caller: Identity, now: i64, sid: u64)
    requires
        session_exists(v.sessions, sid),
        v.sessions[sid - 1].status == CollabStatus::Closed,
    ensures
        joined(v, caller, now, sid) == (Err::<(), StoreError>(StoreError::InvalidState), v),
{
}

/// Joining an active session twice from one identity leaves exactly one
/// active membership of it there.
pub proof fn lemma_join_twice_one_membership(
    v0: StoreView,
    caller: Identity,
    now1: i64,
    now2: i64,
    sid: u64,
)
    requires
        v0.wf(),
        session_exists(v0.sessions, sid),
        v0.sessions[sid - 1].status == CollabStatus::Active,
        has_room(v0.participants.len()),
    ensures
        ({
            let v2 = joined(joined(v0, caller, now1, sid).1, caller, now2, sid);
            &&& v2.0 is Ok
            &&& has_active_member(v2.1.participants, sid, caller)
            &&& forall|i: int, j: int|
                0 <= i < v2.1.participants.len() && 0 <= j < v2.1.participants.len()
                    && #[trigger] is_active_member(v2.1.participants[i], sid, caller)
                    && #[trigger] is_active_member(v2.1.participants[j], sid, caller) ==> i == j
        }),
{
    let v1 = joined(v0, caller, now1, sid).1;
    let p0 = v0.participants;
    let p1 = v1.participants;
    assert(has_active_member(p1, sid, caller)) by {
        if !has_active_member(p0, sid, caller) {
            assert(is_active_member(p1[p0.len() as int], sid, caller));
        }
    }
    assert forall|i: int, j: int|
        0 <= i < p1.len() && 0 <= j < p1.len() && #[trigger] is_active_member(p1[i], sid, caller)
            && #[trigger] is_active_member(p1[j], sid, caller) implies i == j by {
        if p1 != p0 {
            if i < p0.len() {
                assert(p1[i] == p0[i]);
            }
            if j < p0.len() {
                assert(p1[j] == p0[j]);
            }
        }
    }
}

proof fn lemma_pending_lists_unwatched(
    apps: Seq<PatentApplication>,
    alerts: Seq<InfringementAlert>,
    i: int,
)
    requires
        0 <= i < apps.len(),
        is_monitored(apps[i]),
        !has_heartbeat(alerts, apps[i].application_id),
    ensures
        pending_heartbeats(apps, alerts).contains(apps[i].application_id),
    decreases apps.len(),
{
    let p = pending_heartbeats(apps, alerts);
    let prev = pending_heartbeats(apps.drop_last(), alerts);
    if i == apps.len() - 1 {
        assert(p.last() == apps[i].application_id);
    } else {
        lemma_pending_lists_unwatched(apps.drop_last(), alerts, i);
        let k = choose|k: int| 0 <= k < prev.len() && prev[k] == apps[i].application_id;
        assert(p[k] == prev[k]);
    }
}

proof fn lemma_pending_empty(apps: Seq<PatentApplication>, alerts: Seq<InfringementAlert>)
    requires
        forall|i: int|
            0 <= i < apps.len() && is_monitored(#[trigger] apps[i]) ==> has_heartbeat(
                alerts,
                apps[i].application_id,
            ),
    ensures
        pending_heartbeats(apps, alerts).len() == 0,
    decreases apps.len(),
{
    if apps.len() > 0 {
        let d = apps.drop_last();
        assert forall|i: int| 0 <= i < d.len() && is_monitored(#[trigger] d[i]) implies has_heartbeat(
            alerts,
            d[i].application_id,
        ) by {
            assert(d[i] == apps[i]);
        }
        lemma_pending_empty(d, alerts);
        assert(apps.last() == apps[apps.len() - 1]);
    }
}

/// After one monitoring tick every watched application has a heartbeat, so
/// a second tick has nothing to append.
pub proof fn lemma_monitor_tick_idempotent(v0: StoreView, v1: StoreView, now: i64)
    requires
        heartbeats_appended(v0, v1, now),
    ensures
        forall|i: int|
            0 <= i < v1.applications.len() && is_monitored(#[trigger] v1.applications[i])
                ==> has_heartbeat(v1.alerts, v1.applications[i].application_id),
        pending_heartbeats(v1.applications, v1.alerts).len() == 0,
{
    let n = v0.alerts.len();
    let p = pending_heartbeats(v0.applications, v0.alerts);
    assert forall|i: int|
        0 <= i < v1.applications.len() && is_monitored(#[trigger] v1.applications[i]) implies has_heartbeat(
        v1.alerts,
        v1.applications[i].application_id,
    ) by {
        let a = v1.applications[i];
        if has_heartbeat(v0.alerts, a.application_id) {
            let k = choose|k: int| 0 <= k < n && #[trigger] is_heartbeat_for(v0.alerts[k], a.application_id);
            assert(v1.alerts.subrange(0, n as int)[k] == v1.alerts[k]);
            assert(is_heartbeat_for(v1.alerts[k], a.application_id));
        } else {
            lemma_pending_lists_unwatched(v0.applications, v0.alerts, i);
            let k = choose|k: int| 0 <= k < p.len() && p[k] == a.application_id;
            assert(is_heartbeat_for(v1.alerts[n + k], p[k]));
        }
    }
    lemma_pending_empty(v1.applications, v1.alerts);
}

} // verus!
