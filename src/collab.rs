use vstd::prelude::*;
use crate::store::{authorize, has_room, index_of_id, is_active_member, next_id, Store, StoreView};
use crate::types::{
    CallContext, CollabStatus, CollaborationSession, Identity, SessionParticipant, StoreError,
};

verus! {

/// Some participant row is an active membership of `who` in session `sid`.
pub open spec fn has_active_member(parts: Seq<SessionParticipant>, sid: u64, who: Identity) -> bool {
    exists|i: int| 0 <= i < parts.len() && #[trigger] is_active_member(parts[i], sid, who)
}

/// A session with identifier `sid` exists.
pub open spec fn session_exists(sessions: Seq<CollaborationSession>, sid: u64) -> bool {
    1 <= sid <= sessions.len()
}

fn find_active_member(parts: &Vec<SessionParticipant>, sid: u64, who: Identity) -> (r: bool)
    ensures
        r == has_active_member(parts@, sid, who),
{
    let mut i: usize = 0;
    while i < parts.len()
        invariant
            i <= parts@.len(),
            forall|j: int| 0 <= j < i ==> !is_active_member(#[trigger] parts@[j], sid, who),
        decreases parts@.len() - i,
    {
        let p = parts[i];
        if p.session_id == sid && p.participant == who && p.active {
            assert(is_active_member(parts@[i as int], sid, who));
            return true;
        }
        i = i + 1;
    }
    false
}

/// Opens a new active session created by the caller, with the caller as its
/// first active participant. Returns the session's identifier. Fails only
/// when the session or participant table is full.
pub fn start_collab_session(db: &mut Store, ctx: &CallContext, title: String) -> (r: Result<
    u64,
    StoreError,
>)
    requires
        old(db)@.wf(),
    ensures
        final(db)@.wf(),
        r is Err <==> !has_room(old(db)@.sessions.len()) || !has_room(old(db)@.participants.len()),
        r is Err ==> r == Err::<u64, StoreError>(StoreError::StorageFailure) && final(db)@ == old(
            db,
        )@,
        r matches Ok(sid) ==> sid == old(db)@.sessions.len() + 1 && final(db)@ == (StoreView {
            sessions: old(db)@.sessions.push(
                CollaborationSession {
                    session_id: sid,
                    title,
                    created_by: ctx.sender,
                    status: CollabStatus::Active,
                    started_at: ctx.timestamp,
                    ended_at: ctx.timestamp,
                    ended: false,
                },
            ),
            participants: old(db)@.participants.push(
                SessionParticipant {
                    row_id: (old(db)@.participants.len() + 1) as u64,
                    session_id: sid,
                    participant: ctx.sender,
                    joined_at: ctx.timestamp,
                    active: true,
                },
            ),
            ..old(db)@
        }),
{
    let sid = match next_id(db.sessions.len()) {
        Some(id) => id,
        None => return Err(StoreError::StorageFailure),
    };
    let row_id = match next_id(db.participants.len()) {
        Some(id) => id,
        None => return Err(StoreError::StorageFailure),
    };
    let now = ctx.timestamp;
    db.sessions.push(
        CollaborationSession {
            session_id: sid,
            title,
            created_by: ctx.sender,
            status: CollabStatus::Active,
            started_at: now,
            ended_at: now,
            ended: false,
        },
    );
    db.participants.push(
        SessionParticipant {
            row_id,
            session_id: sid,
            participant: ctx.sender,
            joined_at: now,
            active: true,
        },
    );
    assert forall|j: int| 0 <= j < db.participants@.len() - 1 implies #[trigger] db.participants@[j].session_id
        != sid by {
        assert(db.participants@[j] == old(db).participants@[j]);
    }
    Ok(sid)
}

/// The result of `join_collab_session` on `before`, as (outcome, store after).
pub open spec fn joined(before: StoreView, caller: Identity, now: i64, sid: u64) -> (
    Result<(), StoreError>,
    StoreView,
) {
    if !session_exists(before.sessions, sid) {
        (Err(StoreError::NotFound), before)
    } else if before.sessions[sid - 1].status != CollabStatus::Active {
        (Err(StoreError::InvalidState), before)
    } else if has_active_member(before.participants, sid, caller) {
        (Ok(()), before)
    } else if !has_room(before.participants.len()) {
        (Err(StoreError::StorageFailure), before)
    } else {
        (
            Ok(()),
            StoreView {
                participants: before.participants.push(
                    SessionParticipant {
                        row_id: (before.participants.len() + 1) as u64,
                        session_id: sid,
                        participant: caller,
                        joined_at: now,
                        active: true,
                    },
                ),
                ..before
            },
        )
    }
}

/// Adds the caller as an active participant of an active session; a caller
/// who already is one changes nothing.
pub fn join_collab_session(db: &mut Store, ctx: &CallContext, session_id: u64) -> (r: Result<
    (),
    StoreError,
>)
    requires
        old(db)@.wf(),
    ensures
        final(db)@.wf(),
        (r, final(db)@) == joined(old(db)@, ctx.sender, ctx.timestamp, session_id),
{
    let i = match index_of_id(session_id, db.sessions.len()) {
        Some(i) => i,
        None => return Err(StoreError::NotFound),
    };
    if db.sessions[i].status != CollabStatus::Active {
        return Err(StoreError::InvalidState);
    }
    if find_active_member(&db.participants, session_id, ctx.sender) {
        return Ok(());
    }
    let row_id = match next_id(db.participants.len()) {
        Some(id) => id,
        None => return Err(StoreError::StorageFailure),
    };
    db.participants.push(
        SessionParticipant {
            row_id,
            session_id,
            participant: ctx.sender,
            joined_at: ctx.timestamp,
            active: true,
        },
    );
    assert forall|j: int| 0 <= j < db.participants@.len() - 1 implies !is_active_member(
        #[trigger] db.participants@[j],
        session_id,
        ctx.sender,
    ) by {
        assert(db.participants@[j] == old(db).participants@[j]);
    }
    Ok(())
}

/// `after` is `before` with every active membership of `who` in session
/// `sid` made inactive, and every other row kept.
pub open spec fn memberships_left(
    before: Seq<SessionParticipant>,
    after: Seq<SessionParticipant>,
    sid: u64,
    who: Identity,
) -> bool {
    &&& after.len() == before.len()
    &&& forall|i: int|
        0 <= i < before.len() ==> #[trigger] after[i] == if is_active_member(before[i], sid, who) {
            SessionParticipant { active: false, ..before[i] }
        } else {
            before[i]
        }
}

/// Deactivates (does not delete) every active membership of the caller in
/// the session. Always succeeds, also for a caller who never joined.
pub fn leave_collab_session(db: &mut Store, ctx: &CallContext, session_id: u64) -> (r: Result<
    (),
    StoreError,
>)
    requires
        old(db)@.wf(),
    ensures
        final(db)@.wf(),
        r is Ok,
        final(db)@ == (StoreView { participants: final(db)@.participants, ..old(db)@ }),
        memberships_left(old(db)@.participants, final(db)@.participants, session_id, ctx.sender),
{
    let mut i: usize = 0;
    while i < db.participants.len()
        invariant
            old(db)@.wf(),
            i <= db.participants@.len(),
            db@ == (StoreView { participants: db.participants@, ..old(db)@ }),
            db.participants@.len() == old(db)@.participants.len(),
            forall|j: int|
                0 <= j < i ==> #[trigger] db.participants@[j] == if is_active_member(
                    old(db)@.participants[j],
                    session_id,
                    ctx.sender,
                ) {
                    SessionParticipant { active: false, ..old(db)@.participants[j] }
                } else {
                    old(db)@.participants[j]
                },
            forall|j: int| i <= j < db.participants@.len() ==> #[trigger] db.participants@[j] == old(db)@.participants[j],
        decreases db.participants@.len() - i,
    {
        let p = db.participants[i];
        if p.session_id == session_id && p.participant == ctx.sender && p.active {
            db.participants.set(i, SessionParticipant { active: false, ..p });
        }
        i = i + 1;
    }
    assert(memberships_left(old(db)@.participants, db.participants@, session_id, ctx.sender));
    assert forall|j: int| 0 <= j < db.participants@.len() implies #[trigger] db.participants@[j].active
        ==> db.participants@[j] == old(db)@.participants[j] by {}
    Ok(())
}

/// Closes a session for good. Only its creator may do so; closing a closed
/// session applies the same values again.
pub fn close_collab_session(db: &mut Store, ctx: &CallContext, session_id: u64) -> (r: Result<
    (),
    StoreError,
>)
    requires
        old(db)@.wf(),
    ensures
        final(db)@.wf(),
        !session_exists(old(db)@.sessions, session_id) ==> r == Err::<(), StoreError>(
            StoreError::NotFound,
        ),
        session_exists(old(db)@.sessions, session_id) && old(db)@.sessions[session_id
            - 1].created_by != ctx.sender ==> r == Err::<(), StoreError>(StoreError::Unauthorized),
        r is Err ==> final(db)@ == old(db)@,
        session_exists(old(db)@.sessions, session_id) && old(db)@.sessions[session_id
            - 1].created_by == ctx.sender ==> r is Ok && final(db)@ == (StoreView {
            sessions: old(db)@.sessions.update(
                session_id - 1,
                CollaborationSession {
                    status: CollabStatus::Closed,
                    ended: true,
                    ended_at: ctx.timestamp,
                    ..old(db)@.sessions[session_id - 1]
                },
            ),
            ..old(db)@
        }),
{
    let i = match index_of_id(session_id, db.sessions.len()) {
        Some(i) => i,
        None => return Err(StoreError::NotFound),
    };
    if !authorize(ctx.sender, db.sessions[i].created_by) {
        return Err(StoreError::Unauthorized);
    }
    db.sessions[i].status = CollabStatus::Closed;
    db.sessions[i].ended = true;
    db.sessions[i].ended_at = ctx.timestamp;
    assert(db.sessions@ =~= old(db).sessions@.update(
        i as int,
        CollaborationSession {
            status: CollabStatus::Closed,
            ended: true,
            ended_at: ctx.timestamp,
            ..old(db).sessions@[i as int]
        },
    ));
    Ok(())
}

} // verus!
