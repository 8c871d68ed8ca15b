use vstd::prelude::*;
use crate::store::{authorize, has_room, index_of_id, next_id, Store, StoreView};
use crate::types::{CallContext, ConnectionStatus, Identity, InventorConnection, StoreError};

verus! {

/// The connection `c` joins `x` and `y`, in either direction, and is
/// pending or connected.
pub open spec fn is_live_between(c: InventorConnection, x: Identity, y: Identity) -> bool {
    &&& (c.a == x && c.b == y) || (c.a == y && c.b == x)
    &&& c.status == ConnectionStatus::Pending || c.status == ConnectionStatus::Connected
}

/// Some pending or connected edge joins `x` and `y`.
pub open spec fn has_live_edge(conns: Seq<InventorConnection>, x: Identity, y: Identity) -> bool {
    exists|i: int| 0 <= i < conns.len() && #[trigger] is_live_between(conns[i], x, y)
}

/// At most one pending or connected edge joins `x` and `y`.
pub open spec fn at_most_one_live(conns: Seq<InventorConnection>, x: Identity, y: Identity) -> bool {
    forall|i: int, j: int|
        0 <= i < conns.len() && 0 <= j < conns.len() && #[trigger] is_live_between(conns[i], x, y)
            && #[trigger] is_live_between(conns[j], x, y) ==> i == j
}

/// The result of `connect_inventor` on `before`, as (outcome, store after).
pub open spec fn connect_requested(before: StoreView, caller: Identity, now: i64, target: Identity) -> (
    Result<(), StoreError>,
    StoreView,
) {
    if target == caller {
        (Err(StoreError::InvalidArgument), before)
    } else if has_live_edge(before.connections, caller, target) {
        (Ok(()), before)
    } else if !has_room(before.connections.len()) {
        (Err(StoreError::StorageFailure), before)
    } else {
        (
            Ok(()),
            StoreView {
                connections: before.connections.push(
                    InventorConnection {
                        connection_id: (before.connections.len() + 1) as u64,
                        a: caller,
                        b: target,
                        status: ConnectionStatus::Pending,
                        created_at: now,
                        updated_at: now,
                    },
                ),
                ..before
            },
        )
    }
}

fn find_live_edge(conns: &Vec<InventorConnection>, x: Identity, y: Identity) -> (r: bool)
    ensures
        r == has_live_edge(conns@, x, y),
{
    let mut i: usize = 0;
    while i < conns.len()
        invariant
            i <= conns@.len(),
            forall|j: int| 0 <= j < i ==> !is_live_between(#[trigger] conns@[j], x, y),
        decreases conns@.len() - i,
    {
        let c = conns[i];
        let pair = (c.a == x && c.b == y) || (c.a == y && c.b == x);
        if pair && (c.status == ConnectionStatus::Pending || c.status == ConnectionStatus::Connected) {
            assert(is_live_between(conns@[i as int], x, y));
            return true;
        }
        i = i + 1;
    }
    false
}

/// Asks `target` for a connection. A pending or connected edge between the
/// two, in either direction, makes the request a no-op; otherwise a pending
/// edge from the caller to `target` is added. Connecting to oneself fails.
pub fn connect_inventor(db: &mut Store, ctx: &CallContext, target: Identity) -> (r: Result<
    (),
    StoreError,
>)
    requires
        old(db)@.wf(),
    ensures
        final(db)@.wf(),
        (r, final(db)@) == connect_requested(old(db)@, ctx.sender, ctx.timestamp, target),
{
    if target == ctx.sender {
        return Err(StoreError::InvalidArgument);
    }
    if find_live_edge(&db.connections, ctx.sender, target) {
        return Ok(());
    }
    let id = match next_id(db.connections.len()) {
        Some(id) => id,
        None => return Err(StoreError::StorageFailure),
    };
    db.connections.push(
        InventorConnection {
            connection_id: id,
            a: ctx.sender,
            b: target,
            status: ConnectionStatus::Pending,
            created_at: ctx.timestamp,
            updated_at: ctx.timestamp,
        },
    );
    Ok(())
}

/// Accepts or rejects a connection. Either endpoint may respond.
pub fn respond_connection(
    db: &mut Store,
    ctx: &CallContext,
    connection_id: u64,
    accept: bool,
) -> (r: Result<(), StoreError>)
    requires
        old(db)@.wf(),
    ensures
        final(db)@.wf(),
        !(1 <= connection_id <= old(db)@.connections.len()) ==> r == Err::<(), StoreError>(
            StoreError::NotFound,
        ),
        1 <= connection_id <= old(db)@.connections.len() && old(db)@.connections[connection_id
            - 1].a != ctx.sender && old(db)@.connections[connection_id - 1].b != ctx.sender ==> r
            == Err::<(), StoreError>(StoreError::Unauthorized),
        r is Err ==> final(db)@ == old(db)@,
        1 <= connection_id <= old(db)@.connections.len() && (old(db)@.connections[connection_id
            - 1].a == ctx.sender || old(db)@.connections[connection_id - 1].b == ctx.sender) ==> r is Ok
            && final(db)@ == (StoreView {
            connections: old(db)@.connections.update(
                connection_id - 1,
                InventorConnection {
                    status: if accept {
                        ConnectionStatus::Connected
                    } else {
                        ConnectionStatus::Rejected
                    },
                    updated_at: ctx.timestamp,
                    ..old(db)@.connections[connection_id - 1]
                },
            ),
            ..old(db)@
        }),
{
    let i = match index_of_id(connection_id, db.connections.len()) {
        Some(i) => i,
        None => return Err(StoreError::NotFound),
    };
    let c = db.connections[i];
    if !authorize(ctx.sender, c.a) && !authorize(ctx.sender, c.b) {
        return Err(StoreError::Unauthorized);
    }
    let status = if accept {
        ConnectionStatus::Connected
    } else {
        ConnectionStatus::Rejected
    };
    db.connections.set(i, InventorConnection { status, updated_at: ctx.timestamp, ..c });
    Ok(())
}

} // verus!
