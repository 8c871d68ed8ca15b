use vstd::prelude::*;
use crate::store::{authorize, has_room, index_of_id, inventors_unique, next_id, Store, StoreView};
use crate::types::{
    CallContext, Identity, InfringementAlert, InventorProfile, PatentApplication, PatentStatus,
    Stage, StageProgress, StoreError,
};

verus! {

/// Some profile is keyed by `who`.
pub open spec fn has_profile(inv: Seq<InventorProfile>, who: Identity) -> bool {
    exists|i: int| 0 <= i < inv.len() && #[trigger] inv[i].identity == who
}

/// `after` is `before` with the profile of `who` set to the given fields at
/// time `now`: overwritten (creation time kept) where it exists, appended
/// where it does not.
pub open spec fn profile_registered(
    before: Seq<InventorProfile>,
    after: Seq<InventorProfile>,
    who: Identity,
    name: String,
    email: String,
    affiliation: String,
    skills: String,
    bio: String,
    now: i64,
) -> bool {
    if has_profile(before, who) {
        &&& after.len() == before.len()
        &&& forall|i: int|
            0 <= i < before.len() ==> #[trigger] after[i] == if before[i].identity == who {
                InventorProfile { name, email, affiliation, skills, bio, updated_at: now, ..before[i] }
            } else {
                before[i]
            }
    } else {
        after == before.push(
            InventorProfile {
                identity: who,
                name,
                email,
                affiliation,
                skills,
                bio,
                created_at: now,
                updated_at: now,
            },
        )
    }
}

fn find_profile(inv: &Vec<InventorProfile>, who: Identity) -> (r: Option<usize>)
    ensures
        r is None <==> !has_profile(inv@, who),
        r matches Some(i) ==> i < inv@.len() && inv@[i as int].identity == who,
{
    let mut i: usize = 0;
    while i < inv.len()
        invariant
            i <= inv@.len(),
            forall|j: int| 0 <= j < i ==> #[trigger] inv@[j].identity != who,
        decreases inv@.len() - i,
    {
        if inv[i].identity == who {
            return Some(i);
        }
        i = i + 1;
    }
    None
}

/// Creates or overwrites the caller's own profile. Always succeeds.
pub fn register_inventor(
    db: &mut Store,
    ctx: &CallContext,
    name: String,
    email: String,
    affiliation: String,
    skills: String,
    bio: String,
) -> (r: Result<(), StoreError>)
    requires
        old(db)@.wf(),
    ensures
        final(db)@.wf(),
        r is Ok,
        final(db)@ == (StoreView { inventors: final(db)@.inventors, ..old(db)@ }),
        profile_registered(
            old(db)@.inventors,
            final(db)@.inventors,
            ctx.sender,
            name,
            email,
            affiliation,
            skills,
            bio,
            ctx.timestamp,
        ),
{
    let now = ctx.timestamp;
    match find_profile(&db.inventors, ctx.sender) {
        Some(i) => {
            let ghost before = db.inventors@;
            let created_at = db.inventors[i].created_at;
            db.inventors.set(
                i,
                InventorProfile {
                    identity: ctx.sender,
                    name,
                    email,
                    affiliation,
                    skills,
                    bio,
                    created_at,
                    updated_at: now,
                },
            );
            assert forall|j: int| 0 <= j < before.len() implies #[trigger] db.inventors@[j] == if before[j].identity
                == ctx.sender {
                InventorProfile { name, email, affiliation, skills, bio, updated_at: now, ..before[j] }
            } else {
                before[j]
            } by {
                if j != i {
                    assert(before[j].identity != ctx.sender);
                }
            }
            assert(inventors_unique(db.inventors@)) by {
                assert forall|j: int| 0 <= j < before.len() implies #[trigger] db.inventors@[j].identity
                    == before[j].identity by {}
            }
        },
        None => {
            db.inventors.push(
                InventorProfile {
                    identity: ctx.sender,
                    name,
                    email,
                    affiliation,
                    skills,
                    bio,
                    created_at: now,
                    updated_at: now,
                },
            );
            assert forall|j: int| 0 <= j < db.inventors@.len() - 1 implies #[trigger] db.inventors@[j].identity
                != ctx.sender by {
                assert(db.inventors@[j] == old(db).inventors@[j]);
            }
        },
    }
    Ok(())
}

/// The row of the application with identifier `id`, in a store whose
/// identifiers are dense.
pub open spec fn app_row(id: u64) -> int {
    id - 1
}

/// An application with identifier `id` exists.
pub open spec fn app_exists(apps: Seq<PatentApplication>, id: u64) -> bool {
    1 <= id <= apps.len()
}

/// Files a new application owned by the caller, with status `Submitted`.
/// Returns its identifier. Fails only when the table is full.
pub fn submit_patent(
    db: &mut Store,
    ctx: &CallContext,
    title: String,
    abstract_text: String,
    claims_text: String,
) -> (r: Result<u64, StoreError>)
    requires
        old(db)@.wf(),
    ensures
        final(db)@.wf(),
        r is Err <==> !has_room(old(db)@.applications.len()),
        r is Err ==> r == Err::<u64, StoreError>(StoreError::StorageFailure) && final(db)@ == old(
            db,
        )@,
        r matches Ok(id) ==> id == old(db)@.applications.len() + 1 && final(db)@ == (StoreView {
            applications: old(db)@.applications.push(
                PatentApplication {
                    application_id: id,
                    owner: ctx.sender,
                    title,
                    abstract_text,
                    claims_text,
                    status: PatentStatus::Submitted,
                    created_at: ctx.timestamp,
                    last_updated: ctx.timestamp,
                },
            ),
            ..old(db)@
        }),
{
    let id = match next_id(db.applications.len()) {
        Some(id) => id,
        None => return Err(StoreError::StorageFailure),
    };
    db.applications.push(
        PatentApplication {
            application_id: id,
            owner: ctx.sender,
            title,
            abstract_text,
            claims_text,
            status: PatentStatus::Submitted,
            created_at: ctx.timestamp,
            last_updated: ctx.timestamp,
        },
    );
    Ok(id)
}

/// The result of `update_patent_status` on `before`, as (outcome, store after).
pub open spec fn status_updated(
    before: StoreView,
    caller: Identity,
    now: i64,
    application_id: u64,
    new_status: PatentStatus,
) -> (Result<(), StoreError>, StoreView) {
    if !app_exists(before.applications, application_id) {
        (Err(StoreError::NotFound), before)
    } else if before.applications[app_row(application_id)].owner != caller {
        (Err(StoreError::Unauthorized), before)
    } else {
        let a = before.applications[app_row(application_id)];
        (
            Ok(()),
            StoreView {
                applications: before.applications.update(
                    app_row(application_id),
                    PatentApplication { status: new_status, last_updated: now, ..a },
                ),
                ..before
            },
        )
    }
}

/// Sets the status of an application. Only its owner may do so.
pub fn update_patent_status(
    db: &mut Store,
    ctx: &CallContext,
    application_id: u64,
    new_status: PatentStatus,
) -> (r: Result<(), StoreError>)
    requires
        old(db)@.wf(),
    ensures
        final(db)@.wf(),
        (r, final(db)@) == status_updated(
            old(db)@,
            ctx.sender,
            ctx.timestamp,
            application_id,
            new_status,
        ),
{
    let i = match index_of_id(application_id, db.applications.len()) {
        Some(i) => i,
        None => return Err(StoreError::NotFound),
    };
    if !authorize(ctx.sender, db.applications[i].owner) {
        return Err(StoreError::Unauthorized);
    }
    db.applications[i].status = new_status;
    db.applications[i].last_updated = ctx.timestamp;
    assert(db.applications@ =~= old(db).applications@.update(
        i as int,
        PatentApplication {
            status: new_status,
            last_updated: ctx.timestamp,
            ..old(db).applications@[i as int]
        },
    ));
    Ok(())
}

/// The progress row `p` is the one for (`app_id`, `stage`).
pub open spec fn is_progress_key(p: StageProgress, app_id: u64, stage: Stage) -> bool {
    p.application_id == app_id && p.stage == stage
}

/// Some progress row exists for (`app_id`, `stage`).
pub open spec fn has_progress(s: Seq<StageProgress>, app_id: u64, stage: Stage) -> bool {
    exists|i: int| 0 <= i < s.len() && #[trigger] is_progress_key(s[i], app_id, stage)
}

/// `after` is `before` with the progress row for (`app_id`, `stage`) set to
/// `percent` at time `now`: overwritten where it exists, appended where it
/// does not.
pub open spec fn progress_upserted(
    before: Seq<StageProgress>,
    after: Seq<StageProgress>,
    app_id: u64,
    stage: Stage,
    percent: u8,
    now: i64,
) -> bool {
    if has_progress(before, app_id, stage) {
        &&& after.len() == before.len()
        &&& forall|i: int|
            0 <= i < before.len() ==> #[trigger] after[i] == if is_progress_key(before[i], app_id, stage) {
                StageProgress { percent, updated_at: now, ..before[i] }
            } else {
                before[i]
            }
    } else {
        after == before.push(
            StageProgress {
                progress_id: (before.len() + 1) as u64,
                application_id: app_id,
                stage,
                percent,
                updated_at: now,
            },
        )
    }
}

/// `after` is `before` with the last-update time of application `id` set to
/// `now` where it exists, and unchanged where it does not.
pub open spec fn app_touched(
    before: Seq<PatentApplication>,
    after: Seq<PatentApplication>,
    id: u64,
    now: i64,
) -> bool {
    if app_exists(before, id) {
        after == before.update(
            app_row(id),
            PatentApplication { last_updated: now, ..before[app_row(id)] },
        )
    } else {
        after == before
    }
}

fn find_progress(s: &Vec<StageProgress>, app_id: u64, stage: Stage) -> (r: Option<usize>)
    ensures
        r is None <==> !has_progress(s@, app_id, stage),
        r matches Some(i) ==> i < s@.len() && is_progress_key(s@[i as int], app_id, stage),
{
    let mut i: usize = 0;
    while i < s.len()
        invariant
            i <= s@.len(),
            forall|j: int| 0 <= j < i ==> !is_progress_key(#[trigger] s@[j], app_id, stage),
        decreases s@.len() - i,
    {
        if s[i].application_id == app_id && s[i].stage == stage {
            assert(is_progress_key(s@[i as int], app_id, stage));
            return Some(i);
        }
        i = i + 1;
    }
    None
}

/// Records how far an application has come in one stage, and bumps the
/// application's last-update time when it exists (a missing application is
/// not an error). Fails only when a row must be inserted and the table is
/// full.
pub fn update_stage_progress(
    db: &mut Store,
    ctx: &CallContext,
    application_id: u64,
    stage: Stage,
    percent: u8,
) -> (r: Result<(), StoreError>)
    requires
        old(db)@.wf(),
    ensures
        final(db)@.wf(),
        r is Err <==> !has_progress(old(db)@.progress, application_id, stage) && !has_room(
            old(db)@.progress.len(),
        ),
        r is Err ==> r == Err::<(), StoreError>(StoreError::StorageFailure) && final(db)@ == old(
            db,
        )@,
        r is Ok ==> final(db)@ == (StoreView {
            progress: final(db)@.progress,
            applications: final(db)@.applications,
            ..old(db)@
        }),
        r is Ok ==> progress_upserted(
            old(db)@.progress,
            final(db)@.progress,
            application_id,
            stage,
            percent,
            ctx.timestamp,
        ),
        r is Ok ==> app_touched(
            old(db)@.applications,
            final(db)@.applications,
            application_id,
            ctx.timestamp,
        ),
{
    match find_progress(&db.progress, application_id, stage) {
        Some(i) => {
            let ghost before = db.progress@;
            db.progress[i].percent = percent;
            db.progress[i].updated_at = ctx.timestamp;
            assert forall|j: int| 0 <= j < before.len() implies #[trigger] db.progress@[j] == if is_progress_key(
                before[j],
                application_id,
                stage,
            ) {
                StageProgress { percent, updated_at: ctx.timestamp, ..before[j] }
            } else {
                before[j]
            } by {
                if j != i {
                    assert(!is_progress_key(before[j], application_id, stage));
                }
            }
        },
        None => {
            let id = match next_id(db.progress.len()) {
                Some(id) => id,
                None => return Err(StoreError::StorageFailure),
            };
            db.progress.push(
                StageProgress {
                    progress_id: id,
                    application_id,
                    stage,
                    percent,
                    updated_at: ctx.timestamp,
                },
            );
            assert forall|j: int| 0 <= j < db.progress@.len() - 1 implies !is_progress_key(
                #[trigger] db.progress@[j],
                application_id,
                stage,
            ) by {
                assert(db.progress@[j] == old(db).progress@[j]);
            }
        },
    }
    if let Some(k) = index_of_id(application_id, db.applications.len()) {
        db.applications[k].last_updated = ctx.timestamp;
    }
    Ok(())
}

/// Marks an alert resolved.
pub fn resolve_alert(db: &mut Store, ctx: &CallContext, alert_id: u64) -> (r: Result<(), StoreError>)
    requires
        old(db)@.wf(),
    ensures
        final(db)@.wf(),
        !(1 <= alert_id <= old(db)@.alerts.len()) ==> r == Err::<(), StoreError>(
            StoreError::NotFound,
        ) && final(db)@ == old(db)@,
        1 <= alert_id <= old(db)@.alerts.len() ==> r is Ok && final(db)@ == (StoreView {
            alerts: old(db)@.alerts.update(
                alert_id - 1,
                InfringementAlert { resolved: true, ..old(db)@.alerts[alert_id - 1] },
            ),
            ..old(db)@
        }),
{
    let i = match index_of_id(alert_id, db.alerts.len()) {
        Some(i) => i,
        None => return Err(StoreError::NotFound),
    };
    db.alerts[i].resolved = true;
    Ok(())
}

} // verus!
