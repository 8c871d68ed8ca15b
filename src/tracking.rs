use vstd::prelude::*;
use crate::store::{documents_unique, has_room, next_id, portfolio_unique, Store, StoreView};
use crate::types::{
    BlockchainRecord, CallContext, DocGenStatus, DocType, DocumentGeneration,
    PatentPortfolioEntry, PortfolioRole, PriorArtResult, StoreError,
};

verus! {

/// The generation row `d` is the one for (`app_id`, `doc_type`).
pub open spec fn is_doc_key(d: DocumentGeneration, app_id: u64, doc_type: DocType) -> bool {
    d.application_id == app_id && d.doc_type == doc_type
}

/// Some generation row exists for (`app_id`, `doc_type`).
pub open spec fn has_doc(docs: Seq<DocumentGeneration>, app_id: u64, doc_type: DocType) -> bool {
    exists|i: int| 0 <= i < docs.len() && #[trigger] is_doc_key(docs[i], app_id, doc_type)
}

/// `after` is `before` with the generation row for (`app_id`, `doc_type`)
/// given `status`, `error_message` and time `now`: overwritten where it
/// exists, appended with the next identifier where it does not.
pub open spec fn doc_upserted(
    before: Seq<DocumentGeneration>,
    after: Seq<DocumentGeneration>,
    app_id: u64,
    doc_type: DocType,
    status: DocGenStatus,
    error_message: String,
    now: i64,
) -> bool {
    if has_doc(before, app_id, doc_type) {
        &&& after.len() == before.len()
        &&& forall|i: int|
            0 <= i < before.len() ==> #[trigger] after[i] == if is_doc_key(before[i], app_id, doc_type) {
                DocumentGeneration { status, error_message, updated_at: now, ..before[i] }
            } else {
                before[i]
            }
    } else {
        after == before.push(
            DocumentGeneration {
                doc_id: (before.len() + 1) as u64,
                application_id: app_id,
                doc_type,
                status,
                error_message,
                updated_at: now,
            },
        )
    }
}

fn find_doc(docs: &Vec<DocumentGeneration>, app_id: u64, doc_type: DocType) -> (r: Option<usize>)
    ensures
        r is None <==> !has_doc(docs@, app_id, doc_type),
        r matches Some(i) ==> i < docs@.len() && is_doc_key(docs@[i as int], app_id, doc_type),
{
    let mut i: usize = 0;
    while i < docs.len()
        invariant
            i <= docs@.len(),
            forall|j: int| 0 <= j < i ==> !is_doc_key(#[trigger] docs@[j], app_id, doc_type),
        decreases docs@.len() - i,
    {
        if docs[i].application_id == app_id && docs[i].doc_type == doc_type {
            assert(is_doc_key(docs@[i as int], app_id, doc_type));
            return Some(i);
        }
        i = i + 1;
    }
    None
}

/// Records the status of the generation job for (`application_id`,
/// `doc_type`): overwrites the existing row for that pair, or inserts one.
/// Fails only when a row must be inserted and the table is full.
pub fn upsert_document_generation(
    db: &mut Store,
    ctx: &CallContext,
    application_id: u64,
    doc_type: DocType,
    status: DocGenStatus,
    error_message: String,
) -> (r: Result<(), StoreError>)
    requires
        old(db)@.wf(),
    ensures
        final(db)@.wf(),
        r is Err <==> !has_doc(old(db)@.documents, application_id, doc_type) && !has_room(
            old(db)@.documents.len(),
        ),
        r is Err ==> r == Err::<(), StoreError>(StoreError::StorageFailure) && final(db)@ == old(
            db,
        )@,
        r is Ok ==> final(db)@ == (StoreView { documents: final(db)@.documents, ..old(db)@ })
            && doc_upserted(
            old(db)@.documents,
            final(db)@.documents,
            application_id,
            doc_type,
            status,
            error_message,
            ctx.timestamp,
        ),
{
    match find_doc(&db.documents, application_id, doc_type) {
        Some(i) => {
            let row = DocumentGeneration {
                doc_id: db.documents[i].doc_id,
                application_id: db.documents[i].application_id,
                doc_type: db.documents[i].doc_type,
                status,
                error_message,
                updated_at: ctx.timestamp,
            };
            let ghost before = db.documents@;
            db.documents.set(i, row);
            assert forall|j: int| 0 <= j < before.len() implies #[trigger] db.documents@[j] == if is_doc_key(
                before[j],
                application_id,
                doc_type,
            ) {
                DocumentGeneration { status, error_message, updated_at: ctx.timestamp, ..before[j] }
            } else {
                before[j]
            } by {
                if j != i {
                    assert(!is_doc_key(before[j], application_id, doc_type));
                }
            }
            assert forall|j: int| 0 <= j < before.len() implies #[trigger] db.documents@[j].application_id
                == before[j].application_id && db.documents@[j].doc_type == before[j].doc_type
                && db.documents@[j].doc_id == before[j].doc_id by {}
            Ok(())
        },
        None => {
            let id = match next_id(db.documents.len()) {
                Some(id) => id,
                None => return Err(StoreError::StorageFailure),
            };
            db.documents.push(
                DocumentGeneration {
                    doc_id: id,
                    application_id,
                    doc_type,
                    status,
                    error_message,
                    updated_at: ctx.timestamp,
                },
            );
            assert forall|j: int| 0 <= j < db.documents@.len() - 1 implies !is_doc_key(
                #[trigger] db.documents@[j],
                application_id,
                doc_type,
            ) by {
                assert(db.documents@[j] == old(db).documents@[j]);
            }
            Ok(())
        },
    }
}

/// Appends one prior-art search result; no deduplication. Returns the new
/// row's identifier. Fails only when the table is full.
pub fn add_prior_art_result(
    db: &mut Store,
    ctx: &CallContext,
    application_id: u64,
    source: String,
    url: String,
    summary: String,
    relevance_score_bits: u32,
) -> (r: Result<u64, StoreError>)
    requires
        old(db)@.wf(),
    ensures
        final(db)@.wf(),
        r is Err <==> !has_room(old(db)@.prior_art.len()),
        r is Err ==> r == Err::<u64, StoreError>(StoreError::StorageFailure) && final(db)@ == old(
            db,
        )@,
        r matches Ok(id) ==> id == old(db)@.prior_art.len() + 1 && final(db)@ == (StoreView {
            prior_art: old(db)@.prior_art.push(
                PriorArtResult {
                    result_id: id,
                    application_id,
                    source,
                    url,
                    summary,
                    relevance_score_bits,
                    found_at: ctx.timestamp,
                },
            ),
            ..old(db)@
        }),
{
    let id = match next_id(db.prior_art.len()) {
        Some(id) => id,
        None => return Err(StoreError::StorageFailure),
    };
    db.prior_art.push(
        PriorArtResult {
            result_id: id,
            application_id,
            source,
            url,
            summary,
            relevance_score_bits,
            found_at: ctx.timestamp,
        },
    );
    Ok(id)
}

/// Appends one anchoring record; the hash and network are kept as given.
/// Returns the new row's identifier. Fails only when the table is full.
pub fn add_blockchain_record(
    db: &mut Store,
    ctx: &CallContext,
    application_id: u64,
    tx_hash: String,
    network: String,
) -> (r: Result<u64, StoreError>)
    requires
        old(db)@.wf(),
    ensures
        final(db)@.wf(),
        r is Err <==> !has_room(old(db)@.blockchain.len()),
        r is Err ==> r == Err::<u64, StoreError>(StoreError::StorageFailure) && final(db)@ == old(
            db,
        )@,
        r matches Ok(id) ==> id == old(db)@.blockchain.len() + 1 && final(db)@ == (StoreView {
            blockchain: old(db)@.blockchain.push(
                BlockchainRecord {
                    record_id: id,
                    application_id,
                    tx_hash,
                    network,
                    recorded_at: ctx.timestamp,
                },
            ),
            ..old(db)@
        }),
{
    let id = match next_id(db.blockchain.len()) {
        Some(id) => id,
        None => return Err(StoreError::StorageFailure),
    };
    db.blockchain.push(
        BlockchainRecord { record_id: id, application_id, tx_hash, network, recorded_at: ctx.timestamp },
    );
    Ok(id)
}

/// The portfolio row `e` is the one for (`owner`, `app_id`, `role`).
pub open spec fn is_portfolio_key(
    e: PatentPortfolioEntry,
    owner: crate::types::Identity,
    app_id: u64,
    role: PortfolioRole,
) -> bool {
    e.owner == owner && e.application_id == app_id && e.role == role
}

/// Some portfolio row exists for (`owner`, `app_id`, `role`).
pub open spec fn has_portfolio_entry(
    entries: Seq<PatentPortfolioEntry>,
    owner: crate::types::Identity,
    app_id: u64,
    role: PortfolioRole,
) -> bool {
    exists|i: int| 0 <= i < entries.len() && #[trigger] is_portfolio_key(entries[i], owner, app_id, role)
}

fn find_portfolio_entry(
    entries: &Vec<PatentPortfolioEntry>,
    owner: crate::types::Identity,
    app_id: u64,
    role: PortfolioRole,
) -> (r: bool)
    ensures
        r == has_portfolio_entry(entries@, owner, app_id, role),
{
    let mut i: usize = 0;
    while i < entries.len()
        invariant
            i <= entries@.len(),
            forall|j: int| 0 <= j < i ==> !is_portfolio_key(#[trigger] entries@[j], owner, app_id, role),
        decreases entries@.len() - i,
    {
        let e = entries[i];
        if e.owner == owner && e.application_id == app_id && e.role == role {
            assert(is_portfolio_key(entries@[i as int], owner, app_id, role));
            return true;
        }
        i = i + 1;
    }
    false
}

/// Records that the caller holds `role` on the application. A request for a
/// row that already exists changes nothing. Fails only when a row must be
/// inserted and the table is full.
pub fn add_to_portfolio(
    db: &mut Store,
    ctx: &CallContext,
    application_id: u64,
    role: PortfolioRole,
) -> (r: Result<(), StoreError>)
    requires
        old(db)@.wf(),
    ensures
        final(db)@.wf(),
        r is Err <==> !has_portfolio_entry(old(db)@.portfolio, ctx.sender, application_id, role)
            && !has_room(old(db)@.portfolio.len()),
        r is Err ==> r == Err::<(), StoreError>(StoreError::StorageFailure),
        has_portfolio_entry(old(db)@.portfolio, ctx.sender, application_id, role) || r is Err
            ==> final(db)@ == old(db)@,
        !has_portfolio_entry(old(db)@.portfolio, ctx.sender, application_id, role) && r is Ok
            ==> final(db)@ == (StoreView {
            portfolio: old(db)@.portfolio.push(
                PatentPortfolioEntry {
                    entry_id: (old(db)@.portfolio.len() + 1) as u64,
                    owner: ctx.sender,
                    application_id,
                    role,
                    added_at: ctx.timestamp,
                },
            ),
            ..old(db)@
        }),
{
    if find_portfolio_entry(&db.portfolio, ctx.sender, application_id, role) {
        return Ok(());
    }
    let id = match next_id(db.portfolio.len()) {
        Some(id) => id,
        None => return Err(StoreError::StorageFailure),
    };
    db.portfolio.push(
        PatentPortfolioEntry {
            entry_id: id,
            owner: ctx.sender,
            application_id,
            role,
            added_at: ctx.timestamp,
        },
    );
    assert forall|j: int| 0 <= j < db.portfolio@.len() - 1 implies !is_portfolio_key(
        #[trigger] db.portfolio@[j],
        ctx.sender,
        application_id,
        role,
    ) by {
        assert(db.portfolio@[j] == old(db).portfolio@[j]);
    }
    Ok(())
}

} // verus!
