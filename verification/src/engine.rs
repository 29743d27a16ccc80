//! The trusted boundary to the embedded store engine.
//!
//! The engine owns the on-disk format, the lexical index and the access
//! evaluation; this layer only coordinates calls into it.  Each call the
//! coordination logic makes goes through one wrapper here, whose contract
//! states — over three names for the handle's otherwise opaque state — what
//! the engine's own source shows of the call: what becomes staged, what
//! becomes committed, and what happens to the index flag.  Everything proved
//! in this crate about store state rests on these contracts.

use vstd::prelude::*;
use crate::model::DocModel;
use crate::model::pairs_view;
use crate::model::put_record;

verus! {

#[verifier::external_type_specification]
#[verifier::external_body]
pub struct ExMemvid(memvid_core::Memvid);

/// The document records durably committed in the store behind this handle,
/// in insertion order, one per ingested document: its stored payload text
/// (for a document the engine re-chunked, the engine's normalized text),
/// its title, its resource identifier, and its key-value tag map.
pub uninterp spec fn committed_docs(m: memvid_core::Memvid) -> Seq<DocModel>;

/// The document records inserted through this handle whose commit has not
/// completed — staged in the engine's write-ahead log, durability undefined
/// — read the same way as the committed ones.
pub uninterp spec fn staged_docs(m: memvid_core::Memvid) -> Seq<DocModel>;

/// Whether the handle's lexical index is enabled.
pub uninterp spec fn lex_on(m: memvid_core::Memvid) -> bool;

/// Relies on memvid_core::Memvid::create: makes a new, empty store file at
/// the path (the parent directory must already exist), locked for this
/// handle.  A fresh store holds nothing committed and nothing staged, and
/// this build of the engine creates it with the lexical index already on.
#[verifier::external_body]
pub(crate) fn mv_create(path: &str) -> (r: Result<memvid_core::Memvid, String>)
    ensures
        r is Ok ==> committed_docs(r->Ok_0) == Seq::<DocModel>::empty(),
        r is Ok ==> staged_docs(r->Ok_0) == Seq::<DocModel>::empty(),
        r is Ok ==> lex_on(r->Ok_0),
{
    memvid_core::Memvid::create(path).map_err(|e| e.to_string())
}

/// Relies on memvid_core::Memvid::open: opens and locks an existing store
/// file and recovers its state.  What that state holds depends on the file,
/// so nothing is stated of it; the startup protocol re-establishes what it
/// needs afterwards.
#[verifier::external_body]
pub(crate) fn mv_open(path: &str) -> (r: Result<memvid_core::Memvid, String>) {
    memvid_core::Memvid::open(path).map_err(|e| e.to_string())
}

/// Relies on memvid_core::Memvid::enable_lex: with the index already on it
/// only re-checks engine state and re-initializes in-memory search state —
/// whether that succeeds or fails, no record and no flag changes; first-time
/// enablement turns the index on and ends in the engine's own commit, which
/// seals whatever was staged.
#[verifier::external_body]
pub(crate) fn mv_enable_lex(m: &mut memvid_core::Memvid) -> (r: Result<(), String>)
    ensures
        r is Ok ==> lex_on(*final(m)),
        r is Ok && lex_on(*old(m)) ==> committed_docs(*final(m)) == committed_docs(*old(m))
            && staged_docs(*final(m)) == staged_docs(*old(m)),
        r is Ok && !lex_on(*old(m)) ==> committed_docs(*final(m)) == committed_docs(*old(m))
            + staged_docs(*old(m)) && staged_docs(*final(m)) == Seq::<DocModel>::empty(),
        r is Err && lex_on(*old(m)) ==> committed_docs(*final(m)) == committed_docs(*old(m))
            && staged_docs(*final(m)) == staged_docs(*old(m)) && lex_on(*final(m)),
{
    m.enable_lex().map_err(|e| e.to_string())
}

/// Relies on memvid_core::Memvid::commit: makes every staged record durable,
/// in insertion order, and leaves nothing staged.  A successful commit with
/// nothing staged changes nothing.  The index flag is untouched.
#[verifier::external_body]
pub(crate) fn mv_commit(m: &mut memvid_core::Memvid) -> (r: Result<(), String>)
    ensures
        r is Ok ==> committed_docs(*final(m)) == committed_docs(*old(m)) + staged_docs(*old(m)),
        r is Ok ==> staged_docs(*final(m)) == Seq::<DocModel>::empty(),
        r is Ok ==> lex_on(*final(m)) == lex_on(*old(m)),
{
    m.commit().map_err(|e| e.to_string())
}

/// Relies on memvid_core::Memvid::put_bytes_with_options: ingests exactly
/// one new document, with the given title and resource identifier, and a
/// tag map carrying the given pairs verbatim (later pairs win on a repeated
/// key; the engine may add derived tags of its own beside them, never over
/// them).  The stored payload equals the given content only for content the
/// engine does not re-chunk — ASCII under 2400 characters; longer or
/// non-ASCII text is normalized (losing, for instance, doubled spaces and
/// carriage returns) and split into chunk frames, so nothing is claimed of
/// the stored text then.  Ordinarily the document is only staged and
/// nothing becomes committed; but when the put's write drives the engine's
/// write-ahead log past its checkpoint threshold, the put ends in the
/// engine's own commit, sealing everything staged — the new document last —
/// and leaving nothing staged.  A failure of that internal commit surfaces
/// as a failure of the put; a put can also fail after its write-ahead
/// append (the instant-index step errors through), leaving the document
/// staged, which is why nothing is claimed on Err.  Instant indexing can
/// make a document findable by the engine's index before this layer's
/// commit; the durability boundary is still the commit.  The index flag is
/// untouched either way.
#[verifier::external_body]
pub(crate) fn mv_put(
    m: &mut memvid_core::Memvid,
    content: &str,
    title: &str,
    uri: &str,
    tags: &Vec<(String, String)>,
) -> (r: Result<(), String>)
    ensures
        r is Ok ==> lex_on(*final(m)) == lex_on(*old(m)),
        r is Ok ==> (staged_docs(*final(m)).len() == staged_docs(*old(m)).len() + 1
            && staged_docs(*final(m)).drop_last() == staged_docs(*old(m)) && committed_docs(
            *final(m),
        ) == committed_docs(*old(m)) && put_record(
            staged_docs(*final(m)).last(),
            content@,
            title@,
            uri@,
            pairs_view(tags@),
        )) || (staged_docs(*final(m)) == Seq::<DocModel>::empty() && committed_docs(
            *final(m),
        ).len() == committed_docs(*old(m)).len() + staged_docs(*old(m)).len() + 1
            && committed_docs(*final(m)).drop_last() == committed_docs(*old(m)) + staged_docs(
            *old(m),
        ) && put_record(
            committed_docs(*final(m)).last(),
            content@,
            title@,
            uri@,
            pairs_view(tags@),
        )),
{
    let mut builder = memvid_core::PutOptions::builder().title(title).uri(uri);
    for t in tags.iter() {
        builder = builder.tag(t.0.as_str(), t.1.as_str());
    }
    match m.put_bytes_with_options(content.as_bytes(), builder.build()) {
        Ok(_) => Ok(()),
        Err(e) => Err(e.to_string()),
    }
}

/// Relies on memvid_core::Memvid::search: executes one query, capped at
/// `top_k` hits of at most `snippet_chars` snippet characters, under a fresh
/// access context for the given subject (no tenant, no roles, no groups) in
/// audit or enforce mode, and projects each hit to its text in the engine's
/// order.  The engine refuses to search while the lexical index is off, and
/// a search never mutates the store's records or the index flag.  Which hits
/// come back is the engine's own affair and is not stated; two calls on the
/// same state may differ.  The cap is bounded because the engine multiplies
/// it for its internal candidate budgets.
#[verifier::external_body]
pub(crate) fn mv_search(
    m: &mut memvid_core::Memvid,
    query: &str,
    top_k: usize,
    snippet_chars: usize,
    subject: &str,
    audit: bool,
) -> (r: Result<Vec<String>, String>)
    requires
        1 <= top_k <= 1000000,
    ensures
        !lex_on(*old(m)) ==> r is Err,
        r is Ok ==> r->Ok_0@.len() <= top_k,
        committed_docs(*final(m)) == committed_docs(*old(m)),
        staged_docs(*final(m)) == staged_docs(*old(m)),
        lex_on(*final(m)) == lex_on(*old(m)),
{
    let context = memvid_core::AclContext { subject_id: Some(subject.to_string()), ..Default::default() };
    let mode = if audit { memvid_core::AclEnforcementMode::Audit } else { memvid_core::AclEnforcementMode::Enforce };
    let request = memvid_core::SearchRequest {
        query: query.to_string(), top_k, snippet_chars,
        uri: None, scope: None, cursor: None, as_of_frame: None, as_of_ts: None,
        no_sketch: false, acl_context: Some(context), acl_enforcement_mode: mode,
    };
    match m.search(request) {
        Ok(resp) => Ok(resp.hits.into_iter().map(|h| h.text).collect()),
        Err(e) => Err(e.to_string()),
    }
}

/// Relies on std::path::Path::exists: true when the path points at an
/// existing filesystem entity.  The filesystem can change under foreign
/// processes, so nothing is stated of the result; callers branch on it and
/// establish what they need through the calls that follow.
#[verifier::external_body]
pub(crate) fn path_exists(path: &str) -> bool {
    std::path::Path::new(path).exists()
}

} // verus!
