//! The session store handle and its coordination protocol.
//!
//! One `MemvidStore` owns one open store engine instance.  Appending builds
//! a tagged record, inserts it and commits before anything else may run;
//! searching re-affirms the lexical index, runs the query under a permissive
//! audit-mode access context and projects hits to plain text.  Callers that
//! share a handle across tasks must serialize these calls behind one
//! mutual-exclusion gate; each method takes the handle exclusively, so no
//! two operations on the same handle can interleave.

use vstd::prelude::*;
use vstd::string::StringExecFns;
use crate::engine::committed_docs;
use crate::engine::lex_on;
use crate::engine::mv_commit;
use crate::engine::mv_create;
use crate::engine::mv_enable_lex;
use crate::engine::mv_open;
use crate::engine::mv_put;
use crate::engine::mv_search;
use crate::engine::path_exists;
use crate::engine::staged_docs;
use crate::errors::StoreError;
use crate::model::DocModel;
use crate::model::StoreModel;
use crate::model::append_model;
use crate::model::enable_model;
use crate::model::lemma_append_model;
use crate::model::frame_tags;
use crate::model::pairs_view;
use crate::model::put_record;
use crate::model::tag_map;
use crate::model::tagged_doc;
use crate::model::verbatim_content;

verus! {

/// The subdirectory of a project root that holds the session store.
pub fn store_dir(project_root: &str) -> (r: String)
    ensures
        r@ == project_root@ + "/"@ + ".codebridge"@,
{
    let mut s = String::from_str(project_root);
    s.append("/");
    s.append(".codebridge");
    s
}

/// The resolved location of the session store file under a project root.
pub fn store_file(project_root: &str) -> (r: String)
    ensures
        r@ == project_root@ + "/"@ + ".codebridge"@ + "/"@ + "sessions.mv2"@,
{
    let mut s = store_dir(project_root);
    s.append("/");
    s.append("sessions.mv2");
    s
}

/// The synthetic resource identifier of a frame appended under `session_id`.
/// All frames of a session deliberately share it, fixed tail included: the
/// identifier names the session, not the frame, and the engine's exact
/// identifier filter then retrieves precisely that session's frames.  A
/// per-frame tail would force session lookup onto the engine's prefix-scope
/// term, which is evaluated only over a capped candidate set and can drop
/// frames.
pub fn frame_uri(session_id: &str) -> (r: String)
    ensures
        r@ == "session://"@ + session_id@ + "/test-id"@,
{
    let mut s = String::from_str("session://");
    s.append(session_id);
    s.append("/test-id");
    s
}

/// The query that retrieves one session's frames: the engine's structured
/// resource-identifier filter, applied to the session-scoped identifier that
/// every appended frame carries.  A tag-equality spelling (the session tag's
/// name, a colon, the identifier) is not used: the engine's query grammar
/// knows a fixed set of field names and reads any other `name:value` pair as
/// plain words, which silently stops scoping; its `uri:` field term is an
/// exact filter.  The engine matches the identifier ASCII-case-
/// insensitively, so session identifiers differing only in case name the
/// same session.
pub fn session_query(session_id: &str) -> (r: String)
    ensures
        r@ == "uri:"@ + ("session://"@ + session_id@ + "/test-id"@),
{
    let uri = frame_uri(session_id);
    let mut s = String::from_str("uri:");
    s.append(uri.as_str());
    s
}

/// The tag pairs of one appended frame: the session identifier, and the
/// content duplicated under the message tag.
fn frame_tag_pairs(content: &str, session_id: &str) -> (r: Vec<(String, String)>)
    ensures
        tag_map(pairs_view(r@)) == frame_tags(content@, session_id@),
{
    let mut v: Vec<(String, String)> = Vec::new();
    v.push((String::from_str("session_id"), String::from_str(session_id)));
    v.push((String::from_str("message"), String::from_str(content)));
    proof {
        let pv = pairs_view(v@);
        assert(pv.len() == 2);
        assert(pv[0] == ("session_id"@, session_id@));
        assert(pv[1] == ("message"@, content@));
        assert(pv.drop_last().len() == 1);
        assert(pv.drop_last().last() == pv[0]);
        assert(pv.drop_last().drop_last().len() == 0);
        assert(tag_map(pv.drop_last().drop_last()) =~= Map::<Seq<char>, Seq<char>>::empty());
        assert(tag_map(pv.drop_last()) == tag_map(pv.drop_last().drop_last()).insert(
            pv.drop_last().last().0,
            pv.drop_last().last().1,
        ));
        assert(tag_map(pv) == tag_map(pv.drop_last()).insert(pv.last().0, pv.last().1));
        assert(pv.last() == pv[1]);
        assert(tag_map(pv) =~= frame_tags(content@, session_id@));
    }
    v
}

/// The exclusively owned handle to one open session store: the engine
/// instance, and the resolved path kept for diagnostics.
pub struct MemvidStore {
    mem: memvid_core::Memvid,
    path: String,
}

impl View for MemvidStore {
    type V = StoreModel;

    closed spec fn view(&self) -> StoreModel {
        StoreModel {
            committed: committed_docs(self.mem),
            staged: staged_docs(self.mem),
            lex_on: lex_on(self.mem),
        }
    }
}

impl MemvidStore {
    /// The state every successful operation leaves behind: nothing staged —
    /// commit had the last word — and the lexical index on.
    pub open spec fn wf(self) -> bool {
        self@.staged.len() == 0 && self@.lex_on
    }

    /// The resolved path of the store file.
    pub closed spec fn spec_path(self) -> Seq<char> {
        self.path@
    }

    /// The resolved path of the store file, for diagnostics.
    pub fn path(&self) -> (r: &String)
        ensures
            r@ == self.spec_path(),
    {
        &self.path
    }

    /// Opens the session store file at `store_path` if one exists, creates a
    /// fresh one there otherwise (the parent directory must already exist),
    /// then enables the lexical index and commits that change durably before
    /// the handle is handed out.  Each failing stage surfaces its own error:
    /// open failure, create failure, index-enable failure, commit failure.
    pub fn open_or_create(store_path: &str) -> (r: Result<MemvidStore, StoreError>)
        ensures
            r is Ok ==> r->Ok_0.wf() && r->Ok_0.spec_path() == store_path@,
            r is Err ==> (r->Err_0 matches StoreError::Open(_) || r->Err_0
                matches StoreError::Create(_) || r->Err_0 matches StoreError::InitIndexEnable(_)
                || r->Err_0 matches StoreError::InitCommit(_)),
    {
        let mut mem = if path_exists(store_path) {
            match mv_open(store_path) {
                Ok(m) => m,
                Err(e) => {
                    return Err(StoreError::Open(e));
                },
            }
        } else {
            match mv_create(store_path) {
                Ok(m) => m,
                Err(e) => {
                    return Err(StoreError::Create(e));
                },
            }
        };
        match mv_enable_lex(&mut mem) {
            Ok(_) => {},
            Err(e) => {
                return Err(StoreError::InitIndexEnable(e));
            },
        }
        match mv_commit(&mut mem) {
            Ok(_) => {},
            Err(e) => {
                return Err(StoreError::InitCommit(e));
            },
        }
        Ok(MemvidStore { mem, path: String::from_str(store_path) })
    }

    /// Appends one frame: under exclusive access, re-affirm the lexical
    /// index (safe when it is already on), insert a record carrying the
    /// content with its session and message tags, and commit before
    /// returning.  On success exactly one record has been added after
    /// everything previously visible or staged, nothing is left staged, and
    /// the index is on; the message tag carries the content verbatim
    /// always, the stored payload only for ASCII content under the engine's
    /// chunking threshold.  On failure the stage that failed is named; a failed
    /// commit leaves the inserted record's durability undefined, and callers
    /// must treat the whole append as failed.
    pub fn append_frame(&mut self, content: &str, session_id: &str) -> (r: Result<
        (),
        StoreError,
    >)
        ensures
            r is Ok ==> final(self).wf(),
            r is Ok ==> final(self)@.committed.len() == old(self)@.committed.len() + old(
                self,
            )@.staged.len() + 1,
            r is Ok ==> final(self)@.committed.drop_last() == old(self)@.committed + old(
                self,
            )@.staged,
            r is Ok ==> tagged_doc(final(self)@.committed.last(), content@, session_id@),
            r is Ok && verbatim_content(content@) ==> final(self)@.committed.last().0 == content@,
            r is Ok ==> final(self)@ == append_model(old(self)@, final(self)@.committed.last()),
            r is Ok && old(self).wf() ==> final(self)@.committed.drop_last() == old(
                self,
            )@.committed,
            r is Err ==> (r->Err_0 matches StoreError::AppendIndexEnable(_) || r->Err_0
                matches StoreError::Insert(_) || r->Err_0 matches StoreError::AppendCommit(_)),
            r is Err && (r->Err_0 matches StoreError::AppendIndexEnable(_)) && old(self).wf()
                ==> final(self)@ == old(self)@ && final(self).wf(),
            final(self).spec_path() == old(self).spec_path(),
    {
        let uri = frame_uri(session_id);
        let tags = frame_tag_pairs(content, session_id);
        match mv_enable_lex(&mut self.mem) {
            Ok(_) => {},
            Err(e) => {
                return Err(StoreError::AppendIndexEnable(e));
            },
        }
        let ghost committed_after_enable = committed_docs(self.mem);
        let ghost staged_after_enable = staged_docs(self.mem);
        match mv_put(&mut self.mem, content, "Test Frame", uri.as_str(), &tags) {
            Ok(_) => {},
            Err(e) => {
                return Err(StoreError::Insert(e));
            },
        }
        let ghost staged_before_commit = staged_docs(self.mem);
        let ghost committed_before_commit = committed_docs(self.mem);
        match mv_commit(&mut self.mem) {
            Ok(_) => {},
            Err(e) => {
                return Err(StoreError::AppendCommit(e));
            },
        }
        proof {
            let all = committed_docs(self.mem);
            assert(all == committed_before_commit + staged_before_commit);
            if staged_before_commit.len() == 0 {
                // The put crossed the engine's checkpoint threshold and
                // committed internally; this call's own commit sealed nothing
                // more.
                assert(all =~= committed_before_commit);
                assert(all.drop_last() == committed_after_enable + staged_after_enable);
            } else {
                assert(committed_before_commit == committed_after_enable);
                assert(all.len() == committed_before_commit.len() + staged_before_commit.len());
                assert(all.last() == staged_before_commit.last());
                assert(all.drop_last() =~= committed_before_commit
                    + staged_before_commit.drop_last());
                assert(all.drop_last() == committed_after_enable + staged_after_enable);
            }
            let d = all.last();
            assert(put_record(d, content@, "Test Frame"@, uri@, pairs_view(tags@)));
            assert(tagged_doc(d, content@, session_id@));
            assert(committed_after_enable + staged_after_enable =~= old(self)@.committed + old(
                self,
            )@.staged);
            assert(all.drop_last() == old(self)@.committed + old(self)@.staged);
            if old(self).wf() {
                assert(old(self)@.committed + old(self)@.staged =~= old(self)@.committed);
            }
            lemma_append_model(old(self)@, d);
            assert(all.len() >= 1);
            assert(all =~= all.drop_last().push(d));
            assert((old(self)@.committed + old(self)@.staged).push(d) =~= old(self)@.committed
                + old(self)@.staged.push(d));
            assert(all =~= old(self)@.committed + old(self)@.staged.push(d));
            assert(staged_docs(self.mem) =~= Seq::<DocModel>::empty());
            assert(self@ == append_model(old(self)@, d));
        }
        Ok(())
    }

    /// Searches the store for `query`: re-affirm the lexical index, then run
    /// the query capped at 10 hits of at most 500 snippet characters each,
    /// under a fresh anonymous audit-mode access context (no tenant, no
    /// roles, no groups; nothing is blocked, only auditable), and return the
    /// hits' text in the engine's order.  A search changes no records: from
    /// any state a successful operation left behind, the store is exactly as
    /// it was — whether the search succeeds or fails.
    pub fn search_text(&mut self, query: &str) -> (r: Result<Vec<String>, StoreError>)
        ensures
            r is Ok ==> r->Ok_0@.len() <= 10,
            r is Ok ==> final(self)@ == enable_model(old(self)@),
            old(self).wf() ==> final(self)@ == old(self)@ && final(self).wf(),
            r is Err ==> (r->Err_0 matches StoreError::SearchIndexEnable(_) || r->Err_0
                matches StoreError::Query(_)),
            final(self).spec_path() == old(self).spec_path(),
    {
        match mv_enable_lex(&mut self.mem) {
            Ok(_) => {},
            Err(e) => {
                return Err(StoreError::SearchIndexEnable(e));
            },
        }
        match mv_search(&mut self.mem, query, 10, 500, "anonymous", true) {
            Ok(hits) => Ok(hits),
            Err(e) => Err(StoreError::Query(e)),
        }
    }

    /// Session-scoped retrieval: exactly a search, with no separate code
    /// path, for the structured resource-identifier filter on the session's
    /// own uri — the one exact per-session filter the engine's query grammar
    /// offers.  Correctness of the scoping rests on every frame of the
    /// session carrying that uri, which the append protocol guarantees.
    pub fn get_session_frames(&mut self, session_id: &str) -> (r: Result<
        Vec<String>,
        StoreError,
    >)
        ensures
            r is Ok ==> r->Ok_0@.len() <= 10,
            r is Ok ==> final(self)@ == enable_model(old(self)@),
            old(self).wf() ==> final(self)@ == old(self)@ && final(self).wf(),
            r is Err ==> (r->Err_0 matches StoreError::SearchIndexEnable(_) || r->Err_0
                matches StoreError::Query(_)),
            final(self).spec_path() == old(self).spec_path(),
    {
        let q = session_query(session_id);
        self.search_text(q.as_str())
    }
}

} // verus!
