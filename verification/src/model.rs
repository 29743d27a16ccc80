//! The mathematical model of the session store.
//!
//! A record is a payload text together with a key-value tag map.  A store
//! state holds the records already committed (durable, visible to search),
//! the records staged by an insert whose commit has not completed, and the
//! state of the lexical index.  The spec functions here define what each
//! protocol step does to that state; the proof functions state the laws of
//! the coordination layer over them.

use vstd::prelude::*;

verus! {

/// One record as the store model sees it, in this order: the payload text,
/// the title, the resource identifier, and the key-value tags attached to
/// it.
pub type DocModel = (Seq<char>, Seq<char>, Seq<char>, Map<Seq<char>, Seq<char>>);

/// The state of one store handle: the committed records in insertion order,
/// the staged (inserted, not yet committed) records in insertion order, and
/// whether the lexical index is enabled.
pub ghost struct StoreModel {
    pub committed: Seq<DocModel>,
    pub staged: Seq<DocModel>,
    pub lex_on: bool,
}

/// The tag under which a record names its session.
pub open spec fn session_key() -> Seq<char> {
    "session_id"@
}

/// The tag under which a record duplicates its payload.
pub open spec fn message_key() -> Seq<char> {
    "message"@
}

/// The fixed title this layer gives every appended frame.
pub open spec fn frame_title() -> Seq<char> {
    "Test Frame"@
}

/// The resource identifier this layer gives every frame of `session`.  All
/// of a session's frames deliberately share it: it names the session, and
/// the engine's exact identifier filter then retrieves precisely that
/// session's frames.
pub open spec fn session_uri(session: Seq<char>) -> Seq<char> {
    "session://"@ + session + "/test-id"@
}

/// The tags this layer attaches when appending `content` under `session`.
pub open spec fn frame_tags(content: Seq<char>, session: Seq<char>) -> Map<Seq<char>, Seq<char>> {
    Map::empty().insert(session_key(), session).insert(message_key(), content)
}

/// The tag map that a sequence of key-value pairs builds up, later entries
/// winning on a repeated key.
pub open spec fn tag_map(pairs: Seq<(Seq<char>, Seq<char>)>) -> Map<Seq<char>, Seq<char>>
    decreases pairs.len(),
{
    if pairs.len() == 0 {
        Map::empty()
    } else {
        tag_map(pairs.drop_last()).insert(pairs.last().0, pairs.last().1)
    }
}

/// The view of executable tag pairs.
pub open spec fn pairs_view(pairs: Seq<(String, String)>) -> Seq<(Seq<char>, Seq<char>)> {
    pairs.map_values(|p: (String, String)| (p.0@, p.1@))
}

/// Whether every character of `s` is ASCII.
pub open spec fn ascii_seq(s: Seq<char>) -> bool {
    forall|i: int| 0 <= i < s.len() ==> ((#[trigger] s[i]) as u32) < 128
}

/// Content whose stored payload the engine keeps verbatim: ASCII text under
/// the engine's chunking threshold of 2400 characters.  ASCII cannot grow
/// under the engine's text normalization (NFKC is the identity on it, and
/// the cleaning pass only drops or maps characters one for one), so such
/// content never reaches the chunked representation, whose stored text is
/// the normalized — and so possibly changed — form.
pub open spec fn verbatim_content(content: Seq<char>) -> bool {
    &&& content.len() < 2400
    &&& ascii_seq(content)
}

/// A record as this layer writes it for `content` under `session`: the
/// title is fixed, the resource identifier is the session's, and the tags
/// carry at least the session identifier and a duplicate of the content,
/// verbatim, under the message tag.  The engine may add tags of its own; it
/// never displaces these.  The stored payload text is pinned separately,
/// and only for content the engine stores verbatim.
pub open spec fn tagged_doc(d: DocModel, content: Seq<char>, session: Seq<char>) -> bool {
    &&& d.1 == frame_title()
    &&& d.2 == session_uri(session)
    &&& frame_tags(content, session).submap_of(d.3)
}

/// What one insert leaves in the record: the given title and resource
/// identifier, a tag map carrying at least the given pairs, and — only for
/// content the engine stores verbatim — the payload text itself.  Longer or
/// non-ASCII content is normalized and re-chunked by the engine, and then
/// only the tags carry it unchanged.
pub open spec fn put_record(
    d: DocModel,
    content: Seq<char>,
    title: Seq<char>,
    uri: Seq<char>,
    pairs: Seq<(Seq<char>, Seq<char>)>,
) -> bool {
    &&& verbatim_content(content) ==> d.0 == content
    &&& d.1 == title
    &&& d.2 == uri
    &&& tag_map(pairs).submap_of(d.3)
}

/// The content a record carries, read off its message tag — the one place
/// the appended text survives verbatim whatever shape the engine stores the
/// payload in.
pub open spec fn doc_message(d: DocModel) -> Option<Seq<char>> {
    if d.3.dom().contains(message_key()) {
        Some(d.3[message_key()])
    } else {
        None
    }
}

/// The session a record belongs to, read off its session tag.
pub open spec fn doc_session(d: DocModel) -> Option<Seq<char>> {
    if d.3.dom().contains(session_key()) {
        Some(d.3[session_key()])
    } else {
        None
    }
}

/// The records of one session, in store order, keyed by the session tag.
pub open spec fn session_docs(docs: Seq<DocModel>, session: Seq<char>) -> Seq<DocModel> {
    docs.filter(|d: DocModel| doc_session(d) == Some(session))
}

/// The records carrying one resource identifier, in store order: the model
/// of the engine's exact identifier filter, which the session lookup issues.
pub open spec fn uri_docs(docs: Seq<DocModel>, uri: Seq<char>) -> Seq<DocModel> {
    docs.filter(|d: DocModel| d.2 == uri)
}

/// Whether `needle` occurs as a contiguous run of `hay`.
pub open spec fn contains_seq(hay: Seq<char>, needle: Seq<char>) -> bool {
    exists|i: int|
        0 <= i && i + needle.len() <= hay.len() && #[trigger] hay.subrange(i, i + needle.len())
            == needle
}

/// Whether a record's appended content contains the query text, anchored at
/// the message tag so it means the same thing for verbatim and for chunked
/// records.
pub open spec fn doc_matches(d: DocModel, query: Seq<char>) -> bool {
    &&& doc_message(d) is Some
    &&& contains_seq(doc_message(d)->Some_0, query)
}

/// The records whose appended content contains the query text: the model of
/// an exact substring search over a set of records.
pub open spec fn matching_docs(docs: Seq<DocModel>, query: Seq<char>) -> Seq<DocModel> {
    docs.filter(|d: DocModel| doc_matches(d, query))
}

/// Enabling the lexical index: a no-op when it is already on; first-time
/// enablement turns it on and seals everything staged, because the engine
/// commits as part of it.
pub open spec fn enable_model(v: StoreModel) -> StoreModel {
    if v.lex_on {
        v
    } else {
        StoreModel { committed: v.committed + v.staged, staged: Seq::empty(), lex_on: true }
    }
}

/// Inserting a record stages it; nothing becomes visible.
pub open spec fn put_model(v: StoreModel, d: DocModel) -> StoreModel {
    StoreModel { committed: v.committed, staged: v.staged.push(d), lex_on: v.lex_on }
}

/// Committing seals everything staged, in insertion order.
pub open spec fn commit_model(v: StoreModel) -> StoreModel {
    StoreModel { committed: v.committed + v.staged, staged: Seq::empty(), lex_on: v.lex_on }
}

/// One whole append under the lock: re-affirm the index, stage the record,
/// commit.
pub open spec fn append_model(v: StoreModel, d: DocModel) -> StoreModel {
    commit_model(put_model(enable_model(v), d))
}

/// The record this layer builds for `content` under `session`, when the
/// engine adds no tags of its own and stores the content verbatim.
pub open spec fn doc_of(content: Seq<char>, session: Seq<char>) -> DocModel {
    (content, frame_title(), session_uri(session), frame_tags(content, session))
}

/// A whole sequence of appends, each one serialized after the one before.
pub open spec fn append_all(v: StoreModel, reqs: Seq<(Seq<char>, Seq<char>)>) -> StoreModel
    decreases reqs.len(),
{
    if reqs.len() == 0 {
        v
    } else {
        append_model(append_all(v, reqs.drop_last()), doc_of(reqs.last().0, reqs.last().1))
    }
}

/// What one append leaves behind, whatever the index state was before: the
/// committed records are the old committed ones, then the old staged ones,
/// then the new record; nothing is left staged; the index is on.
pub proof fn lemma_append_model(v: StoreModel, d: DocModel)
    ensures
        append_model(v, d).committed =~= v.committed + v.staged.push(d),
        append_model(v, d).staged =~= Seq::<DocModel>::empty(),
        append_model(v, d).lex_on,
{
}

/// Law: enabling the lexical index is idempotent.  Enabling twice in a row
/// leaves exactly the state of enabling once, and enabling when the index is
/// already on changes nothing at all: no duplicate index state exists.
pub proof fn lemma_enable_idempotent(v: StoreModel)
    ensures
        enable_model(enable_model(v)) == enable_model(v),
        v.lex_on ==> enable_model(v) == v,
{
}

/// Law: commit is the single visibility boundary.  Staging a record changes
/// nothing committed, so a search run before the commit completes observes
/// no trace of it; the commit then makes it visible.
pub proof fn lemma_commit_atomicity(v: StoreModel, d: DocModel)
    requires
        v.staged.len() == 0,
    ensures
        put_model(enable_model(v), d).committed =~= enable_model(v).committed,
        commit_model(put_model(enable_model(v), d)).committed =~= enable_model(
            v,
        ).committed.push(d),
{
    assert(put_model(enable_model(v), d).staged =~= enable_model(v).staged.push(d));
    assert(enable_model(v).staged =~= Seq::<DocModel>::empty());
}

/// Law: a unique marker's visibility flips only at the commit.  If no
/// committed record's content contains the marker and the new record's
/// does, a substring search over the committed records finds nothing
/// between the insert and the commit, and exactly one record once the
/// commit has completed.
pub proof fn lemma_marker_visibility(v: StoreModel, d: DocModel, q: Seq<char>)
    requires
        v.staged.len() == 0,
        forall|i: int| 0 <= i < v.committed.len() ==> !doc_matches(#[trigger] v.committed[i], q),
        doc_matches(d, q),
    ensures
        matching_docs(put_model(enable_model(v), d).committed, q).len() == 0,
        matching_docs(append_model(v, d).committed, q).len() == 1,
{
    let pred = |x: DocModel| doc_matches(x, q);
    assert(enable_model(v).committed =~= v.committed);
    v.committed.lemma_all_neg_filter_empty(pred);
    lemma_append_model(v, d);
    let after = append_model(v, d).committed;
    assert(after =~= v.committed.push(d));
    reveal(Seq::filter);
    assert(after.drop_last() =~= v.committed);
    assert(after.filter(pred) =~= v.committed.filter(pred).push(d));
}

/// Law: append visibility.  After an append of `content` under any session,
/// a substring search for any text occurring in `content` returns at least
/// one record, and that record carries `content` itself.
pub proof fn lemma_append_visibility(
    v: StoreModel,
    d: DocModel,
    content: Seq<char>,
    session: Seq<char>,
    q: Seq<char>,
)
    requires
        tagged_doc(d, content, session),
        contains_seq(content, q),
    ensures
        matching_docs(append_model(v, d).committed, q).len() >= 1,
        doc_message(matching_docs(append_model(v, d).committed, q).last()) == Some(content),
{
    assert(frame_tags(content, session)[message_key()] == content);
    assert(frame_tags(content, session).dom().contains(message_key()));
    assert(d.3[message_key()] == content);
    assert(doc_message(d) == Some(content));
    let pred = |x: DocModel| doc_matches(x, q);
    lemma_append_model(v, d);
    let after = append_model(v, d).committed;
    assert(after =~= (v.committed + v.staged).push(d));
    reveal(Seq::filter);
    assert(after.drop_last() =~= v.committed + v.staged);
    assert(after.filter(pred) =~= (v.committed + v.staged).filter(pred).push(d));
}

/// Two different sessions never share a resource identifier: the session
/// stands verbatim between a fixed prefix and a fixed tail.
pub proof fn lemma_session_uri_injective(s1: Seq<char>, s2: Seq<char>)
    requires
        s1 != s2,
    ensures
        session_uri(s1) != session_uri(s2),
{
    if session_uri(s1) == session_uri(s2) {
        let p = "session://"@;
        let t = "/test-id"@;
        assert(session_uri(s1).len() == p.len() + s1.len() + t.len());
        assert(session_uri(s2).len() == p.len() + s2.len() + t.len());
        assert(s1.len() == s2.len());
        assert(s1 =~= session_uri(s1).subrange(p.len() as int, (p.len() + s1.len()) as int));
        assert(s2 =~= session_uri(s2).subrange(p.len() as int, (p.len() + s2.len()) as int));
        assert(false);
    }
}

/// Law: session isolation.  A record appended under one session is returned
/// by that session's lookup and by no other session's lookup: the lookup for
/// a different session is exactly what it was before the append.  This holds
/// keyed by the session tag the record carries, and equally keyed by the
/// session's resource identifier — the exact filter the implemented lookup
/// issues.
pub proof fn lemma_session_isolation(
    docs: Seq<DocModel>,
    d: DocModel,
    content: Seq<char>,
    s1: Seq<char>,
    s2: Seq<char>,
)
    requires
        tagged_doc(d, content, s1),
        s1 != s2,
    ensures
        session_docs(docs.push(d), s1).contains(d),
        session_docs(docs.push(d), s2) =~= session_docs(docs, s2),
        uri_docs(docs.push(d), session_uri(s1)).contains(d),
        uri_docs(docs.push(d), session_uri(s2)) =~= uri_docs(docs, session_uri(s2)),
{
    reveal_strlit("session_id");
    reveal_strlit("message");
    assert(session_key().len() == 10);
    assert(message_key().len() == 7);
    assert(session_key() != message_key());
    assert(frame_tags(content, s1)[session_key()] == s1);
    assert(frame_tags(content, s1).dom().contains(session_key()));
    assert(d.3[session_key()] == s1);
    assert(doc_session(d) == Some(s1));
    let p1 = |x: DocModel| doc_session(x) == Some(s1);
    let p2 = |x: DocModel| doc_session(x) == Some(s2);
    reveal(Seq::filter);
    assert(docs.push(d).drop_last() =~= docs);
    assert(docs.push(d).last() == d);
    assert(docs.push(d).filter(p1) =~= docs.filter(p1).push(d));
    assert(docs.push(d).filter(p1).last() == d);
    assert(docs.push(d).filter(p2) =~= docs.filter(p2));
    lemma_session_uri_injective(s1, s2);
    let q1 = |x: DocModel| x.2 == session_uri(s1);
    let q2 = |x: DocModel| x.2 == session_uri(s2);
    assert(docs.push(d).filter(q1) =~= docs.filter(q1).push(d));
    assert(docs.push(d).filter(q1).last() == d);
    assert(docs.push(d).filter(q2) =~= docs.filter(q2));
}

/// Law: serialization.  Any number of appends, granted the lock one after
/// another in any order, leave the committed records grown by exactly one
/// record per append: the records that were committed before are untouched
/// and in place, and position `i` of the new tail is the record of request
/// `i`.  None is lost and none is duplicated.
pub proof fn lemma_serialization(v: StoreModel, reqs: Seq<(Seq<char>, Seq<char>)>)
    requires
        v.staged.len() == 0,
    ensures
        append_all(v, reqs).committed.len() == v.committed.len() + reqs.len(),
        append_all(v, reqs).staged.len() == 0,
        forall|i: int|
            0 <= i < v.committed.len() ==> #[trigger] append_all(v, reqs).committed[i]
                == v.committed[i],
        forall|i: int|
            0 <= i < reqs.len() ==> append_all(v, reqs).committed[v.committed.len() + i] == doc_of(
                #[trigger] reqs[i].0,
                reqs[i].1,
            ),
    decreases reqs.len(),
{
    if reqs.len() > 0 {
        let prev = append_all(v, reqs.drop_last());
        let last_doc = doc_of(reqs.last().0, reqs.last().1);
        lemma_serialization(v, reqs.drop_last());
        lemma_append_model(prev, last_doc);
        assert(append_all(v, reqs).committed =~= prev.committed + prev.staged.push(last_doc));
        assert(prev.staged =~= Seq::<DocModel>::empty());
        assert(append_all(v, reqs).committed =~= prev.committed.push(last_doc));
        assert forall|i: int|
            0 <= i < reqs.len() implies append_all(v, reqs).committed[v.committed.len() + i]
            == doc_of(#[trigger] reqs[i].0, reqs[i].1) by {
            if i < reqs.len() - 1 {
                assert(reqs.drop_last()[i] == reqs[i]);
                assert(prev.committed[v.committed.len() + i] == doc_of(
                    reqs.drop_last()[i].0,
                    reqs.drop_last()[i].1,
                ));
            } else {
                assert(append_all(v, reqs).committed[v.committed.len() + i] == last_doc);
            }
        }
    }
}

} // verus!
