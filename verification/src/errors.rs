//! The error taxonomy of the coordination layer.
//!
//! Every failure of the store engine is wrapped with a short tag naming the
//! stage that failed, so that operators can tell a directory-creation failure
//! from an open failure, an insert failure from a commit failure, and so on.
//! Nothing is swallowed and nothing is retried here; callers decide.

use vstd::prelude::*;

verus! {

/// One failed stage of the coordination protocol, carrying the store
/// engine's own description of what went wrong.
#[derive(Debug)]
pub enum StoreError {
    /// The store's parent directory could not be created.
    DirCreation(String),
    /// An existing store file could not be opened.
    Open(String),
    /// A fresh store file could not be created.
    Create(String),
    /// The lexical index could not be enabled during startup.
    InitIndexEnable(String),
    /// The commit sealing startup index enablement failed.
    InitCommit(String),
    /// The lexical index could not be re-affirmed before an insert.
    AppendIndexEnable(String),
    /// The record insert itself failed.  When the engine's write-ahead log
    /// crosses its checkpoint threshold, the insert ends in the engine's own
    /// commit, and a failure of that commit also surfaces here — so this
    /// tag, too, can carry a commit failure whose durability is ambiguous.
    Insert(String),
    /// The commit sealing an append failed; durability of the inserted
    /// record is undefined and the whole append must be treated as failed.
    AppendCommit(String),
    /// The lexical index could not be re-affirmed before a search.
    SearchIndexEnable(String),
    /// The query execution failed.
    Query(String),
}

impl StoreError {
    /// The engine's own description carried by this error.
    pub open spec fn spec_detail(self) -> Seq<char> {
        match self {
            StoreError::DirCreation(d) => d@,
            StoreError::Open(d) => d@,
            StoreError::Create(d) => d@,
            StoreError::InitIndexEnable(d) => d@,
            StoreError::InitCommit(d) => d@,
            StoreError::AppendIndexEnable(d) => d@,
            StoreError::Insert(d) => d@,
            StoreError::AppendCommit(d) => d@,
            StoreError::SearchIndexEnable(d) => d@,
            StoreError::Query(d) => d@,
        }
    }

    /// The short tag naming the stage that failed.
    pub open spec fn spec_tag(self) -> Seq<char> {
        match self {
            StoreError::DirCreation(_) => "dir creation"@,
            StoreError::Open(_) => "open"@,
            StoreError::Create(_) => "create"@,
            StoreError::InitIndexEnable(_) => "enable_lex"@,
            StoreError::InitCommit(_) => "commit after enable"@,
            StoreError::AppendIndexEnable(_) => "enable_lex before put"@,
            StoreError::Insert(_) => "put"@,
            StoreError::AppendCommit(_) => "commit"@,
            StoreError::SearchIndexEnable(_) => "enable_lex before search"@,
            StoreError::Query(_) => "search"@,
        }
    }

    /// The stage tag, for diagnostics.
    pub fn tag(&self) -> (r: &'static str)
        ensures
            r@ == self.spec_tag(),
    {
        match self {
            StoreError::DirCreation(_) => "dir creation",
            StoreError::Open(_) => "open",
            StoreError::Create(_) => "create",
            StoreError::InitIndexEnable(_) => "enable_lex",
            StoreError::InitCommit(_) => "commit after enable",
            StoreError::AppendIndexEnable(_) => "enable_lex before put",
            StoreError::Insert(_) => "put",
            StoreError::AppendCommit(_) => "commit",
            StoreError::SearchIndexEnable(_) => "enable_lex before search",
            StoreError::Query(_) => "search",
        }
    }

    /// The engine's description, as the caller received it.
    pub fn detail(&self) -> (r: &String)
        ensures
            r@ == self.spec_detail(),
    {
        match self {
            StoreError::DirCreation(d) => d,
            StoreError::Open(d) => d,
            StoreError::Create(d) => d,
            StoreError::InitIndexEnable(d) => d,
            StoreError::InitCommit(d) => d,
            StoreError::AppendIndexEnable(d) => d,
            StoreError::Insert(d) => d,
            StoreError::AppendCommit(d) => d,
            StoreError::SearchIndexEnable(d) => d,
            StoreError::Query(d) => d,
        }
    }

    /// The full operator-facing message: the stage tag, a separator, and the
    /// engine's description.
    pub fn message(&self) -> (r: String)
        ensures
            r@ == self.spec_tag() + ": "@ + self.spec_detail(),
    {
        let mut s = String::from_str(self.tag());
        s.append(": ");
        s.append(self.detail().as_str());
        s
    }
}

} // verus!
