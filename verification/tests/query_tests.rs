//! Tests of the pure builders: paths, resource identifiers, session
//! queries, and error messages.

use session_store::errors::StoreError;
use session_store::store::frame_uri;
use session_store::store::session_query;
use session_store::store::store_dir;
use session_store::store::store_file;

#[test]
fn store_dir_is_codebridge_under_root() {
    assert_eq!(store_dir("/home/me/project"), "/home/me/project/.codebridge");
}

#[test]
fn store_file_is_sessions_mv2_in_store_dir() {
    assert_eq!(
        store_file("/home/me/project"),
        "/home/me/project/.codebridge/sessions.mv2"
    );
}

#[test]
fn frame_uri_scopes_by_session() {
    assert_eq!(frame_uri("test-session"), "session://test-session/test-id");
}

#[test]
fn session_query_filters_by_session_uri() {
    assert_eq!(
        session_query("test-session"),
        "uri:session://test-session/test-id"
    );
    assert_eq!(
        session_query("other-session"),
        "uri:session://other-session/test-id"
    );
}

#[test]
fn error_messages_name_the_failed_stage() {
    assert_eq!(
        StoreError::Open(String::from("boom")).message(),
        "open: boom"
    );
    assert_eq!(StoreError::Open(String::from("boom")).tag(), "open");
    assert_eq!(
        StoreError::Create(String::from("no parent")).message(),
        "create: no parent"
    );
    assert_eq!(
        StoreError::DirCreation(String::from("denied")).message(),
        "dir creation: denied"
    );
    assert_eq!(
        StoreError::InitIndexEnable(String::from("x")).message(),
        "enable_lex: x"
    );
    assert_eq!(
        StoreError::InitCommit(String::from("x")).message(),
        "commit after enable: x"
    );
    assert_eq!(
        StoreError::AppendIndexEnable(String::from("x")).message(),
        "enable_lex before put: x"
    );
    assert_eq!(StoreError::Insert(String::from("x")).message(), "put: x");
    assert_eq!(
        StoreError::AppendCommit(String::from("x")).message(),
        "commit: x"
    );
    assert_eq!(
        StoreError::SearchIndexEnable(String::from("x")).message(),
        "enable_lex before search: x"
    );
    assert_eq!(StoreError::Query(String::from("x")).message(), "search: x");
}
