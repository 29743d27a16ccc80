//! End-to-end tests of the session store against the real engine.

use session_store::errors::StoreError;
use session_store::store::MemvidStore;

fn store_path_in(dir: &tempfile::TempDir) -> String {
    format!("{}/sessions.mv2", dir.path().to_str().unwrap())
}

#[test]
fn test_wrapper_fails() {
    let dir = tempfile::tempdir().unwrap();
    let mut store = MemvidStore::open_or_create(&store_path_in(&dir)).unwrap();

    store
        .append_frame("Fix the bug in login", "test-session")
        .unwrap();

    let results = store.search_text("login").unwrap();
    assert_eq!(results.len(), 1, "Should find the frame with 'login'");

    let session_results = store.get_session_frames("test-session").unwrap();
    assert_eq!(session_results.len(), 1, "Should find frame by session_id");
}

#[test]
fn open_or_create_creates_store_file() {
    let dir = tempfile::tempdir().unwrap();
    let path = store_path_in(&dir);
    assert!(!std::path::Path::new(&path).exists());
    let store = MemvidStore::open_or_create(&path).unwrap();
    assert!(std::path::Path::new(&path).exists());
    assert_eq!(store.path().as_str(), path.as_str());
}

#[test]
fn open_or_create_reopens_existing_store() {
    let dir = tempfile::tempdir().unwrap();
    let path = store_path_in(&dir);
    {
        let mut store = MemvidStore::open_or_create(&path).unwrap();
        store.append_frame("remember me", "persist-session").unwrap();
    }
    let mut reopened = MemvidStore::open_or_create(&path).unwrap();
    let frames = reopened.get_session_frames("persist-session").unwrap();
    assert_eq!(frames.len(), 1);
}

#[test]
fn open_or_create_fails_without_parent_directory() {
    let dir = tempfile::tempdir().unwrap();
    let path = format!("{}/no-such-dir/sessions.mv2", dir.path().to_str().unwrap());
    let result = MemvidStore::open_or_create(&path);
    assert!(matches!(result, Err(StoreError::Create(_))));
}

#[test]
fn search_finds_appended_content() {
    let dir = tempfile::tempdir().unwrap();
    let mut store = MemvidStore::open_or_create(&store_path_in(&dir)).unwrap();
    store
        .append_frame("Fix the bug in login", "test-session")
        .unwrap();
    let results = store.search_text("login").unwrap();
    assert_eq!(results.len(), 1);
    assert!(
        results[0].contains("Fix the bug in login"),
        "hit text should carry the appended content, got: {:?}",
        results[0]
    );
}

#[test]
fn session_isolation_between_two_sessions() {
    let dir = tempfile::tempdir().unwrap();
    let mut store = MemvidStore::open_or_create(&store_path_in(&dir)).unwrap();
    store
        .append_frame("Fix the bug in login", "test-session")
        .unwrap();
    let own = store.get_session_frames("test-session").unwrap();
    assert_eq!(own.len(), 1);
    let other = store.get_session_frames("other-session").unwrap();
    assert_eq!(other.len(), 0);
}

#[test]
fn marker_invisible_before_append_visible_after() {
    let dir = tempfile::tempdir().unwrap();
    let mut store = MemvidStore::open_or_create(&store_path_in(&dir)).unwrap();
    let before = store.search_text("zebrafish").unwrap();
    assert_eq!(before.len(), 0);
    store
        .append_frame("the zebrafish swims", "marker-session")
        .unwrap();
    let after = store.search_text("zebrafish").unwrap();
    assert_eq!(after.len(), 1);
}

#[test]
fn three_appends_three_frames() {
    let dir = tempfile::tempdir().unwrap();
    let mut store = MemvidStore::open_or_create(&store_path_in(&dir)).unwrap();
    store.append_frame("alpha antelope note", "bulk").unwrap();
    store.append_frame("beta buffalo note", "bulk").unwrap();
    store.append_frame("gamma giraffe note", "bulk").unwrap();
    let frames = store.get_session_frames("bulk").unwrap();
    assert_eq!(frames.len(), 3);
    assert_eq!(store.search_text("antelope").unwrap().len(), 1);
    assert_eq!(store.search_text("buffalo").unwrap().len(), 1);
    assert_eq!(store.search_text("giraffe").unwrap().len(), 1);
}

#[test]
fn repeated_appends_keep_reaffirming_index_without_error() {
    let dir = tempfile::tempdir().unwrap();
    let mut store = MemvidStore::open_or_create(&store_path_in(&dir)).unwrap();
    store.append_frame("first note", "again").unwrap();
    store.append_frame("second note", "again").unwrap();
    let frames = store.get_session_frames("again").unwrap();
    assert_eq!(frames.len(), 2);
}

#[test]
fn search_caps_results_at_ten_hits() {
    let dir = tempfile::tempdir().unwrap();
    let mut store = MemvidStore::open_or_create(&store_path_in(&dir)).unwrap();
    for i in 0..12 {
        store
            .append_frame(&format!("wombat sighting number {}", i), "cap-session")
            .unwrap();
    }
    let results = store.search_text("wombat").unwrap();
    assert!(results.len() <= 10, "got {} hits", results.len());
    assert!(!results.is_empty());
}

#[test]
fn long_content_is_chunked_and_still_retrievable() {
    let dir = tempfile::tempdir().unwrap();
    let mut store = MemvidStore::open_or_create(&store_path_in(&dir)).unwrap();
    let long = format!("quokka {}", "lorem ipsum dolor sit amet ".repeat(120));
    assert!(long.len() > 2400);
    store.append_frame(&long, "long-session").unwrap();
    let hits = store.search_text("quokka").unwrap();
    assert!(!hits.is_empty());
    let frames = store.get_session_frames("long-session").unwrap();
    assert_eq!(frames.len(), 1);
}

#[test]
fn empty_query_is_a_query_error() {
    let dir = tempfile::tempdir().unwrap();
    let mut store = MemvidStore::open_or_create(&store_path_in(&dir)).unwrap();
    let result = store.search_text("");
    assert!(matches!(result, Err(StoreError::Query(_))));
}
