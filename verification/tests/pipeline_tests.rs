//! End-to-end tests of the writer and reader pipelines on concrete
//! scenarios, and of the dedup guard's policy.

use clipboard_sync::config::Config;
use clipboard_sync::dedup::{ContentSnapshot, DedupState, file_sets_equal};
use clipboard_sync::orchestrator::detect_clipboard_file;
use clipboard_sync::reader::{ApplyContent, LiveContent, LoadedContent, read_clipboard_from_file};
use clipboard_sync::types::{ClipboardContentType, ClipboardText, FolderEntry};
use clipboard_sync::utils::calculate_sha256;
use clipboard_sync::writer::{ClipboardObservation, WriteContent, write_clipboard_to_file};

const T: u64 = 1_700_000_000_000;

fn text(s: &str) -> ClipboardText {
    ClipboardText { text: Some(s.to_string()), html: None, rtf: None }
}

fn fresh_peer() -> Option<Vec<FolderEntry>> {
    Some(vec![FolderEntry { name: "bob.is-receiving.txt".to_string(), modified_ms: T - 60_000 }])
}

fn no_peers() -> Option<Vec<FolderEntry>> {
    Some(vec![])
}

/// Host alice copies plain text "hello" at time T with a fresh marker from
/// bob: the writer plans `{T}-alice.text.json` carrying exactly that text.
#[test]
fn scenario_text_send() {
    let config = Config::default();
    let mut dedup = DedupState::new();
    let plan = write_clipboard_to_file(
        "alice",
        &config,
        &fresh_peer(),
        ClipboardObservation::Text(text("hello")),
        T,
        &mut dedup,
    )
    .expect("must plan a write");
    assert_eq!(plan.file_name, format!("{T}-alice.text.json"));
    match plan.content {
        WriteContent::Text(t) => {
            assert_eq!(t.text.as_deref(), Some("hello"));
            assert_eq!(t.html, None);
            assert_eq!(t.rtf, None);
        }
        _ => panic!("expected a text plan"),
    }
    assert_eq!(dedup.last_beat, Some(T));
}

/// With no presence marker from any other host (or only stale ones) the
/// writer aborts before anything else.
#[test]
fn scenario_nobody_listening() {
    let config = Config::default();
    let mut dedup = DedupState::new();
    assert!(write_clipboard_to_file(
        "alice",
        &config,
        &no_peers(),
        ClipboardObservation::Text(text("hello")),
        T,
        &mut dedup,
    )
    .is_none());
    let stale = Some(vec![FolderEntry {
        name: "bob.is-receiving.txt".to_string(),
        modified_ms: T - 600_001,
    }]);
    assert!(write_clipboard_to_file(
        "alice",
        &config,
        &stale,
        ClipboardObservation::Text(text("hello")),
        T,
        &mut dedup,
    )
    .is_none());
    assert_eq!(dedup.last_beat, None);
}

/// Writing the same non-empty text twice within one second produces exactly
/// one artifact.
#[test]
fn scenario_duplicate_text_suppressed() {
    let config = Config::default();
    let mut dedup = DedupState::new();
    let first = write_clipboard_to_file(
        "alice",
        &config,
        &fresh_peer(),
        ClipboardObservation::Text(text("hello")),
        T,
        &mut dedup,
    );
    assert!(first.is_some());
    dedup.record_text_written(text("hello"));
    let second = write_clipboard_to_file(
        "alice",
        &config,
        &fresh_peer(),
        ClipboardObservation::Text(text("hello")),
        T + 1_000,
        &mut dedup,
    );
    assert!(second.is_none());
    // Different content within the window still goes through.
    let third = write_clipboard_to_file(
        "alice",
        &config,
        &fresh_peer(),
        ClipboardObservation::Text(text("world")),
        T + 2_000,
        &mut dedup,
    );
    assert!(third.is_some());
}

/// Host bob detects `{T}-alice.text.json`, applies it, and a second
/// identical event for the same file is a duplicate no-op.
#[test]
fn scenario_text_receive_then_duplicate() {
    let config = Config::default();
    let mut dedup = DedupState::new();
    let file = format!("/sync/{T}-alice.text.json");
    let parsed = detect_clipboard_file(&file, "/sync", "bob").expect("peer artifact");
    assert_eq!(parsed.beat, T);

    let now1 = T + 500;
    let applied = read_clipboard_from_file(
        &parsed,
        &config,
        LoadedContent::Text(text("hello")),
        Some(LiveContent::Missing),
        now1,
        &mut dedup,
    )
    .expect("must apply");
    match applied {
        ApplyContent::Text(t) => assert_eq!(t.text.as_deref(), Some("hello")),
        _ => panic!("expected text"),
    }
    dedup.record_text_read(text("hello"));
    assert_eq!(dedup.last_beat, Some(now1));

    // The clipboard now shows "hello"; the same event again does nothing.
    let again = read_clipboard_from_file(
        &parsed,
        &config,
        LoadedContent::Text(text("hello")),
        Some(LiveContent::Text(text("hello"))),
        now1 + 200,
        &mut dedup,
    );
    assert!(again.is_none());
    assert_eq!(dedup.last_beat, Some(now1));
}

/// An artifact with an older beat than one already processed is a no-op.
#[test]
fn scenario_superseded_beat() {
    let config = Config::default();
    let mut dedup = DedupState::new();
    let newer = detect_clipboard_file("/sync/200-alice.text.json", "/sync", "bob").unwrap();
    assert!(read_clipboard_from_file(
        &newer,
        &config,
        LoadedContent::Text(text("new")),
        Some(LiveContent::Missing),
        250,
        &mut dedup,
    )
    .is_some());
    // last_beat is now 250; an artifact with beat 100 is superseded.
    let older = detect_clipboard_file("/sync/100-alice.text.json", "/sync", "bob").unwrap();
    assert!(read_clipboard_from_file(
        &older,
        &config,
        LoadedContent::Text(text("old")),
        Some(LiveContent::Missing),
        300,
        &mut dedup,
    )
    .is_none());
}

/// A five-file transfer is applied only once all five files replicated.
#[test]
fn scenario_partial_files_transfer() {
    let config = Config::default();
    let mut dedup = DedupState::new();
    let dir = format!("/sync/{T}-alice.5_files");
    let parsed = detect_clipboard_file(&dir, "/sync", "bob").expect("peer artifact");
    assert_eq!(parsed.files_count, Some(5));

    let children = vec![
        format!("{dir}/a.txt"),
        format!("{dir}/b.txt"),
        format!("{dir}/c.txt"),
        format!("{dir}/sub1"),
        format!("{dir}/sub2"),
    ];
    // Only three of five files are present yet: not applied, no error.
    assert!(read_clipboard_from_file(
        &parsed,
        &config,
        LoadedContent::Files { entries: children.clone(), actual_count: 3 },
        Some(LiveContent::Missing),
        T + 1,
        &mut dedup,
    )
    .is_none());
    assert_eq!(dedup.last_beat, None);

    // All five arrived: applied.
    let applied = read_clipboard_from_file(
        &parsed,
        &config,
        LoadedContent::Files { entries: children.clone(), actual_count: 5 },
        Some(LiveContent::Missing),
        T + 2,
        &mut dedup,
    )
    .expect("must apply");
    match applied {
        ApplyContent::Files(paths) => assert_eq!(paths, children),
        _ => panic!("expected files"),
    }
}

/// The writer encodes a five-file transfer as `{beat}-{host}.5_files`.
#[test]
fn scenario_files_send() {
    let config = Config::default();
    let mut dedup = DedupState::new();
    let plan = write_clipboard_to_file(
        "alice",
        &config,
        &fresh_peer(),
        ClipboardObservation::Files {
            paths: vec!["/home/a".to_string(), "/home/b".to_string(), "/home/c".to_string()],
            total_bytes: 1_024,
            total_count: 5,
        },
        T,
        &mut dedup,
    )
    .expect("must plan");
    assert_eq!(plan.file_name, format!("{T}-alice.5_files"));
    match plan.content {
        WriteContent::Files(paths) => assert_eq!(paths.len(), 3),
        _ => panic!("expected files"),
    }
}

/// The size cap: a transfer over 100 MB is rejected, one at the cap goes
/// through.
#[test]
fn files_size_cap() {
    let config = Config::default();
    let mut dedup = DedupState::new();
    let obs = |bytes: u64| ClipboardObservation::Files {
        paths: vec!["/home/a".to_string()],
        total_bytes: bytes,
        total_count: 1,
    };
    assert!(write_clipboard_to_file(
        "alice", &config, &fresh_peer(), obs(104_857_601), T, &mut dedup
    )
    .is_none());
    assert!(write_clipboard_to_file(
        "alice", &config, &fresh_peer(), obs(104_857_600), T, &mut dedup
    )
    .is_some());
}

/// An image plan carries the canonical bytes and their SHA-256 digest.
#[test]
fn image_write_carries_digest() {
    let config = Config::default();
    let mut dedup = DedupState::new();
    let bytes = b"abc".to_vec();
    let plan = write_clipboard_to_file(
        "alice",
        &config,
        &fresh_peer(),
        ClipboardObservation::Image(bytes.clone()),
        T,
        &mut dedup,
    )
    .expect("must plan");
    assert_eq!(plan.file_name, format!("{T}-alice.png"));
    match plan.content {
        WriteContent::Image { png, sha256 } => {
            assert_eq!(png, bytes);
            assert_eq!(
                sha256,
                "ba7816bf8f01cfea414140de5dae2223b00361a396177a9cb410ff61f20015ad"
            );
        }
        _ => panic!("expected an image plan"),
    }
}

/// The known digest of "abc" pins the hashing down.
#[test]
fn sha256_known_value() {
    assert_eq!(
        calculate_sha256(b"abc"),
        "ba7816bf8f01cfea414140de5dae2223b00361a396177a9cb410ff61f20015ad"
    );
    assert_eq!(
        calculate_sha256(b""),
        "e3b0c44298fc1c149afbf4c8996fb92427ae41e4649b934ca495991b7852b855"
    );
}

/// Disabled kinds are never sent or applied.
#[test]
fn disabled_kinds_abort() {
    let mut config = Config::default();
    config.send_texts = false;
    config.receive_texts = false;
    let mut dedup = DedupState::new();
    assert!(write_clipboard_to_file(
        "alice",
        &config,
        &fresh_peer(),
        ClipboardObservation::Text(text("hello")),
        T,
        &mut dedup,
    )
    .is_none());
    let parsed = detect_clipboard_file("/sync/9-alice.text.json", "/sync", "bob").unwrap();
    assert!(read_clipboard_from_file(
        &parsed,
        &config,
        LoadedContent::Text(text("hello")),
        Some(LiveContent::Missing),
        T,
        &mut dedup,
    )
    .is_none());
}

/// Empty text is never sent and never applied.
#[test]
fn empty_text_rejected() {
    let config = Config::default();
    let mut dedup = DedupState::new();
    let empty = ClipboardText { text: Some(String::new()), html: None, rtf: None };
    assert!(write_clipboard_to_file(
        "alice",
        &config,
        &fresh_peer(),
        ClipboardObservation::Text(empty.clone()),
        T,
        &mut dedup,
    )
    .is_none());
    let parsed = detect_clipboard_file("/sync/9-alice.text.json", "/sync", "bob").unwrap();
    assert!(read_clipboard_from_file(
        &parsed,
        &config,
        LoadedContent::Text(empty),
        Some(LiveContent::Missing),
        T,
        &mut dedup,
    )
    .is_none());
}

/// An unusable clipboard observation is never sent, and a transfer that
/// holds no files at all is rejected.
#[test]
fn unusable_observations_rejected() {
    let config = Config::default();
    let mut dedup = DedupState::new();
    assert!(write_clipboard_to_file(
        "alice",
        &config,
        &fresh_peer(),
        ClipboardObservation::Unavailable,
        T,
        &mut dedup,
    )
    .is_none());
    assert!(write_clipboard_to_file(
        "alice",
        &config,
        &fresh_peer(),
        ClipboardObservation::Files {
            paths: vec!["/home/only-empty-dirs".to_string()],
            total_bytes: 0,
            total_count: 0,
        },
        T,
        &mut dedup,
    )
    .is_none());
    assert_eq!(dedup.last_beat, None);
}

/// An unreadable folder counts as someone listening: the writer proceeds.
#[test]
fn unreadable_folder_still_sends() {
    let config = Config::default();
    let mut dedup = DedupState::new();
    assert!(write_clipboard_to_file(
        "alice",
        &config,
        &None,
        ClipboardObservation::Text(text("hello")),
        T,
        &mut dedup,
    )
    .is_some());
}

/// The duplicate window closes after fifteen seconds.
#[test]
fn duplicate_window_boundary() {
    let mut dedup = DedupState::new();
    dedup.record_attempt(T);
    dedup.record_text_written(text("hello"));
    let candidate = ContentSnapshot::Text(text("hello"));
    // One millisecond inside the window: duplicate.
    assert!(dedup.is_duplicate(&candidate, T + 14_999));
    // At the window: no longer compared.
    assert!(!dedup.is_duplicate(&candidate, T + 15_000));
}

/// Empty candidates are always duplicates, even with no history.
#[test]
fn empty_candidates_always_duplicates() {
    let dedup = DedupState::new();
    let empty_text = ContentSnapshot::Text(ClipboardText { text: None, html: None, rtf: None });
    assert!(dedup.is_duplicate(&empty_text, T));
    let empty_files = ContentSnapshot::Files(vec![]);
    assert!(dedup.is_duplicate(&empty_files, T));
}

/// What was just read back is not echoed out again within the window.
#[test]
fn read_snapshot_suppresses_echo() {
    let config = Config::default();
    let mut dedup = DedupState::new();
    dedup.record_attempt(T);
    dedup.record_text_read(text("from-peer"));
    assert!(write_clipboard_to_file(
        "alice",
        &config,
        &fresh_peer(),
        ClipboardObservation::Text(text("from-peer")),
        T + 100,
        &mut dedup,
    )
    .is_none());
}

/// File sets compare as multisets: order does not matter, multiplicity
/// does.
#[test]
fn file_set_equality() {
    let ab = vec!["/a".to_string(), "/b".to_string()];
    let ba = vec!["/b".to_string(), "/a".to_string()];
    let aa = vec!["/a".to_string(), "/a".to_string()];
    let abc = vec!["/a".to_string(), "/b".to_string(), "/c".to_string()];
    assert!(file_sets_equal(&ab, &ba));
    assert!(!file_sets_equal(&ab, &aa));
    assert!(!file_sets_equal(&ab, &abc));
    assert!(file_sets_equal(&Vec::new(), &Vec::new()));
}

/// Transient temporary files of sync clients are ignored by the watcher
/// path.
#[test]
fn transient_temp_files_ignored() {
    assert!(detect_clipboard_file("/sync/~RF1a2b.TMP", "/sync", "bob").is_none());
    // Even if such a name could otherwise look artifact-like, the temp
    // filter runs first; a normal artifact still passes.
    assert!(detect_clipboard_file("/sync/5-alice.png", "/sync", "bob").is_some());
}

/// A mismatched kind between the artifact name and the loaded content is
/// never applied.
#[test]
fn mismatched_loaded_kind_rejected() {
    let config = Config::default();
    let mut dedup = DedupState::new();
    let parsed = detect_clipboard_file("/sync/9-alice.png", "/sync", "bob").unwrap();
    assert_eq!(parsed.content_type, ClipboardContentType::Image);
    assert!(read_clipboard_from_file(
        &parsed,
        &config,
        LoadedContent::Text(text("hello")),
        Some(LiveContent::Missing),
        T,
        &mut dedup,
    )
    .is_none());
}

/// When the live clipboard cannot be probed at all, nothing is applied.
#[test]
fn unavailable_live_clipboard_rejects_apply() {
    let config = Config::default();
    let mut dedup = DedupState::new();
    let parsed = detect_clipboard_file("/sync/9-alice.text.json", "/sync", "bob").unwrap();
    assert!(read_clipboard_from_file(
        &parsed,
        &config,
        LoadedContent::Text(text("hello")),
        None,
        T,
        &mut dedup,
    )
    .is_none());
}
