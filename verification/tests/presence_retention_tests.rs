//! Tests of the presence protocol and the retention sweep.

use clipboard_sync::presence::{marker_file_name, no_computers_receiving};
use clipboard_sync::retention::clean_files;
use clipboard_sync::types::FolderEntry;

fn entry(name: &str, modified_ms: u64) -> FolderEntry {
    FolderEntry { name: name.to_string(), modified_ms }
}

const NOW: u64 = 1_700_000_000_000;

#[test]
fn marker_name_is_host_plus_suffix() {
    assert_eq!(marker_file_name("alice"), "alice.is-receiving.txt");
}

#[test]
fn fresh_foreign_marker_means_someone_receives() {
    let entries = Some(vec![entry("bob.is-receiving.txt", NOW - 60_000)]);
    assert!(!no_computers_receiving(&entries, "alice", NOW));
}

#[test]
fn own_marker_does_not_count() {
    let entries = Some(vec![entry("alice.is-receiving.txt", NOW)]);
    assert!(no_computers_receiving(&entries, "alice", NOW));
}

#[test]
fn stale_foreign_marker_does_not_count() {
    // Exactly ten minutes old is still fresh; a millisecond older is stale.
    let fresh = Some(vec![entry("bob.is-receiving.txt", NOW - 600_000)]);
    assert!(!no_computers_receiving(&fresh, "alice", NOW));
    let stale = Some(vec![entry("bob.is-receiving.txt", NOW - 600_001)]);
    assert!(no_computers_receiving(&stale, "alice", NOW));
}

#[test]
fn non_marker_entries_do_not_count() {
    let entries = Some(vec![
        entry("123-bob.png", NOW),
        entry("notes.txt", NOW),
    ]);
    assert!(no_computers_receiving(&entries, "alice", NOW));
}

#[test]
fn unreadable_folder_counts_as_someone_listening() {
    assert!(!no_computers_receiving(&None, "alice", NOW));
}

#[test]
fn own_artifact_swept_at_five_minutes() {
    // Exactly at the threshold boundary: deleted.
    let at = vec![entry("123-alice.png", NOW - 300_000)];
    assert_eq!(clean_files(&at, "alice", NOW), vec!["123-alice.png"]);
    // One millisecond younger: retained.
    let below = vec![entry("123-alice.png", NOW - 299_999)];
    assert!(clean_files(&below, "alice", NOW).is_empty());
}

#[test]
fn foreign_artifact_swept_at_ten_minutes() {
    let at = vec![entry("123-bob.text.json", NOW - 600_000)];
    assert_eq!(clean_files(&at, "alice", NOW), vec!["123-bob.text.json"]);
    let below = vec![entry("123-bob.text.json", NOW - 599_999)];
    assert!(clean_files(&below, "alice", NOW).is_empty());
}

#[test]
fn markers_never_swept() {
    // However old a marker is, the periodic sweep leaves it alone.
    let entries = vec![
        entry("bob.is-receiving.txt", 0),
        entry("alice.is-receiving.txt", 0),
    ];
    assert!(clean_files(&entries, "alice", NOW).is_empty());
}

#[test]
fn legacy_files_swept_on_sight() {
    let entries = vec![
        entry("receiving-bob.txt", NOW),
        entry("clip.is-reading.bob.txt", NOW),
        entry("receiving-bob.doc", NOW),
        entry("notes.txt", NOW),
    ];
    assert_eq!(
        clean_files(&entries, "alice", NOW),
        vec!["receiving-bob.txt", "clip.is-reading.bob.txt"]
    );
}

#[test]
fn sweep_handles_mixed_folders_in_order() {
    let entries = vec![
        entry("bob.is-receiving.txt", 0),
        entry("100-alice.5_files", NOW - 300_000),
        entry("200-bob.png", NOW - 10_000),
        entry("receiving-x.txt", NOW),
    ];
    assert_eq!(
        clean_files(&entries, "alice", NOW),
        vec!["100-alice.5_files", "receiving-x.txt"]
    );
}
