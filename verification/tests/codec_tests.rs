//! Tests of the filename codec: encoding, decoding, the round trip, and the
//! rejection of everything outside the grammar.

use clipboard_sync::codec::{
    decode_file_name, encode_file_name, is_receiving_file, parse_clipboard_filename,
};
use clipboard_sync::types::{ClipboardContentType, ClipboardOrigin};

#[test]
fn encode_text_name() {
    let name = encode_file_name(1700000000000, "alice", ClipboardContentType::Text, 0);
    assert_eq!(name, "1700000000000-alice.text.json");
}

#[test]
fn encode_image_name() {
    let name = encode_file_name(42, "my-host-2", ClipboardContentType::Image, 0);
    assert_eq!(name, "42-my-host-2.png");
}

#[test]
fn encode_files_name() {
    let name = encode_file_name(987, "bob", ClipboardContentType::Files, 5);
    assert_eq!(name, "987-bob.5_files");
}

#[test]
fn round_trip_text() {
    let name = encode_file_name(1700000000000, "alice", ClipboardContentType::Text, 0);
    let d = decode_file_name(&name).expect("must decode");
    assert_eq!(d.beat, 1700000000000);
    assert_eq!(d.hostname, "alice");
    assert_eq!(d.content_type, ClipboardContentType::Text);
    assert_eq!(d.files_count, None);
}

#[test]
fn round_trip_image() {
    let name = encode_file_name(1, "h", ClipboardContentType::Image, 0);
    let d = decode_file_name(&name).expect("must decode");
    assert_eq!(d.beat, 1);
    assert_eq!(d.hostname, "h");
    assert_eq!(d.content_type, ClipboardContentType::Image);
    assert_eq!(d.files_count, None);
}

#[test]
fn round_trip_files() {
    let name = encode_file_name(u64::MAX, "host-1", ClipboardContentType::Files, u32::MAX);
    let d = decode_file_name(&name).expect("must decode");
    assert_eq!(d.beat, u64::MAX);
    assert_eq!(d.hostname, "host-1");
    assert_eq!(d.content_type, ClipboardContentType::Files);
    assert_eq!(d.files_count, Some(u32::MAX));
}

#[test]
fn non_artifacts_never_decode() {
    for name in [
        "",
        "random.txt",
        "alice.text.json",
        "-alice.png",
        "0-alice.png",
        "007-alice.png",
        "12-alice",
        "12-.png",
        "12-alice.",
        "12-alice.gif",
        "12-alice.text.json.bak",
        "12-alice.0_files",
        "12-alice.05_files",
        "12-alice._files",
        "12-alice.5_files/",
        "12-al_ice.png",
        "12-al.ice.png",
        "x12-alice.png",
        "12 -alice.png",
        "12-alice.pngg",
        "12-alice.PNG",
    ] {
        assert!(decode_file_name(name).is_none(), "{name} must not decode");
    }
}

#[test]
fn marker_names_never_decode() {
    assert!(decode_file_name("bob.is-receiving.txt").is_none());
    assert!(decode_file_name("12-bob.is-receiving.txt").is_none());
    assert!(decode_file_name("receiving-bob.txt").is_none());
}

#[test]
fn numeric_overflow_never_decodes() {
    // One past u64::MAX.
    assert!(decode_file_name("18446744073709551616-a.png").is_none());
    // Far past u64::MAX.
    assert!(decode_file_name("999999999999999999999999-a.png").is_none());
    // A file count past u32::MAX.
    assert!(decode_file_name("1-a.4294967296_files").is_none());
    assert_eq!(
        decode_file_name("1-a.4294967295_files").unwrap().files_count,
        Some(u32::MAX)
    );
}

#[test]
fn parse_reduces_nested_paths_to_the_artifact() {
    let p = parse_clipboard_filename(
        "/sync/123-bob.5_files/sub/inner.txt",
        "/sync",
        "alice",
        Some(ClipboardOrigin::Others),
    )
    .expect("must parse");
    assert_eq!(p.path, "/sync/123-bob.5_files");
    assert_eq!(p.beat, 123);
    assert_eq!(p.content_type, ClipboardContentType::Files);
    assert_eq!(p.origin, ClipboardOrigin::Others);
    assert_eq!(p.files_count, Some(5));
}

#[test]
fn parse_detects_own_origin() {
    let p = parse_clipboard_filename("/sync/9-alice.png", "/sync", "alice", None)
        .expect("must parse");
    assert_eq!(p.origin, ClipboardOrigin::Myself);

    // The peer filter rejects this host's own artifacts.
    assert!(parse_clipboard_filename(
        "/sync/9-alice.png",
        "/sync",
        "alice",
        Some(ClipboardOrigin::Others)
    )
    .is_none());
}

#[test]
fn parse_rejects_paths_outside_the_folder() {
    assert!(parse_clipboard_filename("/other/9-bob.png", "/sync", "alice", None).is_none());
    // A sibling whose name merely extends the folder's is not inside it.
    assert!(parse_clipboard_filename("/sync2/9-bob.png", "/sync", "alice", None).is_none());
    // The folder itself holds no component.
    assert!(parse_clipboard_filename("/sync", "/sync", "alice", None).is_none());
    assert!(parse_clipboard_filename("/sync/", "/sync", "alice", None).is_none());
}

#[test]
fn parse_accepts_folder_with_trailing_separator() {
    let p = parse_clipboard_filename("/sync/7-bob.png", "/sync/", "alice", None)
        .expect("must parse");
    assert_eq!(p.path, "/sync/7-bob.png");
    assert_eq!(p.beat, 7);
}

#[test]
fn marker_file_names_are_recognized() {
    assert!(is_receiving_file("bob.is-receiving.txt"));
    assert!(is_receiving_file(".is-receiving.txt"));
    assert!(!is_receiving_file("bob.is-receiving.txt.bak"));
    assert!(!is_receiving_file("bob.txt"));
    assert!(!is_receiving_file(""));
}
