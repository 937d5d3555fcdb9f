//! The sync writer: turns an observation of the local clipboard into a plan
//! for one artifact file, after checking that a peer is listening, that the
//! content kind is enabled, that the content is not empty or oversized, and
//! that it is no duplicate of recent activity.  The surrounding process
//! performs the observation beforehand and the file writes afterwards.

use vstd::prelude::*;

use crate::codec::{encode_file_name, spec_encode_name, valid_hostname};
use crate::config::Config;
use crate::consts::MAX_FILES_SIZE_BYTES;
use crate::dedup::{
    ContentSnapshot, DedupState, spec_dup_files, spec_dup_image, spec_dup_text,
};
use crate::presence::{no_computers_receiving, spec_someone_listening};
use crate::types::{ClipboardContentType, ClipboardText, FolderEntry};
use crate::utils::{calculate_sha256, spec_sha256_hex};

verus! {

/// What the process observed on the local clipboard, reduced to plain
/// values: the dominant content kind with its materialized content, or
/// nothing usable.
pub enum ClipboardObservation {
    /// The clipboard could not be opened, or holds no supported format.
    Unavailable,
    /// Text content, with every representation that was present.
    Text(ClipboardText),
    /// Image content, re-encoded to canonical PNG bytes.
    Image(Vec<u8>),
    /// A file list, with its total recursive size and file count as
    /// enumerated on disk.
    Files { paths: Vec<String>, total_bytes: u64, total_count: u32 },
}

/// The content of the artifact the process is to write.
pub enum WriteContent {
    /// Serialize these representations as the text artifact's JSON object.
    Text(ClipboardText),
    /// Write these canonical PNG bytes; their digest is recorded after
    /// success.
    Image { png: Vec<u8>, sha256: String },
    /// Create the artifact directory and copy these source paths into it.
    Files(Vec<String>),
}

/// One planned artifact write: the file (or directory) name inside the sync
/// folder, and what to put there.
pub struct WritePlan {
    pub file_name: String,
    pub content: WriteContent,
}

/// When the writer produces a plan: a peer is listening, the observed kind
/// is enabled by configuration, the content is not empty (for files: holds
/// at least one file and stays within the size cap), and it is no duplicate
/// of recent activity.
pub open spec fn spec_write_accepts(
    host: Seq<char>,
    config: Config,
    peers: Option<Vec<FolderEntry>>,
    obs: ClipboardObservation,
    beat: u64,
    st: DedupState,
) -> bool {
    &&& spec_someone_listening(peers, host, beat)
    &&& match obs {
        ClipboardObservation::Unavailable => false,
        ClipboardObservation::Text(t) => config.send_texts && !spec_dup_text(t, beat, st),
        ClipboardObservation::Image(png) => config.send_images && !spec_dup_image(
            spec_sha256_hex(png@),
            beat,
            st,
        ),
        ClipboardObservation::Files { paths, total_bytes, total_count } => config.send_files
            && !spec_dup_files(paths.deep_view(), beat, st) && total_bytes <= MAX_FILES_SIZE_BYTES
            && total_count >= 1,
    }
}

/// What an accepted plan holds, given the observation it came from.
pub open spec fn spec_plan_matches(
    p: WritePlan,
    host: Seq<char>,
    obs: ClipboardObservation,
    beat: u64,
) -> bool {
    match obs {
        ClipboardObservation::Unavailable => false,
        ClipboardObservation::Text(t) => {
            &&& p.file_name@ == spec_encode_name(
                beat as nat,
                host,
                ClipboardContentType::Text,
                0,
            )
            &&& (p.content matches WriteContent::Text(c) && c == t)
        },
        ClipboardObservation::Image(png) => {
            &&& p.file_name@ == spec_encode_name(
                beat as nat,
                host,
                ClipboardContentType::Image,
                0,
            )
            &&& (p.content matches WriteContent::Image { png: c, sha256 } && c == png && sha256@
                == spec_sha256_hex(png@))
        },
        ClipboardObservation::Files { paths, total_bytes, total_count } => {
            &&& p.file_name@ == spec_encode_name(
                beat as nat,
                host,
                ClipboardContentType::Files,
                total_count as nat,
            )
            &&& (p.content matches WriteContent::Files(c) && c == paths)
        },
    }
}

/// Decides whether and how the observed clipboard content becomes an
/// artifact.  On acceptance the returned plan names the artifact and its
/// content, and the dedup state's last beat advances — even if the write
/// that follows fails, the attempt counts for the feedback window.  On
/// rejection nothing changes.
pub fn write_clipboard_to_file(
    hostname: &str,
    config: &Config,
    peers: &Option<Vec<FolderEntry>>,
    observation: ClipboardObservation,
    beat: u64,
    dedup: &mut DedupState,
) -> (r: Option<WritePlan>)
    requires
        valid_hostname(hostname@),
        beat >= 1,
    ensures
        r is Some <==> spec_write_accepts(hostname@, *config, *peers, observation, beat, *old(dedup)),
        r matches Some(p) ==> spec_plan_matches(p, hostname@, observation, beat),
        r is Some ==> *final(dedup) == (DedupState { last_beat: Some(beat), ..*old(dedup) }),
        r is None ==> *final(dedup) == *old(dedup),
{
    if no_computers_receiving(peers, hostname, beat) {
        return Option::None;
    }
    match observation {
        ClipboardObservation::Unavailable => Option::None,
        ClipboardObservation::Text(t) => {
            if !config.send_texts {
                return Option::None;
            }
            let snap = ContentSnapshot::Text(t);
            if dedup.is_duplicate(&snap, beat) {
                return Option::None;
            }
            let t = match snap {
                ContentSnapshot::Text(t) => t,
                _ => {
                    return Option::None;
                },
            };
            dedup.record_attempt(beat);
            let file_name = encode_file_name(beat, hostname, ClipboardContentType::Text, 0);
            Option::Some(WritePlan { file_name, content: WriteContent::Text(t) })
        },
        ClipboardObservation::Image(png) => {
            if !config.send_images {
                return Option::None;
            }
            let sha = calculate_sha256(png.as_slice());
            let snap = ContentSnapshot::Image(sha);
            if dedup.is_duplicate(&snap, beat) {
                return Option::None;
            }
            let sha = match snap {
                ContentSnapshot::Image(s) => s,
                _ => {
                    return Option::None;
                },
            };
            dedup.record_attempt(beat);
            let file_name = encode_file_name(beat, hostname, ClipboardContentType::Image, 0);
            Option::Some(
                WritePlan { file_name, content: WriteContent::Image { png, sha256: sha } },
            )
        },
        ClipboardObservation::Files { paths, total_bytes, total_count } => {
            if !config.send_files {
                return Option::None;
            }
            let snap = ContentSnapshot::Files(paths);
            if dedup.is_duplicate(&snap, beat) {
                return Option::None;
            }
            let paths = match snap {
                ContentSnapshot::Files(p) => p,
                _ => {
                    return Option::None;
                },
            };
            if total_bytes > MAX_FILES_SIZE_BYTES {
                return Option::None;
            }
            if total_count == 0 {
                return Option::None;
            }
            dedup.record_attempt(beat);
            let file_name = encode_file_name(
                beat,
                hostname,
                ClipboardContentType::Files,
                total_count,
            );
            Option::Some(WritePlan { file_name, content: WriteContent::Files(paths) })
        },
    }
}

/// Writing the same non-empty text twice in quick succession produces only
/// one artifact: once a text write has been accepted at some beat and its
/// snapshot recorded, the same text offered again within the duplicate
/// window is rejected, whatever the presence picture then is.
pub proof fn lemma_text_write_idempotent(
    host: Seq<char>,
    config: Config,
    peers: Option<Vec<FolderEntry>>,
    st: DedupState,
    t: ClipboardText,
    beat1: u64,
    beat2: u64,
)
    requires
        st.last_beat == Some(beat1),
        st.last_text_written matches Some(lw) && lw.deep_view() == t.deep_view(),
        beat1 <= beat2,
        beat2 - beat1 < crate::consts::DUPLICATE_WINDOW_MS,
    ensures
        !spec_write_accepts(host, config, peers, ClipboardObservation::Text(t), beat2, st),
{
    assert(spec_dup_text(t, beat2, st));
}

} // verus!
