//! The sync reader: decides whether the content loaded from a peer's
//! artifact is applied to the local clipboard.  The surrounding process
//! loads the artifact (parsing the text JSON, reading the image bytes,
//! listing and counting the files directory), probes the live clipboard for
//! the artifact's kind, and afterwards performs the clipboard writes.

use vstd::prelude::*;

use crate::config::{Config, spec_receives_kind};
use crate::dedup::{DedupState, file_sets_equal, spec_same_file_set};
use crate::types::{
    ClipboardContentType, ClipboardText, ParsedClipboardFile, spec_text_is_empty,
};
use crate::utils::{calculate_sha256, spec_sha256_hex};

verus! {

/// The artifact's content as loaded from disk, reduced to plain values.
pub enum LoadedContent {
    /// The text representations parsed from the artifact's JSON object.
    Text(ClipboardText),
    /// The artifact's raw PNG bytes.
    Image(Vec<u8>),
    /// The artifact directory's immediate children, and the total recursive
    /// file count currently present under it.
    Files { entries: Vec<String>, actual_count: u32 },
}

/// What the live clipboard currently holds of the artifact's kind; `Missing`
/// when it holds no content of that kind.
pub enum LiveContent {
    Missing,
    Text(ClipboardText),
    Image(Vec<u8>),
    Files(Vec<String>),
}

/// What the process is to apply to the local clipboard.
pub enum ApplyContent {
    /// Set all present text representations together.
    Text(ClipboardText),
    /// Set the image from these PNG bytes.
    Image(Vec<u8>),
    /// Set the file list to these paths.
    Files(Vec<String>),
}

/// The kind a loaded content belongs to.
pub open spec fn spec_loaded_kind(l: LoadedContent) -> ClipboardContentType {
    match l {
        LoadedContent::Text(_) => ClipboardContentType::Text,
        LoadedContent::Image(_) => ClipboardContentType::Image,
        LoadedContent::Files { .. } => ClipboardContentType::Files,
    }
}

/// The live clipboard already shows the loaded content: same text
/// representations, same image digest, or the same file set.
pub open spec fn spec_live_matches_loaded(live: LiveContent, loaded: LoadedContent) -> bool {
    match (live, loaded) {
        (LiveContent::Text(cur), LoadedContent::Text(nt)) => cur.deep_view() == nt.deep_view(),
        (LiveContent::Image(cur), LoadedContent::Image(nb)) => spec_sha256_hex(cur@)
            == spec_sha256_hex(nb@),
        (LiveContent::Files(cur), LoadedContent::Files { entries, .. }) => spec_same_file_set(
            entries.deep_view(),
            cur.deep_view(),
        ),
        _ => false,
    }
}

/// When the reader applies an artifact: its kind is enabled and matches what
/// was loaded, a files artifact carries its expected count and every file
/// has already replicated, loaded text is not empty, the live clipboard
/// could be probed and does not already show the content, and no newer beat
/// has been processed.
pub open spec fn spec_read_accepts(
    parsed: ParsedClipboardFile,
    config: Config,
    loaded: LoadedContent,
    live: Option<LiveContent>,
    st: DedupState,
) -> bool {
    &&& spec_receives_kind(config, parsed.content_type)
    &&& spec_loaded_kind(loaded) == parsed.content_type
    &&& (parsed.content_type == ClipboardContentType::Files ==> (parsed.files_count matches Some(
        expected,
    ) && (loaded matches LoadedContent::Files { actual_count, .. } && actual_count == expected)))
    &&& (loaded matches LoadedContent::Text(t) ==> !spec_text_is_empty(t))
    &&& (live matches Some(lv) && !spec_live_matches_loaded(lv, loaded))
    &&& (st.last_beat matches Some(lb) ==> parsed.beat >= lb)
}

/// What an accepted apply holds: exactly the loaded content.
pub open spec fn spec_apply_matches(r: ApplyContent, loaded: LoadedContent) -> bool {
    match loaded {
        LoadedContent::Text(t) => r matches ApplyContent::Text(c) && c == t,
        LoadedContent::Image(b) => r matches ApplyContent::Image(c) && c == b,
        LoadedContent::Files { entries, .. } => r matches ApplyContent::Files(c) && c == entries,
    }
}

/// Decides whether the loaded artifact content is applied to the local
/// clipboard.  On acceptance the dedup state's last beat advances to `now`;
/// on rejection — a disabled kind, a transfer still in progress, empty text,
/// content the clipboard already shows, or a superseded beat — nothing
/// changes.
pub fn read_clipboard_from_file(
    parsed: &ParsedClipboardFile,
    config: &Config,
    loaded: LoadedContent,
    live: Option<LiveContent>,
    now: u64,
    dedup: &mut DedupState,
) -> (r: Option<ApplyContent>)
    ensures
        r is Some <==> spec_read_accepts(*parsed, *config, loaded, live, *old(dedup)),
        r matches Some(a) ==> spec_apply_matches(a, loaded),
        r is Some ==> *final(dedup) == (DedupState { last_beat: Some(now), ..*old(dedup) }),
        r is None ==> *final(dedup) == *old(dedup),
{
    if !config.receives_kind(parsed.content_type) {
        return Option::None;
    }
    let live = match live {
        Option::Some(lv) => lv,
        Option::None => {
            return Option::None;
        },
    };
    match loaded {
        LoadedContent::Text(nt) => {
            if !matches!(parsed.content_type, ClipboardContentType::Text) {
                return Option::None;
            }
            if nt.is_empty() {
                return Option::None;
            }
            match &live {
                LiveContent::Text(cur) => {
                    if cur.equals(&nt) {
                        return Option::None;
                    }
                },
                _ => {},
            }
            match dedup.last_beat {
                Option::Some(lb) => {
                    if parsed.beat < lb {
                        return Option::None;
                    }
                },
                Option::None => {},
            }
            dedup.record_attempt(now);
            Option::Some(ApplyContent::Text(nt))
        },
        LoadedContent::Image(nb) => {
            if !matches!(parsed.content_type, ClipboardContentType::Image) {
                return Option::None;
            }
            match &live {
                LiveContent::Image(cur) => {
                    let cur_sha = calculate_sha256(cur.as_slice());
                    let new_sha = calculate_sha256(nb.as_slice());
                    if <String as PartialEq>::eq(&cur_sha, &new_sha) {
                        return Option::None;
                    }
                },
                _ => {},
            }
            match dedup.last_beat {
                Option::Some(lb) => {
                    if parsed.beat < lb {
                        return Option::None;
                    }
                },
                Option::None => {},
            }
            dedup.record_attempt(now);
            Option::Some(ApplyContent::Image(nb))
        },
        LoadedContent::Files { entries, actual_count } => {
            if !matches!(parsed.content_type, ClipboardContentType::Files) {
                return Option::None;
            }
            let expected = match parsed.files_count {
                Option::Some(c) => c,
                Option::None => {
                    return Option::None;
                },
            };
            if actual_count != expected {
                return Option::None;
            }
            match &live {
                LiveContent::Files(cur) => {
                    if file_sets_equal(&entries, cur) {
                        return Option::None;
                    }
                },
                _ => {},
            }
            match dedup.last_beat {
                Option::Some(lb) => {
                    if parsed.beat < lb {
                        return Option::None;
                    }
                },
                Option::None => {},
            }
            dedup.record_attempt(now);
            Option::Some(ApplyContent::Files(entries))
        },
    }
}

/// An artifact whose beat is older than one already processed is never
/// applied, whatever its content.
pub proof fn lemma_superseded_never_applied(
    parsed: ParsedClipboardFile,
    config: Config,
    loaded: LoadedContent,
    live: Option<LiveContent>,
    st: DedupState,
)
    requires
        st.last_beat matches Some(lb) && parsed.beat < lb,
    ensures
        !spec_read_accepts(parsed, config, loaded, live, st),
{
}

/// A files artifact whose directory holds fewer (or more) files than its
/// encoded count is never applied: the transfer is still in progress.
pub proof fn lemma_partial_transfer_never_applied(
    parsed: ParsedClipboardFile,
    config: Config,
    entries: Vec<String>,
    actual_count: u32,
    live: Option<LiveContent>,
    st: DedupState,
)
    requires
        parsed.content_type == ClipboardContentType::Files,
        parsed.files_count matches Some(expected) && actual_count != expected,
    ensures
        !spec_read_accepts(
            parsed,
            config,
            LoadedContent::Files { entries, actual_count },
            live,
            st,
        ),
{
}

} // verus!
