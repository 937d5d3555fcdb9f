//! The value types exchanged between the pipelines: content kinds, text
//! snapshots, parsed artifact names, origins, and user-interface tags.

use vstd::prelude::*;

verus! {

/// The kind of clipboard content an artifact carries.
#[derive(Debug, Clone, Copy, PartialEq, Eq, Structural)]
pub enum ClipboardContentType {
    Text,
    Image,
    Files,
}

/// Text clipboard content; may hold plain text, HTML markup and RTF at once.
/// It is empty iff every representation is absent or empty.
#[derive(Debug, Clone)]
pub struct ClipboardText {
    pub text: Option<String>,
    pub html: Option<String>,
    pub rtf: Option<String>,
}

/// An absent or empty optional string.
pub open spec fn opt_str_blank(s: Option<Seq<char>>) -> bool {
    match s {
        Option::None => true,
        Option::Some(t) => t.len() == 0,
    }
}

/// What it means for a text snapshot to be empty: all three representations
/// are absent or empty.
pub open spec fn spec_text_is_empty(t: ClipboardText) -> bool {
    opt_str_blank(t.text.deep_view()) && opt_str_blank(t.html.deep_view()) && opt_str_blank(
        t.rtf.deep_view(),
    )
}

/// Equality of two optional strings by contents.
fn opt_string_eq(a: &Option<String>, b: &Option<String>) -> (r: bool)
    ensures
        r == (a.deep_view() == b.deep_view()),
{
    match (a, b) {
        (Option::None, Option::None) => true,
        (Option::Some(x), Option::Some(y)) => {
            let e = <String as PartialEq>::eq(x, y);
            proof {
                if e {
                    assert(a.deep_view() == b.deep_view());
                } else {
                    assert(a.deep_view() != b.deep_view());
                }
            }
            e
        },
        _ => {
            proof {
                assert(a.deep_view() != b.deep_view());
            }
            false
        },
    }
}

fn opt_string_is_blank(s: &Option<String>) -> (r: bool)
    ensures
        r == opt_str_blank(s.deep_view()),
{
    match s {
        Option::None => true,
        Option::Some(t) => t.as_str().is_empty(),
    }
}

impl ClipboardText {
    /// A snapshot is empty iff all three representations are absent or empty.
    pub fn is_empty(&self) -> (r: bool)
        ensures
            r == spec_text_is_empty(*self),
    {
        opt_string_is_blank(&self.text) && opt_string_is_blank(&self.html) && opt_string_is_blank(
            &self.rtf,
        )
    }

    /// Two snapshots are equal iff all three representations agree by
    /// contents.
    pub fn equals(&self, other: &ClipboardText) -> (r: bool)
        ensures
            r == (self.deep_view() == other.deep_view()),
    {
        let e = opt_string_eq(&self.text, &other.text) && opt_string_eq(&self.html, &other.html)
            && opt_string_eq(&self.rtf, &other.rtf);
        proof {
            if e {
                assert(self.deep_view() =~= other.deep_view());
            }
        }
        e
    }
}

impl Default for ClipboardText {
    /// The default snapshot has every representation absent.
    fn default() -> (r: Self)
        ensures
            r.text is None && r.html is None && r.rtf is None,
    {
        ClipboardText { text: Option::None, html: Option::None, rtf: Option::None }
    }
}

/// The view of a text snapshot: its three representations by contents.
pub struct ClipboardTextView {
    pub text: Option<Seq<char>>,
    pub html: Option<Seq<char>>,
    pub rtf: Option<Seq<char>>,
}

impl DeepView for ClipboardText {
    type V = ClipboardTextView;

    open spec fn deep_view(&self) -> ClipboardTextView {
        ClipboardTextView {
            text: self.text.deep_view(),
            html: self.html.deep_view(),
            rtf: self.rtf.deep_view(),
        }
    }
}

/// Whether an artifact was produced by the local host or a peer.
#[derive(Debug, Clone, Copy, PartialEq, Eq, Structural)]
pub enum ClipboardOrigin {
    Myself,
    Others,
}

/// A successfully decoded artifact in the sync folder.
#[derive(Debug, Clone)]
pub struct ParsedClipboardFile {
    /// Full path of the artifact inside the sync folder.
    pub path: String,
    /// The sender-assigned logical timestamp taken from the name.
    pub beat: u64,
    /// The kind of clipboard data the artifact carries.
    pub content_type: ClipboardContentType,
    /// Whether the artifact was written by this host or a peer.
    pub origin: ClipboardOrigin,
    /// Expected total recursive file count (present only for Files).
    pub files_count: Option<u32>,
}

/// Which tray icon the user interface should display.
#[derive(Debug, Clone, Copy, PartialEq, Eq, Structural)]
pub enum TrayIconState {
    Working,
    Sent,
    Received,
    Suspended,
}

/// How long a user-visible notification should stay on screen.
#[derive(Debug, Clone, Copy, PartialEq, Eq, Structural)]
pub enum NotificationDuration {
    Short,
    Long,
}

/// What a menu item does when clicked.
#[derive(Debug, Clone, Copy, PartialEq, Eq, Structural)]
pub enum MenuAction {
    ToggleSendTexts,
    ToggleSendImages,
    ToggleSendFiles,
    ToggleReceiveTexts,
    ToggleReceiveImages,
    ToggleReceiveFiles,
    SetWatchModeNative,
    SetWatchModePolling,
    SetWatchModePollingHarder,
    ToggleAutoCleanup,
    ToggleAutoStart,
    ChangeFolder,
    SetSyncCommand,
    OpenFolder,
    RestartOneDrive,
    CheckForUpdates,
    OpenGitHub,
    Quit,
}

/// One directory entry of the sync folder as the scanner saw it: its file
/// name and its modification time in epoch milliseconds.
#[derive(Debug, Clone)]
pub struct FolderEntry {
    pub name: String,
    pub modified_ms: u64,
}

} // verus!
