//! The persisted application configuration: the sync folder, the six
//! send/receive capability switches, the cleanup switch, the watch mode and
//! the sync command line.

use vstd::prelude::*;

use crate::types::ClipboardContentType;

verus! {

/// How incoming artifact files are detected in the sync folder.
#[derive(Debug, Clone, Copy, PartialEq, Eq, Structural)]
pub enum WatchMode {
    Native,
    Polling,
    PollingHarder,
}

impl Default for WatchMode {
    /// The default watch mode uses native file-system notifications.
    fn default() -> (r: Self)
        ensures
            r == WatchMode::Native,
    {
        WatchMode::Native
    }
}

/// The persistent application configuration.
#[derive(Debug, Clone)]
pub struct Config {
    /// The sync folder, if one is configured.
    pub folder: Option<String>,
    pub send_texts: bool,
    pub send_images: bool,
    pub send_files: bool,
    pub receive_texts: bool,
    pub receive_images: bool,
    pub receive_files: bool,
    /// Whether the periodic retention sweep runs.
    pub auto_cleanup: bool,
    pub watch_mode: WatchMode,
    /// The external command to run while syncing; empty means none.
    pub sync_command: String,
}

impl Default for Config {
    /// By default everything is sent and received, cleanup is on, watching
    /// is native, no folder is set and no sync command runs.
    fn default() -> (r: Self)
        ensures
            r.folder is None,
            r.send_texts && r.send_images && r.send_files,
            r.receive_texts && r.receive_images && r.receive_files,
            r.auto_cleanup,
            r.watch_mode == WatchMode::Native,
            r.sync_command@ == Seq::<char>::empty(),
    {
        Config {
            folder: Option::None,
            send_texts: true,
            send_images: true,
            send_files: true,
            receive_texts: true,
            receive_images: true,
            receive_files: true,
            auto_cleanup: true,
            watch_mode: WatchMode::Native,
            sync_command: String::new(),
        }
    }
}

/// Whether the configuration allows sending the given kind.
pub open spec fn spec_sends_kind(c: Config, kind: ClipboardContentType) -> bool {
    match kind {
        ClipboardContentType::Text => c.send_texts,
        ClipboardContentType::Image => c.send_images,
        ClipboardContentType::Files => c.send_files,
    }
}

/// Whether the configuration allows receiving the given kind.
pub open spec fn spec_receives_kind(c: Config, kind: ClipboardContentType) -> bool {
    match kind {
        ClipboardContentType::Text => c.receive_texts,
        ClipboardContentType::Image => c.receive_images,
        ClipboardContentType::Files => c.receive_files,
    }
}

impl Config {
    /// Whether any send capability is enabled.
    pub fn is_sending_anything(&self) -> (r: bool)
        ensures
            r == (self.send_texts || self.send_images || self.send_files),
    {
        self.send_texts || self.send_images || self.send_files
    }

    /// Whether any receive capability is enabled.
    pub fn is_receiving_anything(&self) -> (r: bool)
        ensures
            r == (self.receive_texts || self.receive_images || self.receive_files),
    {
        self.receive_texts || self.receive_images || self.receive_files
    }

    /// Whether sending the given kind is enabled.
    pub fn sends_kind(&self, kind: ClipboardContentType) -> (r: bool)
        ensures
            r == spec_sends_kind(*self, kind),
    {
        match kind {
            ClipboardContentType::Text => self.send_texts,
            ClipboardContentType::Image => self.send_images,
            ClipboardContentType::Files => self.send_files,
        }
    }

    /// Whether receiving the given kind is enabled.
    pub fn receives_kind(&self, kind: ClipboardContentType) -> (r: bool)
        ensures
            r == spec_receives_kind(*self, kind),
    {
        match kind {
            ClipboardContentType::Text => self.receive_texts,
            ClipboardContentType::Image => self.receive_images,
            ClipboardContentType::Files => self.receive_files,
        }
    }
}

} // verus!
