//! Fixed names, suffixes and time thresholds of the synchronization protocol.

use vstd::prelude::*;

verus! {

/// Suffix of the per-host presence marker files.
pub const IS_RECEIVING_FILE_SUFFIX: &'static str = ".is-receiving.txt";

/// Interval at which this host's presence marker is renewed (4 minutes), in ms.
pub const KEEP_ALIVE_INTERVAL_MS: u64 = 240_000;

/// A peer's presence marker counts as fresh within this age (10 minutes), in ms.
pub const STALE_THRESHOLD_MS: u64 = 600_000;

/// Artifacts written by this host are swept after this age (5 minutes), in ms.
pub const SELF_CLEAN_THRESHOLD_MS: u64 = 300_000;

/// Artifacts written by peers are swept after this age (10 minutes), in ms.
pub const OTHERS_CLEAN_THRESHOLD_MS: u64 = 600_000;

/// Largest total recursive size of a files transfer (100 MB), in bytes.
pub const MAX_FILES_SIZE_BYTES: u64 = 104_857_600;

/// Duration for which the sent/received icon is shown before reverting, in ms.
pub const ICON_FLASH_DURATION_MS: u64 = 5_000;

/// Clipboard-change events closer together than this are dropped, in ms.
pub const CLIPBOARD_DEBOUNCE_MS: u64 = 500;

/// Settle delay after an accepted clipboard-change event, before the
/// clipboard is read, in ms.
pub const CLIPBOARD_WRITE_DELAY_MS: u64 = 100;

/// Settle delay after a detected artifact file, before it is read, in ms.
pub const FILE_SETTLE_DELAY_MS: u64 = 200;

/// Time window in which recently exchanged content is suppressed as a
/// duplicate, in ms.
pub const DUPLICATE_WINDOW_MS: u64 = 15_000;

/// Idle time after which synchronization is suspended, in seconds.
pub const IDLE_TIMEOUT_SECS: u64 = 30;

/// After the sync command starts, the folder is re-checked every second for
/// this long, in ms.
pub const SYNC_COMMAND_WAIT_MS: u64 = 15_000;

/// Folder accessibility check cadence right after the sync command starts, in ms.
pub const FOLDER_CHECK_FAST_MS: u64 = 1_000;

/// Ordinary folder accessibility check cadence, in ms.
pub const FOLDER_CHECK_SLOW_MS: u64 = 30_000;

/// Cadence of the periodic retention sweep, in ms.
pub const CLEAN_INTERVAL_MS: u64 = 60_000;

/// Name of the persisted configuration file.
pub const CONFIG_FILE_NAME: &'static str = "ClipboardSyncConfig.json";

/// Home page of the project, used by the update check.
pub const GITHUB_REPO_URL: &'static str = "https://github.com/felipecrs/clipboard-sync";

} // verus!
