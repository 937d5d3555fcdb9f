//! The top-level state machine.  It owns the sync folder, the idle flag and
//! the per-subsystem timestamps, and decides — from plain observations the
//! surrounding process feeds in — when to initialize or tear down the
//! machinery, when to refresh the presence marker, when to sweep, when a
//! clipboard event is accepted, and what each menu action changes.

use vstd::prelude::*;
use vstd::string::StrSliceExecFns;

use crate::codec::{
    parse_clipboard_filename, parsed_file_matches, spec_parse_accepts,
};
use crate::config::{Config, WatchMode};
use crate::consts::{
    CLEAN_INTERVAL_MS, CLIPBOARD_DEBOUNCE_MS, FOLDER_CHECK_FAST_MS, FOLDER_CHECK_SLOW_MS,
    ICON_FLASH_DURATION_MS, IDLE_TIMEOUT_SECS, KEEP_ALIVE_INTERVAL_MS, SYNC_COMMAND_WAIT_MS,
};
use crate::presence::spec_sat_sub;
use crate::text::{spec_contains, spec_ends_with, str_contains, str_ends_with};
use crate::types::{ClipboardOrigin, MenuAction, ParsedClipboardFile, TrayIconState};

verus! {

/// Why synchronization is suspended; shown to the user by the surrounding
/// process.
#[derive(Debug, Clone, Copy, PartialEq, Eq, Structural)]
pub enum SuspendReason {
    NoFolderConfigured,
    FolderUnavailable,
    Idle,
    CommandFailed,
    Reloading,
    Exiting,
}

/// What a completed initialization asks the surrounding process to start.
#[derive(Debug, Clone, Copy, PartialEq, Eq, Structural)]
pub struct InitActions {
    /// Start the clipboard-change watcher (any send capability is on).
    pub start_clipboard_watcher: bool,
    /// Start the file-system watcher in this mode (any receive capability
    /// is on), and write the initial presence marker.
    pub start_fs_watcher: Option<WatchMode>,
    /// Run one retention sweep now (auto-cleanup is on).
    pub run_cleanup: bool,
}

/// How an initialization attempt ended.
#[derive(Debug, Clone, Copy, PartialEq, Eq, Structural)]
pub enum InitOutcome {
    /// No sync folder is configured; stay suspended.
    NoFolder,
    /// The folder is configured but not accessible; stay suspended and
    /// retry later.
    FolderNotAccessible,
    /// Synchronization is up; perform these actions.
    Started(InitActions),
}

/// What a teardown asks the surrounding process to do.
#[derive(Debug, Clone, Copy, PartialEq, Eq, Structural)]
pub struct UninitActions {
    /// Stop the clipboard and file-system watchers (idempotent).
    pub stop_watchers: bool,
    /// Remove this host's presence marker from the sync folder.
    pub remove_marker: bool,
    /// Stop the supervised sync command if it runs.
    pub stop_sync_command: bool,
}

/// The transition a folder accessibility check forces, if any.
#[derive(Debug, Clone, Copy, PartialEq, Eq, Structural)]
pub enum FolderTransition {
    DoInitialize,
    DoUninitialize,
}

/// What an idle report forces.
#[derive(Debug, Clone, Copy, PartialEq, Eq, Structural)]
pub enum IdleAction {
    /// The machine crossed the idle threshold while running: tear down.
    Suspend,
    /// The machine became active again after an idle suspension: bring up.
    Resume,
    Nothing,
}

/// What the surrounding process does after a menu action.
#[derive(Debug, Clone, Copy, PartialEq, Eq, Structural)]
pub enum MenuEffect {
    /// The configuration changed: persist it and run a full teardown and
    /// re-initialization.
    SaveAndReload,
    ToggleAutoStart,
    PickSyncCommand,
    PickFolder,
    OpenFolder,
    RestartOneDrive,
    CheckForUpdates,
    OpenGitHub,
    Quit,
}

/// The orchestrator's state: created once at process start, mutated only by
/// the single dispatch loop.
pub struct Orchestrator {
    /// Whether synchronization is currently up.
    pub initialized: bool,
    /// Whether the current suspension was caused by idleness.
    pub suspended_by_idle: bool,
    /// Why synchronization is down, when it is.
    pub suspend_reason: Option<SuspendReason>,
    /// The sync folder in use.
    pub sync_folder: Option<String>,
    /// When the presence marker was last written.
    pub last_keep_alive: Option<u64>,
    /// When the retention sweep last ran.
    pub last_clean: Option<u64>,
    /// When folder accessibility was last checked.
    pub last_folder_check: Option<u64>,
    /// When the sync command was started, while its grace period lasts.
    pub sync_command_started_at: Option<u64>,
    /// When the last clipboard-change event was accepted.
    pub last_clipboard_event: Option<u64>,
    /// When the flashed icon reverts to the working icon.
    pub icon_revert_at: Option<u64>,
    /// The icon currently shown.
    pub current_icon: TrayIconState,
}

/// The folder-check cadence: fast within the sync command's grace period,
/// slow otherwise.
pub open spec fn spec_folder_check_interval(started_at: Option<u64>, now: u64) -> u64 {
    match started_at {
        Option::Some(t) => if spec_sat_sub(now, t) < SYNC_COMMAND_WAIT_MS {
            FOLDER_CHECK_FAST_MS
        } else {
            FOLDER_CHECK_SLOW_MS
        },
        Option::None => FOLDER_CHECK_SLOW_MS,
    }
}

/// A periodic task is due: it never ran, or its interval has passed.
pub open spec fn spec_due(last: Option<u64>, now: u64, interval: u64) -> bool {
    match last {
        Option::None => true,
        Option::Some(t) => spec_sat_sub(now, t) >= interval,
    }
}

impl Orchestrator {
    /// The initial state: suspended, nothing run yet, no folder adopted.
    pub fn new() -> (r: Self)
        ensures
            !r.initialized,
            !r.suspended_by_idle,
            r.suspend_reason is None,
            r.sync_folder is None,
            r.last_keep_alive is None,
            r.last_clean is None,
            r.last_folder_check is None,
            r.sync_command_started_at is None,
            r.last_clipboard_event is None,
            r.icon_revert_at is None,
            r.current_icon == TrayIconState::Suspended,
    {
        Orchestrator {
            initialized: false,
            suspended_by_idle: false,
            suspend_reason: Option::None,
            sync_folder: Option::None,
            last_keep_alive: Option::None,
            last_clean: Option::None,
            last_folder_check: Option::None,
            sync_command_started_at: Option::None,
            last_clipboard_event: Option::None,
            icon_revert_at: Option::None,
            current_icon: TrayIconState::Suspended,
        }
    }

    /// Adopts the configured folder when none is set yet.
    pub fn adopt_folder(&mut self, config: &Config)
        ensures
            final(self).sync_folder == (if old(self).sync_folder is None {
                config.folder
            } else {
                old(self).sync_folder
            }),
            *final(self) == (Orchestrator { sync_folder: final(self).sync_folder, ..*old(self) }),
    {
        if self.sync_folder.is_none() {
            match &config.folder {
                Option::Some(f) => {
                    self.sync_folder = Option::Some(f.clone());
                },
                Option::None => {},
            }
        }
    }

    /// Notes that the sync command was just spawned, opening its fast
    /// folder-check grace period.
    pub fn note_sync_command_started(&mut self, now: u64)
        ensures
            *final(self) == (Orchestrator { sync_command_started_at: Some(now), ..*old(self) }),
    {
        self.sync_command_started_at = Option::Some(now);
    }

    /// Completes an initialization attempt once the process has checked the
    /// folder.  With no folder, or an inaccessible one, the state stays
    /// suspended with the fitting reason.  Otherwise synchronization is
    /// marked up, the watcher and cleanup actions are returned, and the
    /// keep-alive and sweep timestamps start now.
    pub fn complete_initialize(&mut self, config: &Config, folder_accessible: bool, now: u64) -> (r:
        InitOutcome)
        ensures
            old(self).sync_folder is None ==> r == InitOutcome::NoFolder && *final(self) == (
            Orchestrator {
                suspend_reason: Some(SuspendReason::NoFolderConfigured),
                ..*old(self)
            }),
            old(self).sync_folder is Some && !folder_accessible ==> r
                == InitOutcome::FolderNotAccessible && *final(self) == (Orchestrator {
                suspend_reason: Some(SuspendReason::FolderUnavailable),
                ..*old(self)
            }),
            old(self).sync_folder is Some && folder_accessible ==> r == InitOutcome::Started(
                InitActions {
                    start_clipboard_watcher: config.send_texts || config.send_images
                        || config.send_files,
                    start_fs_watcher: if config.receive_texts || config.receive_images
                        || config.receive_files {
                        Some(config.watch_mode)
                    } else {
                        None
                    },
                    run_cleanup: config.auto_cleanup,
                },
            ) && *final(self) == (Orchestrator {
                initialized: true,
                suspend_reason: None,
                last_keep_alive: if config.receive_texts || config.receive_images
                    || config.receive_files {
                    Some(now)
                } else {
                    old(self).last_keep_alive
                },
                last_clean: if config.auto_cleanup {
                    Some(now)
                } else {
                    old(self).last_clean
                },
                current_icon: TrayIconState::Working,
                ..*old(self)
            }),
    {
        if self.sync_folder.is_none() {
            self.suspend_reason = Option::Some(SuspendReason::NoFolderConfigured);
            return InitOutcome::NoFolder;
        }
        if !folder_accessible {
            self.suspend_reason = Option::Some(SuspendReason::FolderUnavailable);
            return InitOutcome::FolderNotAccessible;
        }
        let receiving = config.is_receiving_anything();
        if receiving {
            self.last_keep_alive = Option::Some(now);
        }
        if config.auto_cleanup {
            self.last_clean = Option::Some(now);
        }
        self.initialized = true;
        self.suspend_reason = Option::None;
        self.current_icon = TrayIconState::Working;
        InitOutcome::Started(
            InitActions {
                start_clipboard_watcher: config.is_sending_anything(),
                start_fs_watcher: if receiving {
                    Option::Some(config.watch_mode)
                } else {
                    Option::None
                },
                run_cleanup: config.auto_cleanup,
            },
        )
    }

    /// Tears synchronization down for the given reason: the watchers stop,
    /// this host's marker is removed when a folder is known, the sync
    /// command stops, and the suspended icon shows.  Calling it again is a
    /// no-op for the process (every action is idempotent).
    pub fn uninitialize(&mut self, reason: SuspendReason) -> (r: UninitActions)
        ensures
            r == (UninitActions {
                stop_watchers: true,
                remove_marker: old(self).sync_folder is Some,
                stop_sync_command: true,
            }),
            *final(self) == (Orchestrator {
                initialized: false,
                suspend_reason: Some(reason),
                current_icon: TrayIconState::Suspended,
                ..*old(self)
            }),
    {
        self.initialized = false;
        self.suspend_reason = Option::Some(reason);
        self.current_icon = TrayIconState::Suspended;
        UninitActions {
            stop_watchers: true,
            remove_marker: self.sync_folder.is_some(),
            stop_sync_command: true,
        }
    }

    /// Flashes the sent or received icon; it reverts after the flash
    /// duration.
    pub fn set_icon_flash(&mut self, icon: TrayIconState, now: u64)
        requires
            now + ICON_FLASH_DURATION_MS <= u64::MAX,
        ensures
            *final(self) == (Orchestrator {
                current_icon: icon,
                icon_revert_at: Some((now + ICON_FLASH_DURATION_MS) as u64),
                ..*old(self)
            }),
    {
        self.current_icon = icon;
        self.icon_revert_at = Option::Some(now + ICON_FLASH_DURATION_MS);
    }

    /// Reverts a flashed icon whose duration has elapsed.  Returns whether
    /// the process should show the working icon again.
    pub fn tick_icon_revert(&mut self, now: u64) -> (r: bool)
        ensures
            r == (old(self).icon_revert_at matches Some(t) && now >= t && old(self).initialized),
            *final(self) == (Orchestrator {
                icon_revert_at: if old(self).icon_revert_at matches Some(t) && now >= t {
                    None
                } else {
                    old(self).icon_revert_at
                },
                current_icon: if r {
                    TrayIconState::Working
                } else {
                    old(self).current_icon
                },
                ..*old(self)
            }),
    {
        let due: bool = match self.icon_revert_at {
            Option::Some(t) => now >= t,
            Option::None => false,
        };
        if due {
            self.icon_revert_at = Option::None;
            if self.initialized {
                self.current_icon = TrayIconState::Working;
                return true;
            }
            return false;
        }
        false
    }

    /// Whether this tick checks folder accessibility: every second during
    /// the sync command's grace period, every thirty seconds otherwise.
    /// Notes the check time when due, and closes the grace period once it
    /// has elapsed.
    pub fn folder_check_due(&mut self, now: u64) -> (r: bool)
        ensures
            r == spec_due(
                old(self).last_folder_check,
                now,
                spec_folder_check_interval(old(self).sync_command_started_at, now),
            ),
            *final(self) == (Orchestrator {
                last_folder_check: if r {
                    Some(now)
                } else {
                    old(self).last_folder_check
                },
                sync_command_started_at: match old(self).sync_command_started_at {
                    Some(t) => if spec_sat_sub(now, t) < SYNC_COMMAND_WAIT_MS {
                        Some(t)
                    } else {
                        None
                    },
                    None => None,
                },
                ..*old(self)
            }),
    {
        let interval: u64 = match self.sync_command_started_at {
            Option::Some(t) => {
                if now.saturating_sub(t) < SYNC_COMMAND_WAIT_MS {
                    FOLDER_CHECK_FAST_MS
                } else {
                    self.sync_command_started_at = Option::None;
                    FOLDER_CHECK_SLOW_MS
                }
            },
            Option::None => FOLDER_CHECK_SLOW_MS,
        };
        let due: bool = match self.last_folder_check {
            Option::None => true,
            Option::Some(t) => now.saturating_sub(t) >= interval,
        };
        if due {
            self.last_folder_check = Option::Some(now);
        }
        due
    }

    /// The transition a folder accessibility report forces: bring
    /// synchronization up when it is down and the folder appeared, tear it
    /// down when it is up and the folder vanished.
    pub fn on_folder_status(&self, accessible: bool) -> (r: Option<FolderTransition>)
        ensures
            r == (if !self.initialized && accessible {
                Some(FolderTransition::DoInitialize)
            } else if self.initialized && !accessible {
                Some(FolderTransition::DoUninitialize)
            } else {
                None::<FolderTransition>
            }),
    {
        if !self.initialized && accessible {
            Option::Some(FolderTransition::DoInitialize)
        } else if self.initialized && !accessible {
            Option::Some(FolderTransition::DoUninitialize)
        } else {
            Option::None
        }
    }

    /// Reacts to the reported input-idle time: crossing the threshold while
    /// running suspends (and flags the suspension as idle-caused); dropping
    /// below it resumes only an idle-caused suspension.
    pub fn on_idle_report(&mut self, idle_secs: u64) -> (r: IdleAction)
        ensures
            idle_secs >= IDLE_TIMEOUT_SECS && old(self).initialized ==> r == IdleAction::Suspend
                && *final(self) == (Orchestrator { suspended_by_idle: true, ..*old(self) }),
            idle_secs >= IDLE_TIMEOUT_SECS && !old(self).initialized ==> r == IdleAction::Nothing
                && *final(self) == *old(self),
            idle_secs < IDLE_TIMEOUT_SECS && old(self).suspended_by_idle ==> r == IdleAction::Resume
                && *final(self) == (Orchestrator { suspended_by_idle: false, ..*old(self) }),
            idle_secs < IDLE_TIMEOUT_SECS && !old(self).suspended_by_idle ==> r
                == IdleAction::Nothing && *final(self) == *old(self),
    {
        if idle_secs >= IDLE_TIMEOUT_SECS {
            if self.initialized {
                self.suspended_by_idle = true;
                IdleAction::Suspend
            } else {
                IdleAction::Nothing
            }
        } else if self.suspended_by_idle {
            self.suspended_by_idle = false;
            IdleAction::Resume
        } else {
            IdleAction::Nothing
        }
    }

    /// Whether this tick refreshes the presence marker: only while running
    /// with some receive capability on, every four minutes.
    pub fn keep_alive_due(&mut self, config: &Config, now: u64) -> (r: bool)
        ensures
            r == (old(self).initialized && (config.receive_texts || config.receive_images
                || config.receive_files) && spec_due(
                old(self).last_keep_alive,
                now,
                KEEP_ALIVE_INTERVAL_MS,
            )),
            *final(self) == (Orchestrator {
                last_keep_alive: if r {
                    Some(now)
                } else {
                    old(self).last_keep_alive
                },
                ..*old(self)
            }),
    {
        if !self.initialized || !config.is_receiving_anything() {
            return false;
        }
        let due: bool = match self.last_keep_alive {
            Option::None => true,
            Option::Some(t) => now.saturating_sub(t) >= KEEP_ALIVE_INTERVAL_MS,
        };
        if due {
            self.last_keep_alive = Option::Some(now);
        }
        due
    }

    /// Whether this tick runs a retention sweep: only while running with
    /// auto-cleanup on, every minute.
    pub fn clean_due(&mut self, config: &Config, now: u64) -> (r: bool)
        ensures
            r == (old(self).initialized && config.auto_cleanup && spec_due(
                old(self).last_clean,
                now,
                CLEAN_INTERVAL_MS,
            )),
            *final(self) == (Orchestrator {
                last_clean: if r {
                    Some(now)
                } else {
                    old(self).last_clean
                },
                ..*old(self)
            }),
    {
        if !self.initialized || !config.auto_cleanup {
            return false;
        }
        let due: bool = match self.last_clean {
            Option::None => true,
            Option::Some(t) => now.saturating_sub(t) >= CLEAN_INTERVAL_MS,
        };
        if due {
            self.last_clean = Option::Some(now);
        }
        due
    }

    /// Debounces clipboard-change events: one is accepted only while
    /// running with a folder set, and only when the previous accepted event
    /// lies at least the debounce interval back.
    pub fn accept_clipboard_event(&mut self, now: u64) -> (r: bool)
        ensures
            r == (old(self).initialized && old(self).sync_folder is Some && (match old(
                self,
            ).last_clipboard_event {
                Some(t) => spec_sat_sub(now, t) >= CLIPBOARD_DEBOUNCE_MS,
                None => true,
            })),
            *final(self) == (Orchestrator {
                last_clipboard_event: if r {
                    Some(now)
                } else {
                    old(self).last_clipboard_event
                },
                ..*old(self)
            }),
    {
        if !self.initialized || self.sync_folder.is_none() {
            return false;
        }
        let accept: bool = match self.last_clipboard_event {
            Option::None => true,
            Option::Some(t) => now.saturating_sub(t) >= CLIPBOARD_DEBOUNCE_MS,
        };
        if accept {
            self.last_clipboard_event = Option::Some(now);
        }
        accept
    }
}

/// The last path component of `p`: what stands after its last separator,
/// or all of it.
pub open spec fn spec_last_component(p: Seq<char>) -> Seq<char> {
    if exists|i: int| 0 <= i < p.len() && crate::codec::is_sep_char(p[i]) {
        let i = choose|i: int|
            0 <= i < p.len() && crate::codec::is_sep_char(p[i]) && forall|j: int|
                i < j < p.len() ==> !crate::codec::is_sep_char(p[j]);
        p.subrange(i + 1, p.len() as int)
    } else {
        p
    }
}

/// A transient temporary file some sync clients create while replicating:
/// its name mentions `~RF` and ends in `.TMP`.
pub open spec fn spec_is_transient_temp(name: Seq<char>) -> bool {
    spec_contains(name, "~RF"@) && spec_ends_with(name, ".TMP"@)
}

/// Reacts to a file-system event: a transient temporary file is ignored;
/// anything else is parsed as a peer-origin artifact path.
pub fn detect_clipboard_file(path: &str, sync_folder: &str, hostname: &str) -> (r: Option<
    ParsedClipboardFile,
>)
    ensures
        r is Some <==> (!spec_is_transient_temp(spec_last_component(path@)) && spec_parse_accepts(
            path@,
            sync_folder@,
            hostname@,
            Some(ClipboardOrigin::Others),
        )),
        r matches Some(p) ==> parsed_file_matches(p, path@, sync_folder@, hostname@),
{
    let n = path.unicode_len();
    let base_start: usize = match crate::utils::rfind_sep(path) {
        Option::Some(i) => i + 1,
        Option::None => 0,
    };
    let base = path.substring_char(base_start, n);
    proof {
        if exists|i: int| 0 <= i < path@.len() && crate::codec::is_sep_char(path@[i]) {
            let w = choose|w: int|
                0 <= w < path@.len() && crate::codec::is_sep_char(path@[w]) && forall|j: int|
                    w < j < path@.len() ==> !crate::codec::is_sep_char(path@[j]);
            assert(w == base_start - 1);
        }
        assert(base@ =~= spec_last_component(path@));
    }
    if str_contains(base, "~RF") && str_ends_with(base, ".TMP") {
        return Option::None;
    }
    parse_clipboard_filename(path, sync_folder, hostname, Option::Some(ClipboardOrigin::Others))
}

/// Applies a menu action.  Actions that change the configuration mutate it
/// and ask for a save and a full reload; the rest name the side effect the
/// surrounding process performs.
pub fn apply_menu_action(config: &mut Config, action: MenuAction) -> (r: MenuEffect)
    ensures
        action == MenuAction::ToggleSendTexts ==> *final(config) == (Config {
            send_texts: !old(config).send_texts,
            ..*old(config)
        }) && r == MenuEffect::SaveAndReload,
        action == MenuAction::ToggleSendImages ==> *final(config) == (Config {
            send_images: !old(config).send_images,
            ..*old(config)
        }) && r == MenuEffect::SaveAndReload,
        action == MenuAction::ToggleSendFiles ==> *final(config) == (Config {
            send_files: !old(config).send_files,
            ..*old(config)
        }) && r == MenuEffect::SaveAndReload,
        action == MenuAction::ToggleReceiveTexts ==> *final(config) == (Config {
            receive_texts: !old(config).receive_texts,
            ..*old(config)
        }) && r == MenuEffect::SaveAndReload,
        action == MenuAction::ToggleReceiveImages ==> *final(config) == (Config {
            receive_images: !old(config).receive_images,
            ..*old(config)
        }) && r == MenuEffect::SaveAndReload,
        action == MenuAction::ToggleReceiveFiles ==> *final(config) == (Config {
            receive_files: !old(config).receive_files,
            ..*old(config)
        }) && r == MenuEffect::SaveAndReload,
        action == MenuAction::SetWatchModeNative ==> *final(config) == (Config {
            watch_mode: WatchMode::Native,
            ..*old(config)
        }) && r == MenuEffect::SaveAndReload,
        action == MenuAction::SetWatchModePolling ==> *final(config) == (Config {
            watch_mode: WatchMode::Polling,
            ..*old(config)
        }) && r == MenuEffect::SaveAndReload,
        action == MenuAction::SetWatchModePollingHarder ==> *final(config) == (Config {
            watch_mode: WatchMode::PollingHarder,
            ..*old(config)
        }) && r == MenuEffect::SaveAndReload,
        action == MenuAction::ToggleAutoCleanup ==> *final(config) == (Config {
            auto_cleanup: !old(config).auto_cleanup,
            ..*old(config)
        }) && r == MenuEffect::SaveAndReload,
        action == MenuAction::ToggleAutoStart ==> *final(config) == *old(config) && r
            == MenuEffect::ToggleAutoStart,
        action == MenuAction::SetSyncCommand ==> *final(config) == *old(config) && r
            == MenuEffect::PickSyncCommand,
        action == MenuAction::ChangeFolder ==> *final(config) == *old(config) && r
            == MenuEffect::PickFolder,
        action == MenuAction::OpenFolder ==> *final(config) == *old(config) && r
            == MenuEffect::OpenFolder,
        action == MenuAction::RestartOneDrive ==> *final(config) == *old(config) && r
            == MenuEffect::RestartOneDrive,
        action == MenuAction::CheckForUpdates ==> *final(config) == *old(config) && r
            == MenuEffect::CheckForUpdates,
        action == MenuAction::OpenGitHub ==> *final(config) == *old(config) && r
            == MenuEffect::OpenGitHub,
        action == MenuAction::Quit ==> *final(config) == *old(config) && r == MenuEffect::Quit,
{
    match action {
        MenuAction::ToggleSendTexts => {
            config.send_texts = !config.send_texts;
            MenuEffect::SaveAndReload
        },
        MenuAction::ToggleSendImages => {
            config.send_images = !config.send_images;
            MenuEffect::SaveAndReload
        },
        MenuAction::ToggleSendFiles => {
            config.send_files = !config.send_files;
            MenuEffect::SaveAndReload
        },
        MenuAction::ToggleReceiveTexts => {
            config.receive_texts = !config.receive_texts;
            MenuEffect::SaveAndReload
        },
        MenuAction::ToggleReceiveImages => {
            config.receive_images = !config.receive_images;
            MenuEffect::SaveAndReload
        },
        MenuAction::ToggleReceiveFiles => {
            config.receive_files = !config.receive_files;
            MenuEffect::SaveAndReload
        },
        MenuAction::SetWatchModeNative => {
            config.watch_mode = WatchMode::Native;
            MenuEffect::SaveAndReload
        },
        MenuAction::SetWatchModePolling => {
            config.watch_mode = WatchMode::Polling;
            MenuEffect::SaveAndReload
        },
        MenuAction::SetWatchModePollingHarder => {
            config.watch_mode = WatchMode::PollingHarder;
            MenuEffect::SaveAndReload
        },
        MenuAction::ToggleAutoCleanup => {
            config.auto_cleanup = !config.auto_cleanup;
            MenuEffect::SaveAndReload
        },
        MenuAction::ToggleAutoStart => MenuEffect::ToggleAutoStart,
        MenuAction::SetSyncCommand => MenuEffect::PickSyncCommand,
        MenuAction::ChangeFolder => MenuEffect::PickFolder,
        MenuAction::OpenFolder => MenuEffect::OpenFolder,
        MenuAction::RestartOneDrive => MenuEffect::RestartOneDrive,
        MenuAction::CheckForUpdates => MenuEffect::CheckForUpdates,
        MenuAction::OpenGitHub => MenuEffect::OpenGitHub,
        MenuAction::Quit => MenuEffect::Quit,
    }
}

} // verus!
