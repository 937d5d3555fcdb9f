//! Tests of the orchestrator state machine, the sync command planning, the
//! update check and the path helpers.

use clipboard_sync::command::parse_sync_command;
use clipboard_sync::config::{Config, WatchMode};
use clipboard_sync::orchestrator::{
    FolderTransition, IdleAction, InitOutcome, MenuEffect, Orchestrator, SuspendReason,
    apply_menu_action,
};
use clipboard_sync::types::{ClipboardText, MenuAction, TrayIconState};
use clipboard_sync::update::{UpdateInfo, check, get_download_url};
use clipboard_sync::utils::{
    get_config_file_path, get_executable_directory, get_hostname,
};

const T: u64 = 1_700_000_000_000;

fn config_with_folder() -> Config {
    let mut c = Config::default();
    c.folder = Some("/sync".to_string());
    c
}

#[test]
fn initialize_without_folder_stays_suspended() {
    let mut o = Orchestrator::new();
    let config = Config::default();
    o.adopt_folder(&config);
    assert_eq!(o.sync_folder, None);
    let outcome = o.complete_initialize(&config, true, T);
    assert_eq!(outcome, InitOutcome::NoFolder);
    assert!(!o.initialized);
    assert_eq!(o.suspend_reason, Some(SuspendReason::NoFolderConfigured));
}

#[test]
fn initialize_with_inaccessible_folder_waits() {
    let mut o = Orchestrator::new();
    let config = config_with_folder();
    o.adopt_folder(&config);
    assert_eq!(o.sync_folder.as_deref(), Some("/sync"));
    let outcome = o.complete_initialize(&config, false, T);
    assert_eq!(outcome, InitOutcome::FolderNotAccessible);
    assert!(!o.initialized);
    assert_eq!(o.suspend_reason, Some(SuspendReason::FolderUnavailable));
}

#[test]
fn initialize_starts_everything() {
    let mut o = Orchestrator::new();
    let config = config_with_folder();
    o.adopt_folder(&config);
    let outcome = o.complete_initialize(&config, true, T);
    match outcome {
        InitOutcome::Started(a) => {
            assert!(a.start_clipboard_watcher);
            assert_eq!(a.start_fs_watcher, Some(WatchMode::Native));
            assert!(a.run_cleanup);
        }
        _ => panic!("expected a start"),
    }
    assert!(o.initialized);
    assert_eq!(o.current_icon, TrayIconState::Working);
    assert_eq!(o.last_keep_alive, Some(T));
    assert_eq!(o.last_clean, Some(T));
}

#[test]
fn initialize_respects_capabilities() {
    let mut o = Orchestrator::new();
    let mut config = config_with_folder();
    config.receive_texts = false;
    config.receive_images = false;
    config.receive_files = false;
    config.auto_cleanup = false;
    o.adopt_folder(&config);
    match o.complete_initialize(&config, true, T) {
        InitOutcome::Started(a) => {
            assert!(a.start_clipboard_watcher);
            assert_eq!(a.start_fs_watcher, None);
            assert!(!a.run_cleanup);
        }
        _ => panic!("expected a start"),
    }
    assert_eq!(o.last_keep_alive, None);
    assert_eq!(o.last_clean, None);
}

#[test]
fn uninitialize_tears_down() {
    let mut o = Orchestrator::new();
    let config = config_with_folder();
    o.adopt_folder(&config);
    o.complete_initialize(&config, true, T);
    let actions = o.uninitialize(SuspendReason::Exiting);
    assert!(actions.stop_watchers);
    assert!(actions.remove_marker);
    assert!(actions.stop_sync_command);
    assert!(!o.initialized);
    assert_eq!(o.suspend_reason, Some(SuspendReason::Exiting));
    assert_eq!(o.current_icon, TrayIconState::Suspended);
}

#[test]
fn folder_check_cadence_is_adaptive() {
    let mut o = Orchestrator::new();
    // Ordinary cadence: first check due at once, then every thirty seconds.
    assert!(o.folder_check_due(T));
    assert!(!o.folder_check_due(T + 29_999));
    assert!(o.folder_check_due(T + 30_000));
    // Right after the sync command starts: every second.
    o.note_sync_command_started(T + 31_000);
    assert!(o.folder_check_due(T + 31_001));
    assert!(!o.folder_check_due(T + 31_500));
    assert!(o.folder_check_due(T + 32_001));
    // The grace period ends after fifteen seconds.
    assert!(!o.folder_check_due(T + 47_000));
    assert_eq!(o.sync_command_started_at, None);
}

#[test]
fn folder_transitions() {
    let mut o = Orchestrator::new();
    assert_eq!(o.on_folder_status(true), Some(FolderTransition::DoInitialize));
    assert_eq!(o.on_folder_status(false), None);
    let config = config_with_folder();
    o.adopt_folder(&config);
    o.complete_initialize(&config, true, T);
    assert_eq!(o.on_folder_status(false), Some(FolderTransition::DoUninitialize));
    assert_eq!(o.on_folder_status(true), None);
}

#[test]
fn idle_suspends_and_resumes() {
    let mut o = Orchestrator::new();
    let config = config_with_folder();
    o.adopt_folder(&config);
    o.complete_initialize(&config, true, T);
    // Below the threshold nothing happens.
    assert_eq!(o.on_idle_report(29), IdleAction::Nothing);
    // Crossing it suspends.
    assert_eq!(o.on_idle_report(30), IdleAction::Suspend);
    assert!(o.suspended_by_idle);
    o.uninitialize(SuspendReason::Idle);
    // While idle, repeated reports do nothing.
    assert_eq!(o.on_idle_report(31), IdleAction::Nothing);
    // Becoming active resumes only an idle-caused suspension.
    assert_eq!(o.on_idle_report(1), IdleAction::Resume);
    assert!(!o.suspended_by_idle);
    assert_eq!(o.on_idle_report(1), IdleAction::Nothing);
}

#[test]
fn keep_alive_and_clean_cadence() {
    let mut o = Orchestrator::new();
    let config = config_with_folder();
    o.adopt_folder(&config);
    o.complete_initialize(&config, true, T);
    // Both ran at initialization time T.
    assert!(!o.keep_alive_due(&config, T + 239_999));
    assert!(o.keep_alive_due(&config, T + 240_000));
    assert!(!o.clean_due(&config, T + 59_999));
    assert!(o.clean_due(&config, T + 60_000));
    // The sweep timestamp advanced; the next sweep waits a full minute.
    assert!(!o.clean_due(&config, T + 119_999));
    assert!(o.clean_due(&config, T + 120_000));
    // Not while suspended.
    o.uninitialize(SuspendReason::Idle);
    assert!(!o.keep_alive_due(&config, T + 900_000));
    assert!(!o.clean_due(&config, T + 900_000));
}

#[test]
fn clipboard_debounce() {
    let mut o = Orchestrator::new();
    let config = config_with_folder();
    o.adopt_folder(&config);
    // Not initialized: nothing accepted.
    assert!(!o.accept_clipboard_event(T));
    o.complete_initialize(&config, true, T);
    assert!(o.accept_clipboard_event(T + 1));
    assert!(!o.accept_clipboard_event(T + 400));
    assert!(o.accept_clipboard_event(T + 501));
}

#[test]
fn icon_flash_reverts() {
    let mut o = Orchestrator::new();
    let config = config_with_folder();
    o.adopt_folder(&config);
    o.complete_initialize(&config, true, T);
    o.set_icon_flash(TrayIconState::Sent, T);
    assert_eq!(o.current_icon, TrayIconState::Sent);
    assert!(!o.tick_icon_revert(T + 4_999));
    assert_eq!(o.current_icon, TrayIconState::Sent);
    assert!(o.tick_icon_revert(T + 5_000));
    assert_eq!(o.current_icon, TrayIconState::Working);
    assert_eq!(o.icon_revert_at, None);
}

#[test]
fn menu_actions_toggle_config() {
    let mut config = Config::default();
    assert_eq!(apply_menu_action(&mut config, MenuAction::ToggleSendTexts), MenuEffect::SaveAndReload);
    assert!(!config.send_texts);
    assert_eq!(apply_menu_action(&mut config, MenuAction::ToggleReceiveFiles), MenuEffect::SaveAndReload);
    assert!(!config.receive_files);
    assert_eq!(apply_menu_action(&mut config, MenuAction::SetWatchModePolling), MenuEffect::SaveAndReload);
    assert_eq!(config.watch_mode, WatchMode::Polling);
    assert_eq!(apply_menu_action(&mut config, MenuAction::SetWatchModePollingHarder), MenuEffect::SaveAndReload);
    assert_eq!(config.watch_mode, WatchMode::PollingHarder);
    assert_eq!(apply_menu_action(&mut config, MenuAction::ToggleAutoCleanup), MenuEffect::SaveAndReload);
    assert!(!config.auto_cleanup);
    // Non-config actions leave the configuration alone.
    assert_eq!(apply_menu_action(&mut config, MenuAction::OpenFolder), MenuEffect::OpenFolder);
    assert_eq!(apply_menu_action(&mut config, MenuAction::Quit), MenuEffect::Quit);
    assert_eq!(apply_menu_action(&mut config, MenuAction::CheckForUpdates), MenuEffect::CheckForUpdates);
    assert!(!config.send_texts && !config.receive_files && !config.auto_cleanup);
}

#[test]
fn sync_command_parsing() {
    assert_eq!(parse_sync_command(""), None);
    let (prog, args) = parse_sync_command("rclone sync a b").unwrap();
    assert_eq!(prog, "rclone");
    assert_eq!(args, vec!["sync", "a", "b"]);
    // Shell quoting is honored.
    let (prog, args) = parse_sync_command("sh -c 'echo \"one two\"'").unwrap();
    assert_eq!(prog, "sh");
    assert_eq!(args, vec!["-c", "echo \"one two\""]);
    // Malformed quoting yields nothing to run.
    assert_eq!(parse_sync_command("sh -c 'unterminated"), None);
    // A blank command line yields nothing to run.
    assert_eq!(parse_sync_command("   "), None);
}

#[test]
fn update_check_decides_by_version() {
    let url = "https://github.com/felipecrs/clipboard-sync/releases/tag/v1.2.0";
    let info = check("1.0.0", url).expect("newer version");
    assert_eq!(info.latest_version, "1.2.0");
    assert_eq!(info.release_url, url);
    assert!(check("1.2.0", url).is_none());
    assert!(check("2.0.0", url).is_none());
    assert!(check("0.0.0-development", url).is_none());
    // A redirect that carries no parsable tag means no update.
    assert!(check("1.0.0", "https://github.com/felipecrs/clipboard-sync/releases").is_none());
}

#[test]
fn download_url_shape() {
    let info = UpdateInfo {
        latest_version: "1.2.0".to_string(),
        release_url: "u".to_string(),
    };
    assert_eq!(
        get_download_url(&info),
        "https://github.com/felipecrs/clipboard-sync/releases/download/v1.2.0/Clipboard.Sync-1.2.0.Setup.exe"
    );
}

#[test]
fn hostname_prefix() {
    assert_eq!(get_hostname("alice.local"), "alice");
    assert_eq!(get_hostname("alice"), "alice");
    assert_eq!(get_hostname("a.b.c"), "a");
    assert_eq!(get_hostname(""), "");
}

#[test]
fn executable_directory() {
    assert_eq!(get_executable_directory("/opt/app/bin"), "/opt/app");
    assert_eq!(get_executable_directory("bin"), "");
    assert_eq!(get_executable_directory("/bin"), "/");
    assert_eq!(get_executable_directory("C:\\apps\\sync.exe"), "C:\\apps");
}

#[test]
fn config_file_path() {
    assert_eq!(get_config_file_path("/opt/app"), "/opt/app/ClipboardSyncConfig.json");
    assert_eq!(get_config_file_path("/opt/app/"), "/opt/app/ClipboardSyncConfig.json");
    assert_eq!(get_config_file_path(""), "ClipboardSyncConfig.json");
}

#[test]
fn text_snapshot_equality_and_emptiness() {
    let a = ClipboardText { text: Some("x".to_string()), html: None, rtf: None };
    let b = ClipboardText { text: Some("x".to_string()), html: None, rtf: None };
    let c = ClipboardText { text: Some("x".to_string()), html: Some("<p>x</p>".to_string()), rtf: None };
    assert!(a.equals(&b));
    assert!(!a.equals(&c));
    assert!(!a.is_empty());
    let blank = ClipboardText { text: Some(String::new()), html: None, rtf: Some(String::new()) };
    assert!(blank.is_empty());
    let config = Config::default();
    assert!(config.is_sending_anything() && config.is_receiving_anything());
}
