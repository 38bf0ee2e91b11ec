use sc_launcher::command::Command;
use sc_launcher::config::{parse_settings, ConfigError};
use sc_launcher::dispatch::{step, Action, Dispatcher, Event, Phase};
use sc_launcher::launch::{check_launcher, spawn_outcome, LaunchError};
use sc_launcher::notify::{about_notification, NoticeKind};
use sc_launcher::paths::{resolve_launcher_path, settings_path};

const ABOUT_TEXT: &str = "Author: Michael Pfister\n\nCopyright\nAll game content and materials are copyright of Cloud Imperium Rights LLC and Cloud Imperium Rights Ltd.. Star Citizen®, Squadron 42®, Roberts Space Industries®, and Cloud Imperium® are registered trademarks of Cloud Imperium Rights LLC. All rights reserved. Other content is available under Creative Commons Attribution-ShareAlike unless otherwise noted.";

const CONFIGURE_FIRST: &str = "Please configure the installation directory in Settings first.";

fn expect_notify(action: Action) -> (NoticeKind, String, String) {
    match action {
        Action::Notify(n) => (n.kind, n.title, n.message),
        other => panic!("expected a notification, got {:?}", other),
    }
}

fn expect_nothing(action: Action) {
    assert!(matches!(action, Action::Nothing), "expected no action, got {:?}", action);
}

/// Runs a launch up to the settings text, answering with the given data directory.
fn launch_until_settings(d: &mut Dispatcher, data_dir: &str) {
    assert!(matches!(d.handle(Event::Menu(Command::LaunchGame)), Action::LocateDataDir));
    match d.handle(Event::DataDir(Some(data_dir.to_string()))) {
        Action::ReadSettings(p) => assert_eq!(p, format!("{}/settings.json", data_dir)),
        other => panic!("expected a settings read, got {:?}", other),
    }
}

#[test]
fn resolve_appends_fixed_subpath() {
    assert_eq!(
        resolve_launcher_path("/opt/games"),
        "/opt/games/StarCitizen/LIVE/StarCitizen_Launcher.exe"
    );
    assert_eq!(
        resolve_launcher_path("C:/Games/RSI"),
        "C:/Games/RSI/StarCitizen/LIVE/StarCitizen_Launcher.exe"
    );
    assert_eq!(resolve_launcher_path(""), "StarCitizen/LIVE/StarCitizen_Launcher.exe");
}

#[test]
fn resolve_adds_no_second_separator() {
    assert_eq!(
        resolve_launcher_path("/opt/games/"),
        "/opt/games/StarCitizen/LIVE/StarCitizen_Launcher.exe"
    );
    assert_eq!(resolve_launcher_path("/"), "/StarCitizen/LIVE/StarCitizen_Launcher.exe");
}

#[test]
fn settings_file_is_in_data_dir() {
    assert_eq!(settings_path("/home/u/.local/share/app"), "/home/u/.local/share/app/settings.json");
    assert_eq!(settings_path("/home/u/.local/share/app/"), "/home/u/.local/share/app/settings.json");
    assert_eq!(settings_path(""), "settings.json");
}

#[test]
fn menu_ids_decode() {
    assert_eq!(Command::from_id("about"), Command::About);
    assert_eq!(Command::from_id("github"), Command::OpenGithub);
    assert_eq!(Command::from_id("launch_sc"), Command::LaunchGame);
    assert_eq!(Command::from_id("unknown_id"), Command::Unrecognized);
    assert_eq!(Command::from_id("About"), Command::Unrecognized);
    assert_eq!(Command::from_id(""), Command::Unrecognized);
}

#[test]
fn settings_parse_reads_directory() {
    let c = parse_settings("{\"installationDirectory\": \"/opt/games\"}").unwrap();
    assert_eq!(c.installation_directory, "/opt/games");
    let c = parse_settings("{\"theme\": 3, \"installationDirectory\": \"D:\\\\SC\"}").unwrap();
    assert_eq!(c.installation_directory, "D:\\SC");
}

#[test]
fn settings_parse_rejects_bad_documents() {
    assert!(matches!(parse_settings("not json"), Err(ConfigError::Invalid)));
    assert!(matches!(parse_settings("{}"), Err(ConfigError::Invalid)));
    assert!(matches!(parse_settings("{\"installationDirectory\": 5}"), Err(ConfigError::Invalid)));
    assert!(matches!(parse_settings(""), Err(ConfigError::Invalid)));
}

#[test]
fn config_error_messages() {
    assert_eq!(ConfigError::DirectoryUnavailable.message(), "Failed to access application data directory.");
    assert_eq!(ConfigError::NotFound.message(), CONFIGURE_FIRST);
    assert_eq!(ConfigError::Invalid.message(), CONFIGURE_FIRST);
}

#[test]
fn launch_errors_reported_or_dropped() {
    let n = LaunchError::ExecutableNotFound("/x/y.exe".to_string()).notification().unwrap();
    assert_eq!(n.kind, NoticeKind::Error);
    assert_eq!(n.title, "Error");
    assert_eq!(n.message, "Star Citizen launcher not found at:\n/x/y.exe");
    assert!(LaunchError::SpawnFailed.notification().is_none());
    assert!(matches!(check_launcher("/a".to_string(), true), Ok(p) if p == "/a"));
    assert!(matches!(check_launcher("/a".to_string(), false), Err(LaunchError::ExecutableNotFound(p)) if p == "/a"));
    assert!(spawn_outcome(true).is_ok());
    assert!(matches!(spawn_outcome(false), Err(LaunchError::SpawnFailed)));
}

#[test]
fn missing_settings_asks_for_configuration() {
    let mut d = Dispatcher::new();
    launch_until_settings(&mut d, "/data");
    let (kind, title, message) = expect_notify(d.handle(Event::SettingsText(None)));
    assert_eq!(kind, NoticeKind::Error);
    assert_eq!(title, "Error");
    assert_eq!(message, CONFIGURE_FIRST);
    assert!(d.is_idle());
}

#[test]
fn invalid_settings_asks_for_configuration() {
    let mut d = Dispatcher::new();
    launch_until_settings(&mut d, "/data");
    let (_, _, message) = expect_notify(d.handle(Event::SettingsText(Some("{\"other\": 1}".to_string()))));
    assert_eq!(message, CONFIGURE_FIRST);
    assert!(d.is_idle());
}

#[test]
fn unavailable_data_dir_is_reported() {
    let mut d = Dispatcher::new();
    assert!(matches!(d.handle(Event::Menu(Command::LaunchGame)), Action::LocateDataDir));
    let (_, _, message) = expect_notify(d.handle(Event::DataDir(None)));
    assert_eq!(message, "Failed to access application data directory.");
    assert!(d.is_idle());
}

#[test]
fn missing_launcher_names_the_path() {
    let mut d = Dispatcher::new();
    launch_until_settings(&mut d, "/data");
    let path = "/opt/games/StarCitizen/LIVE/StarCitizen_Launcher.exe";
    match d.handle(Event::SettingsText(Some("{\"installationDirectory\": \"/opt/games\"}".to_string()))) {
        Action::CheckExists(p) => assert_eq!(p, path),
        other => panic!("expected an existence check, got {:?}", other),
    }
    let (kind, _, message) = expect_notify(d.handle(Event::LauncherExists(false)));
    assert_eq!(kind, NoticeKind::Error);
    assert!(message.contains(path));
    assert_eq!(message, format!("Star Citizen launcher not found at:\n{}", path));
    assert!(d.is_idle());
}

#[test]
fn present_launcher_is_spawned_once() {
    for started in [true, false] {
        let mut d = Dispatcher::new();
        launch_until_settings(&mut d, "/data");
        let path = "/opt/games/StarCitizen/LIVE/StarCitizen_Launcher.exe";
        d.handle(Event::SettingsText(Some("{\"installationDirectory\": \"/opt/games\"}".to_string())));
        match d.handle(Event::LauncherExists(true)) {
            Action::Spawn(p) => assert_eq!(p, path),
            other => panic!("expected a spawn, got {:?}", other),
        }
        expect_nothing(d.handle(Event::Spawned(started)));
        assert!(d.is_idle());
    }
}

#[test]
fn about_shows_fixed_text() {
    let mut d = Dispatcher::new();
    let (kind, title, message) = expect_notify(d.handle(Event::Menu(Command::About)));
    assert_eq!(kind, NoticeKind::About);
    assert_eq!(title, "About");
    assert_eq!(message, ABOUT_TEXT);
    assert!(d.is_idle());
}

#[test]
fn about_ignores_launch_in_progress() {
    let mut d = Dispatcher::new();
    launch_until_settings(&mut d, "/data");
    let (kind, title, _) = expect_notify(d.handle(Event::Menu(Command::About)));
    assert_eq!(kind, NoticeKind::About);
    assert_eq!(title, "About");
    assert!(d.is_idle());
}

#[test]
fn about_repeats_identically() {
    let mut d = Dispatcher::new();
    let first = expect_notify(d.handle(Event::Menu(Command::About)));
    let second = expect_notify(d.handle(Event::Menu(Command::About)));
    assert_eq!(first, second);
    let fresh = about_notification();
    assert_eq!(first, (fresh.kind, fresh.title, fresh.message));
}

#[test]
fn unknown_id_is_noop() {
    let mut d = Dispatcher::new();
    expect_nothing(d.handle(Event::Menu(Command::from_id("unknown_id"))));
    assert!(d.is_idle());
}

#[test]
fn github_opens_repository() {
    let mut d = Dispatcher::new();
    match d.handle(Event::Menu(Command::OpenGithub)) {
        Action::OpenUrl(u) => assert_eq!(u, "https://github.com/pfitzer/BackersLittlleHelper"),
        other => panic!("expected a link, got {:?}", other),
    }
    assert!(d.is_idle());
}

#[test]
fn unexpected_event_ends_dispatch() {
    let mut d = Dispatcher::new();
    expect_nothing(d.handle(Event::LauncherExists(true)));
    assert!(d.is_idle());
    let (phase, action) = step(Phase::AwaitingSettings, Event::DataDir(Some("/d".to_string())));
    assert!(matches!(phase, Phase::Idle));
    expect_nothing(action);
}

#[test]
fn trailing_separator_directory_spawns_single_separator_path() {
    let mut d = Dispatcher::new();
    launch_until_settings(&mut d, "/data");
    let path = "/opt/games/StarCitizen/LIVE/StarCitizen_Launcher.exe";
    match d.handle(Event::SettingsText(Some("{\"installationDirectory\": \"/opt/games/\"}".to_string()))) {
        Action::CheckExists(p) => assert_eq!(p, path),
        other => panic!("expected an existence check, got {:?}", other),
    }
    match d.handle(Event::LauncherExists(true)) {
        Action::Spawn(p) => assert_eq!(p, path),
        other => panic!("expected a spawn, got {:?}", other),
    }
    expect_nothing(d.handle(Event::Spawned(true)));
}

#[test]
fn data_dir_with_trailing_separator_reads_settings_once_joined() {
    let mut d = Dispatcher::new();
    assert!(matches!(d.handle(Event::Menu(Command::LaunchGame)), Action::LocateDataDir));
    match d.handle(Event::DataDir(Some("/data/".to_string()))) {
        Action::ReadSettings(p) => assert_eq!(p, "/data/settings.json"),
        other => panic!("expected a settings read, got {:?}", other),
    }
}
