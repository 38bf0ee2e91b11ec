use vstd::prelude::*;
use crate::command::Command;
use crate::config::{
    ConfigError,
    config_error_message,
    installation_directory_in,
    parse_settings,
    text_of,
};
use crate::launch::{check_launcher, not_found_message, spawn_outcome};
use crate::notify::{
    Notification,
    NotificationView,
    about_notice,
    about_notification,
    error_notice,
    error_notification,
};
use crate::paths::{launcher_path_of, resolve_launcher_path, settings_file_of, settings_path};

verus! {

/// What the host is asked to do next.
#[derive(Debug)]
pub enum Action {
    /// Nothing; the dispatch is over.
    Nothing,
    /// Show a dialog; the dispatch is over.
    Notify(Notification),
    /// Open a link in the default browser and drop any failure; the dispatch is over.
    OpenUrl(String),
    /// Locate the application-data directory; answer with `Event::DataDir`.
    LocateDataDir,
    /// Read the file at this path as text; answer with `Event::SettingsText`.
    ReadSettings(String),
    /// Tell whether a file exists at this path; answer with `Event::LauncherExists`.
    CheckExists(String),
    /// Start the executable at this path; answer with `Event::Spawned`.
    Spawn(String),
}

/// What the host reports back.
#[derive(Debug)]
pub enum Event {
    /// A menu item was chosen.
    Menu(Command),
    /// The application-data directory, or `None` where it could not be located.
    DataDir(Option<String>),
    /// The settings text, or `None` where the file is missing or unreadable.
    SettingsText(Option<String>),
    /// Whether a file exists at the path asked about.
    LauncherExists(bool),
    /// Whether the process started.
    Spawned(bool),
}

/// Where a dispatch stands between two host round trips.
#[derive(Debug)]
pub enum Phase {
    Idle,
    AwaitingDataDir,
    AwaitingSettings,
    AwaitingLauncher(String),
    AwaitingSpawn,
}

/// The mathematical content of an action.
pub enum ActionView {
    Nothing,
    Notify(NotificationView),
    OpenUrl(Seq<char>),
    LocateDataDir,
    ReadSettings(Seq<char>),
    CheckExists(Seq<char>),
    Spawn(Seq<char>),
}

/// The mathematical content of an event.
pub enum EventView {
    Menu(Command),
    DataDir(Option<Seq<char>>),
    SettingsText(Option<Seq<char>>),
    LauncherExists(bool),
    Spawned(bool),
}

/// The mathematical content of a phase.
pub enum PhaseView {
    Idle,
    AwaitingDataDir,
    AwaitingSettings,
    AwaitingLauncher(Seq<char>),
    AwaitingSpawn,
}

impl View for Action {
    type V = ActionView;

    open spec fn view(&self) -> ActionView {
        match self {
            Action::Nothing => ActionView::Nothing,
            Action::Notify(n) => ActionView::Notify(n@),
            Action::OpenUrl(u) => ActionView::OpenUrl(u@),
            Action::LocateDataDir => ActionView::LocateDataDir,
            Action::ReadSettings(p) => ActionView::ReadSettings(p@),
            Action::CheckExists(p) => ActionView::CheckExists(p@),
            Action::Spawn(p) => ActionView::Spawn(p@),
        }
    }
}

impl View for Event {
    type V = EventView;

    open spec fn view(&self) -> EventView {
        match self {
            Event::Menu(c) => EventView::Menu(*c),
            Event::DataDir(d) => EventView::DataDir(text_of(*d)),
            Event::SettingsText(t) => EventView::SettingsText(text_of(*t)),
            Event::LauncherExists(b) => EventView::LauncherExists(*b),
            Event::Spawned(b) => EventView::Spawned(*b),
        }
    }
}

impl View for Phase {
    type V = PhaseView;

    open spec fn view(&self) -> PhaseView {
        match self {
            Phase::Idle => PhaseView::Idle,
            Phase::AwaitingDataDir => PhaseView::AwaitingDataDir,
            Phase::AwaitingSettings => PhaseView::AwaitingSettings,
            Phase::AwaitingLauncher(p) => PhaseView::AwaitingLauncher(p@),
            Phase::AwaitingSpawn => PhaseView::AwaitingSpawn,
        }
    }
}

/// The repository page opened by the GitHub menu item.
pub open spec fn repository_url() -> Seq<char> {
    "https://github.com/pfitzer/BackersLittlleHelper"@
}

/// A configuration failure ends the dispatch with its message.
pub open spec fn config_failure(e: ConfigError) -> (PhaseView, ActionView) {
    (PhaseView::Idle, ActionView::Notify(error_notice(config_error_message(e))))
}

/// One step of the dispatcher. A menu event starts a dispatch in any phase;
/// any other event that the phase does not wait for ends it without action.
pub open spec fn transition(p: PhaseView, e: EventView) -> (PhaseView, ActionView) {
    match e {
        EventView::Menu(c) => match c {
            Command::About => (PhaseView::Idle, ActionView::Notify(about_notice())),
            Command::OpenGithub => (PhaseView::Idle, ActionView::OpenUrl(repository_url())),
            Command::LaunchGame => (PhaseView::AwaitingDataDir, ActionView::LocateDataDir),
            Command::Unrecognized => (PhaseView::Idle, ActionView::Nothing),
        },
        EventView::DataDir(d) => match p {
            PhaseView::AwaitingDataDir => match d {
                Some(dir) => (
                    PhaseView::AwaitingSettings,
                    ActionView::ReadSettings(settings_file_of(dir)),
                ),
                None => config_failure(ConfigError::DirectoryUnavailable),
            },
            _ => (PhaseView::Idle, ActionView::Nothing),
        },
        EventView::SettingsText(t) => match p {
            PhaseView::AwaitingSettings => match t {
                Some(text) => match installation_directory_in(text) {
                    Some(dir) => (
                        PhaseView::AwaitingLauncher(launcher_path_of(dir)),
                        ActionView::CheckExists(launcher_path_of(dir)),
                    ),
                    None => config_failure(ConfigError::Invalid),
                },
                None => config_failure(ConfigError::NotFound),
            },
            _ => (PhaseView::Idle, ActionView::Nothing),
        },
        EventView::LauncherExists(b) => match p {
            PhaseView::AwaitingLauncher(path) => if b {
                (PhaseView::AwaitingSpawn, ActionView::Spawn(path))
            } else {
                (PhaseView::Idle, ActionView::Notify(error_notice(not_found_message(path))))
            },
            _ => (PhaseView::Idle, ActionView::Nothing),
        },
        EventView::Spawned(_) => (PhaseView::Idle, ActionView::Nothing),
    }
}

/// Drives dispatches one host round trip at a time. Holds no state across
/// dispatches: between them it is idle.
pub struct Dispatcher {
    phase: Phase,
}

impl View for Dispatcher {
    type V = PhaseView;

    closed spec fn view(&self) -> PhaseView {
        self.phase@
    }
}

/// Ends the dispatch with the message for a configuration failure.
fn notify_config_failure(e: ConfigError) -> (r: (Phase, Action))
    ensures
        (r.0@, r.1@) == config_failure(e),
{
    (Phase::Idle, Action::Notify(error_notification(e.message())))
}

impl Dispatcher {
    /// An idle dispatcher.
    pub fn new() -> (r: Dispatcher)
        ensures
            r@ == PhaseView::Idle,
    {
        Dispatcher { phase: Phase::Idle }
    }

    /// Whether no dispatch is under way.
    pub fn is_idle(&self) -> (r: bool)
        ensures
            r == (self@ == PhaseView::Idle),
    {
        match self.phase {
            Phase::Idle => true,
            _ => false,
        }
    }

    /// Takes one event and returns the action the host is to perform.
    pub fn handle(&mut self, event: Event) -> (r: Action)
        ensures
            (final(self)@, r@) == transition(old(self)@, event@),
    {
        let mut phase = Phase::Idle;
        std::mem::swap(&mut phase, &mut self.phase);
        let (next, action) = step(phase, event);
        self.phase = next;
        action
    }
}

/// The dispatcher's step on plain values.
pub fn step(phase: Phase, event: Event) -> (r: (Phase, Action))
    ensures
        (r.0@, r.1@) == transition(phase@, event@),
{
    match event {
        Event::Menu(c) => match c {
            Command::About => (Phase::Idle, Action::Notify(about_notification())),
            Command::OpenGithub => (
                Phase::Idle,
                Action::OpenUrl(String::from_str("https://github.com/pfitzer/BackersLittlleHelper")),
            ),
            Command::LaunchGame => (Phase::AwaitingDataDir, Action::LocateDataDir),
            Command::Unrecognized => (Phase::Idle, Action::Nothing),
        },
        Event::DataDir(d) => match phase {
            Phase::AwaitingDataDir => match d {
                Some(dir) => {
                    let path = settings_path(dir.as_str());
                    (Phase::AwaitingSettings, Action::ReadSettings(path))
                },
                None => notify_config_failure(ConfigError::DirectoryUnavailable),
            },
            _ => (Phase::Idle, Action::Nothing),
        },
        Event::SettingsText(t) => match phase {
            Phase::AwaitingSettings => match t {
                Some(text) => match parse_settings(text.as_str()) {
                    Ok(config) => {
                        let path = resolve_launcher_path(config.installation_directory.as_str());
                        let probe = path.clone();
                        (Phase::AwaitingLauncher(path), Action::CheckExists(probe))
                    },
                    Err(e) => notify_config_failure(e),
                },
                None => notify_config_failure(ConfigError::NotFound),
            },
            _ => (Phase::Idle, Action::Nothing),
        },
        Event::LauncherExists(b) => match phase {
            Phase::AwaitingLauncher(path) => match check_launcher(path, b) {
                Ok(path) => (Phase::AwaitingSpawn, Action::Spawn(path)),
                Err(e) => match e.notification() {
                    Some(n) => (Phase::Idle, Action::Notify(n)),
                    None => (Phase::Idle, Action::Nothing),
                },
            },
            _ => (Phase::Idle, Action::Nothing),
        },
        Event::Spawned(started) => match spawn_outcome(started) {
            Ok(()) => (Phase::Idle, Action::Nothing),
            Err(e) => match e.notification() {
                Some(n) => (Phase::Idle, Action::Notify(n)),
                None => (Phase::Idle, Action::Nothing),
            },
        },
    }
}

} // verus!
