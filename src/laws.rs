use vstd::prelude::*;
use crate::command::Command;
use crate::config::{ConfigError, config_error_message, installation_directory_in};
use crate::dispatch::{ActionView, EventView, PhaseView, repository_url, transition};
use crate::launch::{not_found_message, not_found_prefix};
use crate::notify::{about_notice, error_notice};
use crate::paths::{launcher_path_of, settings_file_of};

verus! {

/// What the host's surroundings hold at the time of a dispatch.
pub struct Host {
    /// The application-data directory, where one can be located.
    pub data_dir: Option<Seq<char>>,
    /// The readable text files, by path.
    pub files: Map<Seq<char>, Seq<char>>,
    /// The paths at which a file exists.
    pub existing: Set<Seq<char>>,
    /// Whether a spawn would start the process.
    pub spawn_ok: bool,
}

/// The event the host answers an action with; `None` for an action that ends
/// the dispatch.
pub open spec fn reply(h: Host, a: ActionView) -> Option<EventView> {
    match a {
        ActionView::LocateDataDir => Some(EventView::DataDir(h.data_dir)),
        ActionView::ReadSettings(p) => Some(
            EventView::SettingsText(
                if h.files.contains_key(p) {
                    Some(h.files[p])
                } else {
                    None
                },
            ),
        ),
        ActionView::CheckExists(p) => Some(EventView::LauncherExists(h.existing.contains(p))),
        ActionView::Spawn(_) => Some(EventView::Spawned(h.spawn_ok)),
        _ => None,
    }
}

/// The actions taken from phase `p` on event `e`, with the host answering each
/// one, for at most `fuel` further round trips.
pub open spec fn run_from(h: Host, p: PhaseView, e: EventView, fuel: nat) -> Seq<ActionView>
    decreases fuel,
{
    let (next, a) = transition(p, e);
    if fuel == 0 {
        seq![a]
    } else {
        match reply(h, a) {
            Some(answer) => seq![a] + run_from(h, next, answer, (fuel - 1) as nat),
            None => seq![a],
        }
    }
}

/// The actions of a whole dispatch of command `c` against host `h`.
pub open spec fn dispatch_actions(h: Host, c: Command) -> Seq<ActionView> {
    run_from(h, PhaseView::Idle, EventView::Menu(c), 4)
}

/// Whatever the host holds, the about command shows the about notification and
/// does nothing else.
pub proof fn about_is_constant(h: Host)
    ensures
        dispatch_actions(h, Command::About) == seq![ActionView::Notify(about_notice())],
{
    reveal_with_fuel(run_from, 2);
}

/// Whatever the host holds, an unrecognized command does nothing.
pub proof fn unrecognized_is_noop(h: Host)
    ensures
        dispatch_actions(h, Command::Unrecognized) == seq![ActionView::Nothing],
{
    reveal_with_fuel(run_from, 2);
}

/// Whatever the host holds, the GitHub command asks to open the repository
/// page and nothing else; no failure of the open is reported.
pub proof fn github_opens_repository(h: Host)
    ensures
        dispatch_actions(h, Command::OpenGithub) == seq![ActionView::OpenUrl(repository_url())],
{
    reveal_with_fuel(run_from, 2);
}

/// The about command leaves the dispatcher idle, whatever phase it found it
/// in, so a second about command gives the same notification as the first.
pub proof fn about_repeats_identically(p: PhaseView)
    ensures
        transition(p, EventView::Menu(Command::About)) == (
            PhaseView::Idle,
            ActionView::Notify(about_notice()),
        ),
        transition(transition(p, EventView::Menu(Command::About)).0, EventView::Menu(Command::About))
            == transition(p, EventView::Menu(Command::About)),
{
}

/// With no settings file in a located data directory, launching reads for it,
/// shows exactly the configure-first message, and spawns nothing.
pub proof fn missing_settings_asks_for_configuration(h: Host, dir: Seq<char>)
    requires
        h.data_dir == Some(dir),
        !h.files.contains_key(settings_file_of(dir)),
    ensures
        dispatch_actions(h, Command::LaunchGame) == seq![
            ActionView::LocateDataDir,
            ActionView::ReadSettings(settings_file_of(dir)),
            ActionView::Notify(error_notice(config_error_message(ConfigError::NotFound))),
        ],
        config_error_message(ConfigError::NotFound)
            == "Please configure the installation directory in Settings first."@,
{
    reveal_with_fuel(run_from, 4);
}

/// Where the configured launcher does not exist, launching reports the
/// resolved path, whose text the message holds, and spawns nothing.
pub proof fn missing_launcher_names_the_path(h: Host, dir: Seq<char>, text: Seq<char>, install: Seq<char>)
    requires
        h.data_dir == Some(dir),
        h.files.contains_key(settings_file_of(dir)),
        h.files[settings_file_of(dir)] == text,
        installation_directory_in(text) == Some(install),
        !h.existing.contains(launcher_path_of(install)),
    ensures
        dispatch_actions(h, Command::LaunchGame) == seq![
            ActionView::LocateDataDir,
            ActionView::ReadSettings(settings_file_of(dir)),
            ActionView::CheckExists(launcher_path_of(install)),
            ActionView::Notify(error_notice(not_found_message(launcher_path_of(install)))),
        ],
        ({
            let m = not_found_message(launcher_path_of(install));
            let k = not_found_prefix().len() as int;
            m.subrange(k, k + launcher_path_of(install).len()) == launcher_path_of(install)
        }),
{
    reveal_with_fuel(run_from, 4);
    let path = launcher_path_of(install);
    let k = not_found_prefix().len() as int;
    assert(not_found_message(path).subrange(k, k + path.len()) =~= path);
}

/// Where the configured launcher exists, launching spawns it exactly once, at
/// the resolved path, and shows no notification, whether or not it started.
pub proof fn present_launcher_is_spawned(h: Host, dir: Seq<char>, text: Seq<char>, install: Seq<char>)
    requires
        h.data_dir == Some(dir),
        h.files.contains_key(settings_file_of(dir)),
        h.files[settings_file_of(dir)] == text,
        installation_directory_in(text) == Some(install),
        h.existing.contains(launcher_path_of(install)),
    ensures
        dispatch_actions(h, Command::LaunchGame) == seq![
            ActionView::LocateDataDir,
            ActionView::ReadSettings(settings_file_of(dir)),
            ActionView::CheckExists(launcher_path_of(install)),
            ActionView::Spawn(launcher_path_of(install)),
            ActionView::Nothing,
        ],
{
    reveal_with_fuel(run_from, 5);
}

} // verus!
