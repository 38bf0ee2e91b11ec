use vstd::prelude::*;

verus! {

/// A menu event, decoded once from its identifier.
#[derive(Clone, Copy, Debug, PartialEq, Eq, Structural)]
pub enum Command {
    About,
    OpenGithub,
    LaunchGame,
    Unrecognized,
}

/// The command that a menu identifier stands for.
pub open spec fn command_of(id: Seq<char>) -> Command {
    if id == "about"@ {
        Command::About
    } else if id == "github"@ {
        Command::OpenGithub
    } else if id == "launch_sc"@ {
        Command::LaunchGame
    } else {
        Command::Unrecognized
    }
}

impl Command {
    /// Decodes a menu identifier; any identifier outside the known three is
    /// `Unrecognized`.
    pub fn from_id(id: &str) -> (r: Command)
        ensures
            r == command_of(id@),
    {
        let id = String::from_str(id);
        if id == String::from_str("about") {
            Command::About
        } else if id == String::from_str("github") {
            Command::OpenGithub
        } else if id == String::from_str("launch_sc") {
            Command::LaunchGame
        } else {
            Command::Unrecognized
        }
    }
}

} // verus!
