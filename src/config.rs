use vstd::prelude::*;

verus! {

/// The persisted configuration: the directory the game is installed in.
#[derive(Debug)]
pub struct Configuration {
    pub installation_directory: String,
}

/// Why the configuration could not be loaded.
#[derive(Clone, Copy, Debug, PartialEq, Eq, Structural)]
pub enum ConfigError {
    /// The application-data directory could not be located.
    DirectoryUnavailable,
    /// The settings file is missing or unreadable.
    NotFound,
    /// The settings text is not a JSON object with a string `installationDirectory`.
    Invalid,
}

/// The string under `installationDirectory` of the JSON object that the
/// settings text holds, or `None` where the text is no such object.
pub uninterp spec fn installation_directory_in(text: Seq<char>) -> Option<Seq<char>>;

/// The text held by an optional string.
pub open spec fn text_of(o: Option<String>) -> Option<Seq<char>> {
    match o {
        Some(s) => Some(s@),
        None => None,
    }
}

/// Relies on `serde_json::from_str` (into `serde_json::Value`) to parse the
/// settings text; the field is then read with `Value::get` and `Value::as_str`.
/// The result depends on the text alone.
#[verifier::external_body]
fn read_installation_directory(text: &str) -> (r: Option<String>)
    ensures
        text_of(r) == installation_directory_in(text@),
{
    match serde_json::from_str::<serde_json::Value>(text) {
        Ok(v) => v.get("installationDirectory").and_then(|d| d.as_str()).map(|d| d.to_string()),
        Err(_) => None,
    }
}

/// The message shown for a configuration failure. Both absence cases share one
/// message, so the user learns nothing of which step failed.
pub open spec fn config_error_message(e: ConfigError) -> Seq<char> {
    match e {
        ConfigError::DirectoryUnavailable => "Failed to access application data directory."@,
        _ => "Please configure the installation directory in Settings first."@,
    }
}

impl ConfigError {
    /// The user-visible message for this failure.
    pub fn message(&self) -> (r: String)
        ensures
            r@ == config_error_message(*self),
    {
        match self {
            ConfigError::DirectoryUnavailable => String::from_str(
                "Failed to access application data directory.",
            ),
            _ => String::from_str("Please configure the installation directory in Settings first."),
        }
    }
}

/// Parses the settings text into a configuration.
pub fn parse_settings(text: &str) -> (r: Result<Configuration, ConfigError>)
    ensures
        match installation_directory_in(text@) {
            Some(d) => r is Ok && r->Ok_0.installation_directory@ == d,
            None => r == Err::<Configuration, ConfigError>(ConfigError::Invalid),
        },
{
    match read_installation_directory(text) {
        Some(d) => Ok(Configuration { installation_directory: d }),
        None => Err(ConfigError::Invalid),
    }
}

} // verus!
