use vstd::prelude::*;

verus! {

/// The fixed subpath, below the installation directory, of the game launcher.
pub open spec fn launcher_subpath() -> Seq<char> {
    "StarCitizen/LIVE/StarCitizen_Launcher.exe"@
}

/// The name of the settings file inside the application-data directory.
pub open spec fn settings_file_name() -> Seq<char> {
    "settings.json"@
}

/// Joins a relative path onto a directory: the relative path alone when the
/// directory is empty, with no separator added when the directory already ends
/// in `/`, and with one `/` between them otherwise.
pub open spec fn join_path(dir: Seq<char>, rel: Seq<char>) -> Seq<char> {
    if dir.len() == 0 {
        rel
    } else if dir.last() == '/' {
        dir + rel
    } else {
        dir + seq!['/'] + rel
    }
}

/// Where the launcher is expected inside an installation directory.
pub open spec fn launcher_path_of(dir: Seq<char>) -> Seq<char> {
    join_path(dir, launcher_subpath())
}

/// The path of the settings file inside the application-data directory.
pub open spec fn settings_file_of(data_dir: Seq<char>) -> Seq<char> {
    join_path(data_dir, settings_file_name())
}

/// Joins `rel` onto `dir` by the rule of `join_path`.
fn join(dir: &str, rel: &str) -> (r: String)
    ensures
        r@ == join_path(dir@, rel@),
{
    let n = dir.unicode_len();
    let mut path = String::from_str(dir);
    if n > 0 && dir.get_char(n - 1) != '/' {
        path.append("/");
        proof {
            reveal_strlit("/");
            assert("/"@ =~= seq!['/']);
        }
    }
    path.append(rel);
    path
}

/// Derives the launcher path from an installation directory.
/// Total and free of I/O: the directory is not required to exist.
pub fn resolve_launcher_path(installation_directory: &str) -> (r: String)
    ensures
        r@ == launcher_path_of(installation_directory@),
{
    join(installation_directory, "StarCitizen/LIVE/StarCitizen_Launcher.exe")
}

/// The path of the settings file inside the application-data directory.
pub fn settings_path(data_dir: &str) -> (r: String)
    ensures
        r@ == settings_file_of(data_dir@),
{
    join(data_dir, "settings.json")
}

} // verus!
