//! Where the tool keeps its files, relative to the user's home directory.
//! Paths are `/`-separated text.
use vstd::prelude::*;

verus! {

/// `dir` followed by a separator and `name`.
pub open spec fn joined(dir: Seq<char>, name: Seq<char>) -> Seq<char> {
    dir + "/"@ + name
}

/// Appends a separator and `name` to `dir`.
pub fn join(dir: &str, name: &str) -> (r: String)
    ensures
        r@ == joined(dir@, name@),
{
    let mut out = String::from_str(dir);
    out.append("/");
    out.append(name);
    out
}

pub open spec fn tool_home(home: Seq<char>) -> Seq<char> {
    joined(home, "Doubletime"@)
}

/// The tool's own directory: `<home>/Doubletime`.
pub fn get_doubletime_home_directory(home: &str) -> (r: String)
    ensures
        r@ == tool_home(home@),
{
    join(home, "Doubletime")
}

/// A directory of the tool: `<home>/Doubletime/<name>`.
pub fn get_doubletime_directory_path(home: &str, name: &str) -> (r: String)
    ensures
        r@ == joined(tool_home(home@), name@),
{
    let base = get_doubletime_home_directory(home);
    join(base.as_str(), name)
}

pub open spec fn config_path(home: Seq<char>) -> Seq<char> {
    joined(tool_home(home), "config.yaml"@)
}

/// The configuration file: `<home>/Doubletime/config.yaml`.
pub fn get_config_path(home: &str) -> (r: String)
    ensures
        r@ == config_path(home@),
{
    get_doubletime_directory_path(home, "config.yaml")
}

/// The directories that must exist before the tool runs: the staging and
/// project directories, and the one that holds the configuration file.
pub fn required_directories(home: &str) -> (r: Vec<String>)
    ensures
        r@.len() == 3,
        r@[0]@ == joined(tool_home(home@), "Staging"@),
        r@[1]@ == joined(tool_home(home@), "Projects"@),
        r@[2]@ == tool_home(home@),
{
    let mut v: Vec<String> = Vec::new();
    v.push(get_doubletime_directory_path(home, "Staging"));
    v.push(get_doubletime_directory_path(home, "Projects"));
    v.push(get_doubletime_home_directory(home));
    v
}

} // verus!
