//! Where the program keeps its files, how it tells a development run, and
//! how a log line reads.

use vstd::prelude::*;
use vstd::string::*;

verus! {

/// The views of a sequence of path components.
pub open spec fn paths_view(v: Seq<String>) -> Seq<Seq<char>> {
    v.map_values(|s: String| s@)
}

/// The name of the program's directory in the local data directory.
pub open spec fn data_dir_name() -> Seq<char> {
    "scriptboard"@
}

/// `local_data_dir` followed by the component `file_name`.
pub(crate) fn local_file_path(local_data_dir: Vec<String>, file_name: &str) -> (r: Vec<String>)
    ensures
        paths_view(r@) == paths_view(local_data_dir@).push(file_name@),
{
    let mut r = local_data_dir;
    let ghost before = r@;
    r.push(file_name.to_owned());
    assert(paths_view(r@) =~= paths_view(before).push(file_name@));
    r
}

/// The program's own directory: `scriptboard` in the local data directory,
/// given by its components.
pub fn data_dir_path(local_data_dir: Vec<String>) -> (r: Vec<String>)
    ensures
        paths_view(r@) == paths_view(local_data_dir@).push(data_dir_name()),
{
    local_file_path(local_data_dir, "scriptboard")
}

/// The path of the store: `store.json` in the program's own directory.
pub fn get_store_path(local_data_dir: Vec<String>) -> (r: Vec<String>)
    ensures
        paths_view(r@) == paths_view(local_data_dir@).push(data_dir_name()).push("store.json"@),
{
    local_file_path(data_dir_path(local_data_dir), "store.json")
}

/// The path of the log file: `scriptboard.log` in the program's own
/// directory.
pub fn get_log_file_path(local_data_dir: Vec<String>) -> (r: Vec<String>)
    ensures
        paths_view(r@) == paths_view(local_data_dir@).push(data_dir_name()).push("scriptboard.log"@),
{
    local_file_path(data_dir_path(local_data_dir), "scriptboard.log")
}

/// Whether a run is a development run, given the value of the `ENV`
/// environment variable: it is where the variable is unset or holds `dev`.
pub fn is_dev_environment(env: Option<String>) -> (r: bool)
    ensures
        r == (match env {
            None => true,
            Some(value) => value@ == "dev"@,
        }),
{
    match env {
        None => true,
        Some(value) => value == "dev".to_owned(),
    }
}

/// A line of the log: the time in brackets, then the level, the target and
/// the message, separated by single spaces.
pub fn format_log_line(timestamp: &str, level: &str, target: &str, message: &str) -> (r: String)
    ensures
        r@ == "["@ + timestamp@ + "] "@ + level@ + " "@ + target@ + " "@ + message@,
{
    let mut r = "[".to_owned();
    r.append(timestamp);
    r.append("] ");
    r.append(level);
    r.append(" ");
    r.append(target);
    r.append(" ");
    r.append(message);
    r
}

} // verus!
