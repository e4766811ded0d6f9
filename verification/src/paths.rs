//! Path derivation for stored files and configuration files.
//!
//! Paths are kept as plain strings joined with `/`; resolving them against
//! the platform (expanding `~`, absolutizing) is the caller's business and
//! happens before the values reach this library.

use vstd::prelude::*;
use vstd::string::StringExecFns;

verus! {

/// The path of an entry named `name` inside directory `dir`.
pub open spec fn joined(dir: Seq<char>, name: Seq<char>) -> Seq<char> {
    dir + "/"@ + name
}

/// The destination of a stored image: `root/subreddit/filename`.
pub open spec fn file_location(root: Seq<char>, subreddit: Seq<char>, filename: Seq<char>) -> Seq<char> {
    joined(joined(root, subreddit), filename)
}

/// Join a directory and an entry name with `/`.
pub fn join_path(dir: &str, name: &str) -> (r: String)
    ensures
        r@ == joined(dir@, name@),
{
    let mut s = String::from_str(dir);
    s.append("/");
    s.append(name);
    s
}

/// The per-user configuration directory, under the home directory:
/// `AppData/local/ridit` on Windows, `.config/ridit` elsewhere.
pub fn xdg_config_dir(home: &str, windows: bool) -> (r: String)
    ensures
        windows ==> r@ == home@ + "/AppData/local/ridit"@,
        !windows ==> r@ == home@ + "/.config/ridit"@,
{
    let mut s = String::from_str(home);
    if windows {
        s.append("/AppData/local/ridit");
    } else {
        s.append("/.config/ridit");
    }
    s
}

/// The configuration file inside a candidate directory.
pub fn config_file_path(dir: &str) -> (r: String)
    ensures
        r@ == joined(dir@, "ridit.toml"@),
{
    join_path(dir, "ridit.toml")
}

/// Relies on std::path::Path::exists to test whether a path names an entry
/// on disk. The result depends on the filesystem, so nothing is promised
/// of it.
#[verifier::external_body]
pub(crate) fn path_exists(path: &str) -> bool {
    std::path::Path::new(path).exists()
}

/// Whether a configuration file is present at the working-directory
/// candidate and at the per-user candidate. A candidate that could not be
/// resolved at all counts as absent.
pub fn check_config_exists(relative_path: Option<&String>, xdg_path: Option<&String>) -> (r: (bool, bool))
    ensures
        r.0 ==> relative_path is Some,
        r.1 ==> xdg_path is Some,
{
    let rel = match relative_path {
        Some(p) => path_exists(p.as_str()),
        None => false,
    };
    let xdg = match xdg_path {
        Some(p) => path_exists(p.as_str()),
        None => false,
    };
    (rel, xdg)
}

} // verus!
