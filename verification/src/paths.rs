use vstd::prelude::*;

use crate::cli::opt_view;
use crate::quote::{shell_quote, shell_quote_spec};
use crate::text::{chars_of, push_char, str_is};

verus! {

/// What `std::path::Path::parent` gives for the path written `path`.
pub uninterp spec fn path_parent(path: Seq<char>) -> Option<Seq<char>>;

/// What `std::path::Path::file_name` gives for the path written `path`.
pub uninterp spec fn path_file_name(path: Seq<char>) -> Option<Seq<char>>;

/// What `std::path::Path::strip_prefix` gives for `path` and `base`, where it succeeds.
pub uninterp spec fn path_strip_prefix(path: Seq<char>, base: Seq<char>) -> Option<Seq<char>>;

/// What `std::path::Path::join` gives for `base` and `tail`.
pub uninterp spec fn path_join(base: Seq<char>, tail: Seq<char>) -> Seq<char>;

/// What `==` on two `std::path::Path` values gives: whether their components are the same.
pub uninterp spec fn same_path(a: Seq<char>, b: Seq<char>) -> bool;

/// Calls `std::path::Path::parent` (the path without its final component, `None` for a root or
/// an empty path). The contract claims only that the result, as a `String`, is `path_parent` of
/// the argument; what that is for a given path is left to the standard library.
#[verifier::external_body]
fn parent_of(path: &str) -> (r: Option<String>)
    ensures
        opt_view(r) == path_parent(path@),
{
    match std::path::Path::new(path).parent() {
        Some(parent) => Some(parent.to_string_lossy().into_owned()),
        None => None,
    }
}

/// Calls `std::path::Path::file_name` (the final component, `None` where it is `..` or there is
/// none). The contract claims only that the result, as a `String`, is `path_file_name` of the
/// argument.
#[verifier::external_body]
fn file_name_of(path: &str) -> (r: Option<String>)
    ensures
        opt_view(r) == path_file_name(path@),
{
    match std::path::Path::new(path).file_name() {
        Some(name) => Some(name.to_string_lossy().into_owned()),
        None => None,
    }
}

/// Calls `std::path::Path::strip_prefix` (the rest of `path` after the components of `base`, an
/// error where `base` is no prefix of it). The contract claims only that the result, with the
/// error as `None`, is `path_strip_prefix` of the arguments.
#[verifier::external_body]
fn strip_prefix_of(path: &str, base: &str) -> (r: Option<String>)
    ensures
        opt_view(r) == path_strip_prefix(path@, base@),
{
    match std::path::Path::new(path).strip_prefix(base) {
        Ok(rest) => Some(rest.to_string_lossy().into_owned()),
        Err(_) => None,
    }
}

/// Calls `std::path::Path::join` (`tail` appended to `base` as a further component). The
/// contract claims only that the result, as a `String`, is `path_join` of the arguments.
#[verifier::external_body]
fn join_of(base: &str, tail: &str) -> (r: String)
    ensures
        r@ == path_join(base@, tail@),
{
    std::path::Path::new(base).join(tail).to_string_lossy().into_owned()
}

/// Calls `==` on two `std::path::Path` values (component-wise equality). The contract claims that
/// the result is `same_path` of the arguments, and that a path written the same way is equal to
/// itself (`Path` is `Eq`, so its equality is reflexive).
#[verifier::external_body]
fn paths_equal(a: &str, b: &str) -> (r: bool)
    ensures
        r == same_path(a@, b@),
        a@ == b@ ==> r,
{
    std::path::Path::new(a) == std::path::Path::new(b)
}

/// The name under which a project is listed: its final path component, or `?` where it has none.
pub open spec fn project_name_spec(path: Seq<char>) -> Seq<char> {
    match path_file_name(path) {
        Some(name) => name,
        None => "?"@,
    }
}

/// The name under which a project is listed.
pub fn project_name(path: &str) -> (r: String)
    ensures
        r@ == project_name_spec(path@),
{
    match file_name_of(path) {
        Some(name) => name,
        None => "?".to_owned(),
    }
}

/// Where a project's parent lies, as the frequent view shows it: relative to the scan root as
/// `~` or `~/<relative>`, else the parent itself; always with a trailing `/`.
pub open spec fn parent_display_spec(parent: Seq<char>, relative: Option<Seq<char>>) -> Seq<char> {
    let display = match relative {
        Some(rel) => if rel.len() == 0 { "~"@ } else { "~/"@ + rel },
        None => parent,
    };
    if display.len() > 0 && display.last() == '/' {
        display
    } else {
        display.push('/')
    }
}

/// The display of a parent directory `parent`, given `relative`, what is left of it after the
/// scan root (`None` where the scan root is not a prefix of it).
pub fn parent_display(parent: &str, relative: Option<&str>) -> (r: String)
    ensures
        r@ == parent_display_spec(parent@, match relative {
            Some(rel) => Some(rel@),
            None => None,
        }),
{
    let mut display = match relative {
        Some(rel) => if chars_of(rel).len() == 0 {
            "~".to_owned()
        } else {
            let mut d = "~/".to_owned();
            d.append(rel);
            d
        },
        None => parent.to_owned(),
    };
    let chars = chars_of(display.as_str());
    if chars.len() > 0 && chars[chars.len() - 1] == '/' {
        display
    } else {
        push_char(&mut display, '/');
        display
    }
}

/// The parent of `project` (`/` where it has none) as shown relative to `scan_root`.
pub open spec fn project_parent_display_spec(scan_root: Seq<char>, project: Seq<char>) -> Seq<char> {
    let parent = match path_parent(project) {
        Some(p) => p,
        None => "/"@,
    };
    parent_display_spec(parent, path_strip_prefix(parent, scan_root))
}

/// Where a project lies, as the frequent view shows it.
pub fn project_parent_display(scan_root: &str, project: &str) -> (r: String)
    ensures
        r@ == project_parent_display_spec(scan_root@, project@),
{
    let parent = match parent_of(project) {
        Some(p) => p,
        None => "/".to_owned(),
    };
    let relative = strip_prefix_of(parent.as_str(), scan_root);
    match relative {
        Some(rel) => parent_display(parent.as_str(), Some(rel.as_str())),
        None => parent_display(parent.as_str(), None),
    }
}

/// The directory that holds an installation, from the path of its binary: the binary's
/// directory, or the directory above it when that is a `bin` directory.
pub open spec fn installation_home_spec(binary: Seq<char>) -> Option<Seq<char>> {
    match path_parent(binary) {
        None => None,
        Some(parent) => if path_file_name(parent) == Some("bin"@) {
            path_parent(parent)
        } else {
            Some(parent)
        },
    }
}

/// The installation directory of the binary at `binary`; both the layout with the binary at the
/// top and the one with a `bin` directory are understood.
pub fn installation_home(binary: &str) -> (r: Option<String>)
    ensures
        opt_view(r) == installation_home_spec(binary@),
{
    let parent = match parent_of(binary) {
        Some(p) => p,
        None => {
            return None;
        },
    };
    let is_bin = match file_name_of(parent.as_str()) {
        Some(name) => str_is(name.as_str(), "bin"),
        None => false,
    };
    if is_bin {
        parent_of(parent.as_str())
    } else {
        Some(parent)
    }
}

/// The command that activates the shell bridge: sourcing `init.zsh` of the installation that
/// holds the running binary, or of the default installation where that is unknown.
pub open spec fn shell_activation_command_spec(current_exe: Option<Seq<char>>) -> Seq<char> {
    let home = match current_exe {
        Some(exe) => installation_home_spec(exe),
        None => None,
    };
    match home {
        Some(h) => ". "@ + shell_quote_spec(path_join(h, "init.zsh"@)),
        None => ". \"$HOME/.x-cli-hop/init.zsh\""@,
    }
}

/// The command that activates the shell bridge, given the path of the running binary where it
/// is known.
pub fn shell_activation_command(current_exe: Option<&str>) -> (r: String)
    ensures
        r@ == shell_activation_command_spec(match current_exe {
            Some(exe) => Some(exe@),
            None => None,
        }),
{
    let home = match current_exe {
        Some(exe) => installation_home(exe),
        None => None,
    };
    match home {
        Some(h) => {
            let init = join_of(h.as_str(), "init.zsh");
            let mut r = ". ".to_owned();
            r.append(shell_quote(init.as_str()).as_str());
            r
        },
        None => ". \"$HOME/.x-cli-hop/init.zsh\"".to_owned(),
    }
}

/// Whether a jump target names the hop home shortcut: `~` itself, or the home directory as a
/// shell expands `~` to it.
pub fn is_cli_home_shortcut(target: &str, home: &str) -> (r: bool)
    ensures
        r == (target@ == "~"@ || same_path(target@, home@)),
        target@ == home@ ==> r,
{
    str_is(target, "~") || paths_equal(target, home)
}

/// The command that refreshes the project config for `scan_root`: plain `hop config` when that is
/// the home directory, else with `--root` and the quoted root.
pub open spec fn refresh_command_spec(scan_root: Seq<char>, home: Seq<char>) -> Seq<char> {
    if same_path(scan_root, home) {
        "`hop config`"@
    } else {
        "`hop config --root "@ + shell_quote_spec(scan_root) + "`"@
    }
}

/// The command that refreshes the project config for `scan_root`.
pub fn refresh_command(scan_root: &str, home: &str) -> (r: String)
    ensures
        r@ == refresh_command_spec(scan_root@, home@),
        scan_root@ == home@ ==> r@ == "`hop config`"@,
{
    if paths_equal(scan_root, home) {
        "`hop config`".to_owned()
    } else {
        let mut r = "`hop config --root ".to_owned();
        r.append(shell_quote(scan_root).as_str());
        r.append("`");
        r
    }
}

/// The parent of `path`, or `.` where it has none.
pub fn parent_dir_or_current(path: &str) -> (r: String)
    ensures
        r@ == match path_parent(path@) {
            Some(dir) => dir,
            None => "."@,
        },
{
    match parent_of(path) {
        Some(dir) => dir,
        None => ".".to_owned(),
    }
}

/// Locations in the frequent view always read as directories: whatever the parent and the scan
/// root, the shown location is not empty and ends with `/`.
pub proof fn parent_display_ends_with_slash(parent: Seq<char>, relative: Option<Seq<char>>)
    ensures
        parent_display_spec(parent, relative).len() > 0,
        parent_display_spec(parent, relative).last() == '/',
{
}

/// The hop home directory: `.x-cli-hop` in the user's home directory.
pub open spec fn cli_home_path_spec(home: Seq<char>) -> Seq<char> {
    path_join(home, ".x-cli-hop"@)
}

/// The hop home directory, where the installation, its config and its history live.
pub fn cli_home_path(home: &str) -> (r: String)
    ensures
        r@ == cli_home_path_spec(home@),
{
    join_of(home, ".x-cli-hop")
}

/// Where a jump target that names the hop home shortcut leads: the hop home directory for `~`
/// or for the home directory itself; `None` for any other target.
pub fn cli_home_shortcut_path_for_home(target: &str, home: &str) -> (r: Option<String>)
    ensures
        match r {
            Some(path) => (target@ == "~"@ || same_path(target@, home@)) && path@ == cli_home_path_spec(home@),
            None => !(target@ == "~"@ || same_path(target@, home@)),
        },
        target@ == home@ ==> r is Some,
{
    if is_cli_home_shortcut(target, home) {
        Some(cli_home_path(home))
    } else {
        None
    }
}

} // verus!
