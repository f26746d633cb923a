use vstd::prelude::*;

use crate::cli::{Command, Options};
use crate::paths::{refresh_command, refresh_command_spec};
use crate::render::{
    cat, diff_summary_spec, paint, paint_spec, project_tree_diff_summary, title_case, title_case_spec,
    ProjectTreeDiff, BLUE, BOLD, DIM, RED, YELLOW,
};
use crate::text::{decimal, decimal_string};

verus! {

/// The line that reports a refused choice and lets the user try again.
pub open spec fn warn_line_spec(color: bool, message: Seq<char>) -> Seq<char> {
    "  "@ + paint_spec(color, RED@, "x"@) + " "@ + paint_spec(color, RED@, message)
}

/// The line that reports a refused choice.
pub fn warn_line(message: &str, color: bool) -> (r: String)
    ensures
        r@ == warn_line_spec(color, message@),
{
    cat(cat(cat("  ".to_owned(), paint(color, RED, "x").as_str()), " "), paint(color, RED, message).as_str())
}

/// The line that warns about the project config.
pub open spec fn config_warning_line_spec(color: bool, message: Seq<char>) -> Seq<char> {
    "  "@ + paint_spec(color, YELLOW@, "!"@) + " "@ + paint_spec(color, YELLOW@, message)
}

/// The line that warns about the project config.
pub fn config_warning_line(message: &str, color: bool) -> (r: String)
    ensures
        r@ == config_warning_line_spec(color, message@),
{
    cat(cat(cat("  ".to_owned(), paint(color, YELLOW, "!").as_str()), " "), paint(color, YELLOW, message).as_str())
}

/// The prompt of the interactive views.
pub open spec fn prompt_line_spec(color: bool, copy_path: bool, hint: Seq<char>) -> Seq<char> {
    "  "@ + paint_spec(color, BLUE@, ">"@) + " "@ + paint_spec(color, BOLD@, if copy_path { "copy"@ } else { "jump to"@ })
        + " "@ + paint_spec(color, DIM@, hint) + ": "@
}

/// The prompt of the interactive views; `hint` names what to type.
pub fn prompt_line(color: bool, copy_path: bool, hint: &str) -> (r: String)
    ensures
        r@ == prompt_line_spec(color, copy_path, hint@),
{
    let action = if copy_path { "copy" } else { "jump to" };
    cat(cat(cat(cat(cat(cat("  ".to_owned(), paint(color, BLUE, ">").as_str()), " "), paint(color, BOLD, action).as_str()),
        " "), paint(color, DIM, hint).as_str()), ": ")
}

/// The name and version line.
pub open spec fn version_line_spec(color: bool, app_name: Seq<char>, version: Seq<char>) -> Seq<char> {
    paint_spec(color, BOLD@, title_case_spec(app_name)) + " "@ + paint_spec(color, DIM@, "v"@ + version)
}

/// The name and version line.
pub fn version_line(color: bool, app_name: &str, version: &str) -> (r: String)
    ensures
        r@ == version_line_spec(color, app_name@, version@),
{
    cat(cat(paint(color, BOLD, title_case(app_name).as_str()), " "),
        paint(color, DIM, cat("v".to_owned(), version).as_str()).as_str())
}

/// Whether a command relies on the default project config, so that a missing or unreadable
/// config is reported by the command itself and needs no warning.
pub fn uses_default_project_config(options: &Options) -> (r: bool)
    ensures
        r == ((options.command == Command::Jump || options.command == Command::List) && options.root is None),
{
    (options.command == Command::Jump || options.command == Command::List) && options.root.is_none()
}

/// What the freshness check of the project config found.
#[derive(Debug, Clone, PartialEq, Eq)]
pub enum ConfigCheck {
    /// The home directory is unknown; nothing was checked.
    NoHome,
    /// No config file at `path`.
    ConfigMissing { path: String },
    /// The config file at `path` could not be read.
    ConfigUnreadable { path: String, error: String },
    /// The config's scan root could not be scanned.
    ScanFailed { scan_root: String, home: String, error: String },
    /// The config was compared with the projects found under its scan root.
    Compared { scan_root: String, home: String, diff: ProjectTreeDiff },
}

/// The warning, if any, that the freshness check of the project config gives. A missing or
/// unreadable config is reported only for commands that do not rely on it.
pub open spec fn config_warning_spec(check: ConfigCheck, uses_default: bool) -> Option<Seq<char>> {
    match check {
        ConfigCheck::NoHome => None,
        ConfigCheck::ConfigMissing { path } => if uses_default {
            None
        } else {
            Some("Project config not found at "@ + path@ + "; run `hop config`."@)
        },
        ConfigCheck::ConfigUnreadable { path, error } => if uses_default {
            None
        } else {
            Some("Cannot check project config freshness: cannot read "@ + path@ + ": "@ + error@ + "."@)
        },
        ConfigCheck::ScanFailed { scan_root, home, error } => Some(
            "Cannot check project tree against config: cannot scan "@ + scan_root@ + ": "@ + error@ + ". Run "@
                + refresh_command_spec(scan_root@, home@) + " to refresh it."@,
        ),
        ConfigCheck::Compared { scan_root, home, diff } => if diff.unconfigured_projects@.len() == 0
            && diff.stale_projects@.len() == 0 {
            None
        } else {
            Some("Project tree differs from config: "@ + diff_summary_spec(diff.unconfigured_projects@.len(),
                diff.stale_projects@.len()) + ". Run "@ + refresh_command_spec(scan_root@, home@) + " to refresh it."@)
        },
    }
}

/// The warning that the freshness check of the project config gives, if any.
pub fn project_config_warning(check: &ConfigCheck, uses_default: bool) -> (r: Option<String>)
    ensures
        match r {
            Some(message) => config_warning_spec(*check, uses_default) == Some(message@),
            None => config_warning_spec(*check, uses_default) is None,
        },
{
    match check {
        ConfigCheck::NoHome => None,
        ConfigCheck::ConfigMissing { path } => if uses_default {
            None
        } else {
            Some(cat(cat("Project config not found at ".to_owned(), path.as_str()), "; run `hop config`."))
        },
        ConfigCheck::ConfigUnreadable { path, error } => if uses_default {
            None
        } else {
            Some(cat(cat(cat(cat("Cannot check project config freshness: cannot read ".to_owned(), path.as_str()), ": "),
                error.as_str()), "."))
        },
        ConfigCheck::ScanFailed { scan_root, home, error } => Some(cat(cat(cat(cat(cat(cat(
            "Cannot check project tree against config: cannot scan ".to_owned(), scan_root.as_str()), ": "),
            error.as_str()), ". Run "), refresh_command(scan_root.as_str(), home.as_str()).as_str()),
            " to refresh it.")),
        ConfigCheck::Compared { scan_root, home, diff } => if diff.unconfigured_projects.len() == 0
            && diff.stale_projects.len() == 0 {
            None
        } else {
            Some(cat(cat(cat(cat("Project tree differs from config: ".to_owned(), project_tree_diff_summary(diff).as_str()),
                ". Run "), refresh_command(scan_root.as_str(), home.as_str()).as_str()), " to refresh it."))
        },
    }
}

/// The failure when a view has no project to show: with the config that was read, or after an
/// ad hoc scan.
pub open spec fn no_projects_message_spec(config_source: Option<Seq<char>>) -> Seq<char> {
    match config_source {
        Some(path) => "No active projects found in "@ + path + "; edit active values or run hop config."@,
        None => "No git projects found under the scan root."@,
    }
}

/// The failure when a view has no project to show.
pub fn no_projects_message(config_source: Option<&str>) -> (r: String)
    ensures
        r@ == no_projects_message_spec(match config_source {
            Some(path) => Some(path@),
            None => None,
        }),
{
    match config_source {
        Some(path) => cat(cat("No active projects found in ".to_owned(), path), "; edit active values or run hop config."),
        None => "No git projects found under the scan root.".to_owned(),
    }
}

/// How many of `flags` are set.
pub open spec fn count_set(flags: Seq<bool>) -> nat
    decreases flags.len(),
{
    if flags.len() == 0 {
        0
    } else {
        count_set(flags.drop_last()) + if flags.last() { 1nat } else { 0nat }
    }
}

proof fn lemma_count_set_bound(flags: Seq<bool>)
    ensures
        count_set(flags) <= flags.len(),
    decreases flags.len(),
{
    if flags.len() > 0 {
        lemma_count_set_bound(flags.drop_last());
    }
}

/// The report after the config was written: how many of its projects are active.
pub open spec fn config_update_message_spec(path: Seq<char>, active: Seq<bool>) -> Seq<char> {
    "Updated "@ + path + " ("@ + decimal(count_set(active)) + "/"@ + decimal(active.len()) + " active)"@
}

/// The report after the config at `path` was written; `active` holds each project's `active`
/// value.
pub fn config_update_message(path: &str, active: &Vec<bool>) -> (r: String)
    ensures
        r@ == config_update_message_spec(path@, active@),
{
    let n = active.len();
    let mut count: usize = 0;
    let mut i: usize = 0;
    assert(active@.take(0) =~= Seq::<bool>::empty());
    while i < n
        invariant
            n == active@.len(),
            i <= n,
            count as nat == count_set(active@.take(i as int)),
        decreases n - i,
    {
        assert(active@.take(i + 1).drop_last() =~= active@.take(i as int));
        proof { lemma_count_set_bound(active@.take(i as int)); }
        if active[i] {
            count = count + 1;
        }
        i = i + 1;
    }
    assert(active@.take(n as int) =~= active@);
    cat(cat(cat(cat(cat(cat("Updated ".to_owned(), path), " ("), decimal_string(count as u64).as_str()), "/"),
        decimal_string(n as u64).as_str()), " active)")
}

pub const HELP_INTRO: &'static str = "\n\nTiny interactive project navigator for shells on local machines, VMs, and VPS hosts.\n\n";
pub const HELP_USAGE: &'static str = ":\n    hop [<target>] [--copy-path] [--frequent] [--root <dir>] [--no-color]\n    hop list [--frequent] [--root <dir>] [--no-color]\n    hop ~\n    hop config [--root <dir>]\n    hop update\n    hop --version\n\n";
pub const HELP_COMMANDS: &'static str = ":\n    list             Print the project list without prompting for a selection\n    config           Create or update the project config\n    update           Update this executable from the latest GitHub release\n\n";
pub const HELP_OPTIONS: &'static str = ":\n    --copy-path      Copy the selected path instead of printing it\n    --frequent       Rank all projects by successful jump count\n    --root <dir>      Scan a directory instead of $HOME\n    --no-color        Disable ANSI color output\n    -v, -V, --version Print version\n    -h, --help        Print help\n\nThe project UI writes to stderr. List mode prints it without prompting for a\nselection. Jump mode prints only the selected project path to stdout, so a\nshell wrapper can safely cd into it. Target ~ prints the hop home directory.\nCopy mode writes no stdout and copies the selected project path to the\nclipboard. Frequent mode uses numeric positions instead of sector labels.";

/// The help text: the name and version line, then usage, commands and options under their
/// colored headings.
pub open spec fn help_text_spec(color: bool, app_name: Seq<char>, version: Seq<char>) -> Seq<char> {
    version_line_spec(color, app_name, version) + HELP_INTRO@ + paint_spec(color, BLUE@, "USAGE"@) + HELP_USAGE@
        + paint_spec(color, BLUE@, "COMMANDS"@) + HELP_COMMANDS@ + paint_spec(color, BLUE@, "OPTIONS"@) + HELP_OPTIONS@
}

/// The help text, which the caller writes to the terminal.
pub fn help_text(color: bool, app_name: &str, version: &str) -> (r: String)
    ensures
        r@ == help_text_spec(color, app_name@, version@),
{
    cat(cat(cat(cat(cat(cat(cat(version_line(color, app_name, version), HELP_INTRO), paint(color, BLUE, "USAGE").as_str()),
        HELP_USAGE), paint(color, BLUE, "COMMANDS").as_str()), HELP_COMMANDS), paint(color, BLUE, "OPTIONS").as_str()),
        HELP_OPTIONS)
}

/// The freshness check warns exactly when there is something to report: a compared tree warns
/// if and only if projects were added or configured ones went missing, whatever the command;
/// a missing or unreadable config warns exactly for commands that do not rely on it; a failed
/// scan always warns; without a home directory nothing is checked and nothing is said.
pub proof fn config_warning_when_needed(check: ConfigCheck, uses_default: bool)
    ensures
        check matches ConfigCheck::Compared { diff, .. } ==> (config_warning_spec(check, uses_default) is Some
            <==> diff.unconfigured_projects@.len() + diff.stale_projects@.len() > 0),
        check matches ConfigCheck::Compared { .. } ==> config_warning_spec(check, uses_default)
            == config_warning_spec(check, !uses_default),
        (check is ConfigMissing || check is ConfigUnreadable) ==> (config_warning_spec(check, uses_default) is Some
            <==> !uses_default),
        check is ScanFailed ==> config_warning_spec(check, uses_default) is Some,
        check is NoHome ==> config_warning_spec(check, uses_default) is None,
{
}

/// Whether `part` occurs in `s` at index `at`.
pub open spec fn occurs_at(s: Seq<char>, part: Seq<char>, at: int) -> bool {
    0 <= at && at + part.len() <= s.len() && s.subrange(at, at + part.len()) == part
}

/// The help text opens with the name and version line and then holds its three sections in
/// order, each under its heading: usage, commands (`list`, `config`, `update`) and options, the
/// options closing the text.
pub proof fn help_text_has_its_sections(color: bool, app_name: Seq<char>, version: Seq<char>)
    ensures
        ({
            let help = help_text_spec(color, app_name, version);
            let usage = paint_spec(color, BLUE@, "USAGE"@) + HELP_USAGE@;
            let commands = paint_spec(color, BLUE@, "COMMANDS"@) + HELP_COMMANDS@;
            let options = paint_spec(color, BLUE@, "OPTIONS"@) + HELP_OPTIONS@;
            &&& occurs_at(help, version_line_spec(color, app_name, version), 0)
            &&& exists|u: int, c: int, o: int| #![trigger occurs_at(help, usage, u), occurs_at(help, commands, c), occurs_at(help, options, o)]
                occurs_at(help, usage, u) && occurs_at(help, commands, c) && occurs_at(help, options, o)
                && u + usage.len() <= c && c + commands.len() <= o && o + options.len() == help.len()
        }),
{
    let help = help_text_spec(color, app_name, version);
    let head = version_line_spec(color, app_name, version) + HELP_INTRO@;
    let usage = paint_spec(color, BLUE@, "USAGE"@) + HELP_USAGE@;
    let commands = paint_spec(color, BLUE@, "COMMANDS"@) + HELP_COMMANDS@;
    let options = paint_spec(color, BLUE@, "OPTIONS"@) + HELP_OPTIONS@;
    assert(help =~= head + usage + commands + options);
    let u = head.len() as int;
    let c = u + usage.len();
    let o = c + commands.len();
    assert(help.subrange(0, version_line_spec(color, app_name, version).len() as int)
        =~= version_line_spec(color, app_name, version));
    assert(help.subrange(u, u + usage.len()) =~= usage);
    assert(help.subrange(c, c + commands.len()) =~= commands);
    assert(help.subrange(o, o + options.len()) =~= options);
    assert(occurs_at(help, usage, u) && occurs_at(help, commands, c) && occurs_at(help, options, o));
}

} // verus!
