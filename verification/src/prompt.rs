use vstd::prelude::*;

use crate::messages::{no_projects_message, no_projects_message_spec};
use crate::render::{cat, lines_view, paint, paint_spec, DIM, GREEN};
use crate::select::{
    frequent_choice, frequent_path_for_target, path_for_choice, ranked_paths, sector_choice, sector_paths, Choice,
    RankedProject, Sector,
};

verus! {

/// What reading a selector of the default view gave.
#[derive(Debug, Clone, PartialEq, Eq)]
pub enum ChoiceInput {
    /// A selector, as zero-based indices.
    Parsed(Choice),
    /// An empty line.
    Empty,
    /// Text that is no selector, with the message that says why.
    Refused(String),
}

/// What an interactive prompt does after one line of input.
#[derive(Debug, Clone, PartialEq, Eq)]
pub enum PromptOutcome {
    /// Stop without selecting anything (the command fails).
    Cancel,
    /// Show this warning and prompt again.
    Retry(String),
    /// Hand this project path on.
    Select(String),
}

/// Whether `outcome` is what the selection result `selection` asks for.
pub open spec fn outcome_matches(outcome: PromptOutcome, selection: Result<Seq<char>, Seq<char>>) -> bool {
    match selection {
        Ok(path) => outcome matches PromptOutcome::Select(p) && p@ == path,
        Err(message) => outcome matches PromptOutcome::Retry(w) && w@ == message,
    }
}

/// One step of the prompt of the default view: an empty line cancels, text that is no selector
/// is warned about and asked again, a selector hands on its project or, where it names none,
/// is warned about and asked again.
pub fn sector_prompt_step(sectors: &Vec<Sector>, input: ChoiceInput) -> (r: PromptOutcome)
    ensures
        match input {
            ChoiceInput::Empty => r == PromptOutcome::Cancel,
            ChoiceInput::Refused(message) => r == PromptOutcome::Retry(message),
            ChoiceInput::Parsed(choice) => outcome_matches(r, sector_choice(sector_paths(sectors@),
                choice.sector_index as nat, choice.project_index as nat)),
        },
{
    match input {
        ChoiceInput::Empty => PromptOutcome::Cancel,
        ChoiceInput::Refused(message) => PromptOutcome::Retry(message),
        ChoiceInput::Parsed(choice) => match path_for_choice(sectors, choice) {
            Ok(path) => PromptOutcome::Select(path.to_owned()),
            Err(message) => PromptOutcome::Retry(message.to_owned()),
        },
    }
}

/// One step of the prompt of the frequent view, given the line read (already trimmed): an
/// empty line cancels, a position hands on its project, anything else is warned about and
/// asked again.
pub fn frequent_prompt_step(projects: &Vec<RankedProject>, input: &str) -> (r: PromptOutcome)
    ensures
        input@.len() == 0 ==> r == PromptOutcome::Cancel,
        input@.len() > 0 ==> outcome_matches(r, frequent_choice(ranked_paths(projects@), input@)),
{
    if input.is_empty() {
        return PromptOutcome::Cancel;
    }
    match frequent_path_for_target(projects, input) {
        Ok(path) => PromptOutcome::Select(path.to_owned()),
        Err(message) => PromptOutcome::Retry(message.to_owned()),
    }
}

/// What becomes of a selected path.
#[derive(Debug, Clone, Copy, PartialEq, Eq, Structural)]
pub enum EmitAction {
    /// Copy it to the clipboard and print nothing on standard output.
    Copy,
    /// Standard output is a terminal, so no shell bridge reads it: explain how to activate the
    /// bridge and fail.
    ExplainInactiveBridge,
    /// Print the path as the only output on standard output, for the shell bridge.
    Print,
}

/// What becomes of a selected path: copy mode copies it; otherwise it is printed only where
/// standard output is not a terminal, as when the shell bridge captures it.
pub fn emit_action(copy_path: bool, stdout_is_terminal: bool) -> (r: EmitAction)
    ensures
        r == (if copy_path {
            EmitAction::Copy
        } else if stdout_is_terminal {
            EmitAction::ExplainInactiveBridge
        } else {
            EmitAction::Print
        }),
{
    if copy_path {
        EmitAction::Copy
    } else if stdout_is_terminal {
        EmitAction::ExplainInactiveBridge
    } else {
        EmitAction::Print
    }
}

/// What copying a path to the clipboard does next.
#[derive(Debug, Clone, PartialEq, Eq)]
pub enum ClipboardAction {
    /// Start `program` with `args`, write `stdin` to it, and report whether it succeeded.
    Spawn { program: String, args: Vec<String>, stdin: String },
    /// The path is copied: print this line.
    Report(String),
    /// No clipboard command worked: fail with this message.
    Fail(String),
}

/// The clipboard commands, in the order they are tried.
pub open spec fn clipboard_program(attempt: nat) -> Seq<char> {
    if attempt == 0 {
        "pbcopy"@
    } else if attempt == 1 {
        "wl-copy"@
    } else if attempt == 2 {
        "xclip"@
    } else {
        "xsel"@
    }
}

/// The arguments of each clipboard command.
pub open spec fn clipboard_args(attempt: nat) -> Seq<Seq<char>> {
    if attempt == 0 || attempt == 1 {
        Seq::empty()
    } else if attempt == 2 {
        seq!["-selection"@, "clipboard"@]
    } else {
        seq!["--clipboard"@, "--input"@]
    }
}

/// The number of clipboard commands.
pub open spec fn clipboard_command_count() -> nat {
    4
}

/// The line printed once the path `value` is copied.
pub open spec fn copied_line_spec(color: bool, value: Seq<char>) -> Seq<char> {
    "  "@ + paint_spec(color, GREEN@, "copied"@) + " "@ + paint_spec(color, DIM@, value)
}

pub open spec fn clipboard_failure_message() -> Seq<char> {
    "Could not copy path; install pbcopy, wl-copy, xclip, or xsel."@
}

/// The next move of copying `value` to the clipboard: `attempt` commands have been tried, and
/// `last_succeeded` tells whether the last of them copied it. Commands are tried in the fixed
/// order `pbcopy`, `wl-copy`, `xclip`, `xsel`, each with the value on its standard input; the
/// first that succeeds ends the copy, and when all have failed the copy fails.
pub fn clipboard_next(attempt: usize, last_succeeded: bool, value: &str, color: bool) -> (r: ClipboardAction)
    ensures
        last_succeeded ==> (r matches ClipboardAction::Report(line) && line@ == copied_line_spec(color, value@)),
        !last_succeeded && attempt < clipboard_command_count() ==> (r matches ClipboardAction::Spawn { program, args, stdin }
            && program@ == clipboard_program(attempt as nat) && lines_view(args@) == clipboard_args(attempt as nat)
            && stdin@ == value@),
        !last_succeeded && attempt >= clipboard_command_count() ==> (r matches ClipboardAction::Fail(message)
            && message@ == clipboard_failure_message()),
{
    if last_succeeded {
        return ClipboardAction::Report(cat(cat(cat("  ".to_owned(), paint(color, GREEN, "copied").as_str()), " "),
            paint(color, DIM, value).as_str()));
    }
    if attempt >= 4 {
        return ClipboardAction::Fail("Could not copy path; install pbcopy, wl-copy, xclip, or xsel.".to_owned());
    }
    let (program, args): (String, Vec<String>) = if attempt == 0 {
        ("pbcopy".to_owned(), Vec::new())
    } else if attempt == 1 {
        ("wl-copy".to_owned(), Vec::new())
    } else if attempt == 2 {
        ("xclip".to_owned(), vec!["-selection".to_owned(), "clipboard".to_owned()])
    } else {
        ("xsel".to_owned(), vec!["--clipboard".to_owned(), "--input".to_owned()])
    };
    assert(lines_view(args@) =~= clipboard_args(attempt as nat));
    ClipboardAction::Spawn { program, args, stdin: value.to_owned() }
}

/// What a navigation command does once it knows whether its target is the home shortcut and
/// which projects it has.
#[derive(Debug, Clone, PartialEq, Eq)]
pub enum NavigationPlan {
    /// Hand on the hop home directory.
    EmitHomeShortcut,
    /// Fail with this message.
    Fail(String),
    /// Select the project at this position of the frequent view.
    SelectFrequent(String),
    /// Select the project this selector of the default view names.
    SelectSector(String),
    /// Show the frequent or the default view, and prompt for a choice only where `prompt` is set.
    Show { frequent: bool, prompt: bool },
}

/// The plan of a navigation command: the home shortcut comes first; without projects it fails;
/// a target is selected in the chosen view; otherwise the view is shown, with a prompt only in
/// interactive (jump) mode.
pub fn navigation_plan(
    home_shortcut: bool,
    n_projects: usize,
    config_source: Option<&str>,
    frequent: bool,
    target: Option<&str>,
    interactive: bool,
) -> (r: NavigationPlan)
    ensures
        home_shortcut ==> r == NavigationPlan::EmitHomeShortcut,
        !home_shortcut && n_projects == 0 ==> (r matches NavigationPlan::Fail(message)
            && message@ == no_projects_message_spec(match config_source {
                Some(path) => Some(path@),
                None => None,
            })),
        !home_shortcut && n_projects > 0 && target is Some ==> (if frequent {
            r matches NavigationPlan::SelectFrequent(t) && t@ == target->0@
        } else {
            r matches NavigationPlan::SelectSector(t) && t@ == target->0@
        }),
        !home_shortcut && n_projects > 0 && target is None ==> r == (NavigationPlan::Show { frequent, prompt: interactive }),
{
    if home_shortcut {
        return NavigationPlan::EmitHomeShortcut;
    }
    if n_projects == 0 {
        return NavigationPlan::Fail(no_projects_message(config_source));
    }
    match target {
        Some(t) => if frequent {
            NavigationPlan::SelectFrequent(t.to_owned())
        } else {
            NavigationPlan::SelectSector(t.to_owned())
        },
        None => NavigationPlan::Show { frequent, prompt: interactive },
    }
}

} // verus!
