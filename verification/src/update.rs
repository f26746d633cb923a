use vstd::prelude::*;

use crate::render::cat;

verus! {

/// The steps of a self-update, in the order they run.
#[derive(Debug, Clone, Copy, PartialEq, Eq, Structural)]
pub enum UpdateStep {
    /// Find the release archive for this platform.
    FindAsset,
    /// Locate the running executable.
    LocateExecutable,
    /// Read the stored GitHub token, if any.
    ReadToken,
    /// Create a fresh work directory.
    PrepareWorkDir,
    /// Create the extraction directory inside it.
    PrepareExtractDir,
    /// Download the release archive.
    Download,
    /// Extract the archive with `tar`.
    Extract,
    /// Check that the archive held a `hop` binary.
    CheckBinary,
    /// Make the new binary executable.
    MakeExecutable,
    /// Let the new binary write its shell bridge.
    GenerateShellInit,
    /// Replace the running executable.
    InstallBinary,
    /// Replace the shell bridge.
    InstallShellInit,
}

/// What the caller does next.
#[derive(Debug, Clone, PartialEq, Eq)]
pub enum UpdateAction {
    /// Run this step and report how it went.
    Run(UpdateStep),
    /// Stop with this message; remove the work directory first where `remove_work_dir` is set.
    Fail { message: String, remove_work_dir: bool },
    /// Remove the work directory and report success with this message.
    Finish { message: String },
}

/// The position of a step in the update.
pub open spec fn step_rank(step: UpdateStep) -> nat {
    match step {
        UpdateStep::FindAsset => 0,
        UpdateStep::LocateExecutable => 1,
        UpdateStep::ReadToken => 2,
        UpdateStep::PrepareWorkDir => 3,
        UpdateStep::PrepareExtractDir => 4,
        UpdateStep::Download => 5,
        UpdateStep::Extract => 6,
        UpdateStep::CheckBinary => 7,
        UpdateStep::MakeExecutable => 8,
        UpdateStep::GenerateShellInit => 9,
        UpdateStep::InstallBinary => 10,
        UpdateStep::InstallShellInit => 11,
    }
}

/// The step after `step`, if there is one.
pub open spec fn next_step(step: UpdateStep) -> Option<UpdateStep> {
    match step {
        UpdateStep::FindAsset => Some(UpdateStep::LocateExecutable),
        UpdateStep::LocateExecutable => Some(UpdateStep::ReadToken),
        UpdateStep::ReadToken => Some(UpdateStep::PrepareWorkDir),
        UpdateStep::PrepareWorkDir => Some(UpdateStep::PrepareExtractDir),
        UpdateStep::PrepareExtractDir => Some(UpdateStep::Download),
        UpdateStep::Download => Some(UpdateStep::Extract),
        UpdateStep::Extract => Some(UpdateStep::CheckBinary),
        UpdateStep::CheckBinary => Some(UpdateStep::MakeExecutable),
        UpdateStep::MakeExecutable => Some(UpdateStep::GenerateShellInit),
        UpdateStep::GenerateShellInit => Some(UpdateStep::InstallBinary),
        UpdateStep::InstallBinary => Some(UpdateStep::InstallShellInit),
        UpdateStep::InstallShellInit => None,
    }
}

/// Whether the work directory exists when `step` has failed: it is created by
/// `PrepareWorkDir`, so it exists for every failure after that step.
pub open spec fn work_dir_exists_after_failure(step: UpdateStep) -> bool {
    step_rank(step) > step_rank(UpdateStep::PrepareWorkDir)
}

/// The message of a failed step; `detail` is what the step reported (an error or, for the
/// token, download and bridge steps, the whole message), `executable`, `work_dir` and
/// `extract_dir` are the paths the update works on.
pub open spec fn failure_message(
    step: UpdateStep,
    detail: Seq<char>,
    executable: Seq<char>,
    work_dir: Seq<char>,
    extract_dir: Seq<char>,
) -> Seq<char> {
    match step {
        UpdateStep::FindAsset => "hop update currently supports Linux and macOS release builds only."@,
        UpdateStep::LocateExecutable => "Cannot locate current executable: "@ + detail,
        UpdateStep::ReadToken => detail,
        UpdateStep::PrepareWorkDir => "Cannot prepare "@ + work_dir + ": "@ + detail,
        UpdateStep::PrepareExtractDir => "Cannot prepare "@ + extract_dir + ": "@ + detail,
        UpdateStep::Download => detail,
        UpdateStep::Extract => "Could not extract release archive; install tar."@,
        UpdateStep::CheckBinary => "Release archive did not contain a hop binary."@,
        UpdateStep::MakeExecutable => "Cannot prepare updated executable: "@ + detail,
        UpdateStep::GenerateShellInit => detail,
        UpdateStep::InstallBinary => "Cannot update "@ + executable + ": "@ + detail,
        UpdateStep::InstallShellInit => "Updated the binary but could not refresh shell integration: "@ + detail,
    }
}

/// What follows when `step` has run with `outcome`: the next step, the failure with its message
/// and cleanup, or, after the last step, success.
pub fn update_next(
    step: UpdateStep,
    outcome: Result<(), String>,
    executable: &str,
    work_dir: &str,
    extract_dir: &str,
) -> (r: UpdateAction)
    ensures
        match outcome {
            Ok(()) => match next_step(step) {
                Some(next) => r == UpdateAction::Run(next),
                None => r matches UpdateAction::Finish { message } && message@ == "Updated "@ + executable@,
            },
            Err(detail) => r matches UpdateAction::Fail { message, remove_work_dir }
                && message@ == failure_message(step, detail@, executable@, work_dir@, extract_dir@)
                && remove_work_dir == work_dir_exists_after_failure(step),
        },
{
    match outcome {
        Ok(()) => match step {
            UpdateStep::FindAsset => UpdateAction::Run(UpdateStep::LocateExecutable),
            UpdateStep::LocateExecutable => UpdateAction::Run(UpdateStep::ReadToken),
            UpdateStep::ReadToken => UpdateAction::Run(UpdateStep::PrepareWorkDir),
            UpdateStep::PrepareWorkDir => UpdateAction::Run(UpdateStep::PrepareExtractDir),
            UpdateStep::PrepareExtractDir => UpdateAction::Run(UpdateStep::Download),
            UpdateStep::Download => UpdateAction::Run(UpdateStep::Extract),
            UpdateStep::Extract => UpdateAction::Run(UpdateStep::CheckBinary),
            UpdateStep::CheckBinary => UpdateAction::Run(UpdateStep::MakeExecutable),
            UpdateStep::MakeExecutable => UpdateAction::Run(UpdateStep::GenerateShellInit),
            UpdateStep::GenerateShellInit => UpdateAction::Run(UpdateStep::InstallBinary),
            UpdateStep::InstallBinary => UpdateAction::Run(UpdateStep::InstallShellInit),
            UpdateStep::InstallShellInit => UpdateAction::Finish { message: cat("Updated ".to_owned(), executable) },
        },
        Err(detail) => {
            let message = match step {
                UpdateStep::FindAsset => "hop update currently supports Linux and macOS release builds only.".to_owned(),
                UpdateStep::LocateExecutable => cat("Cannot locate current executable: ".to_owned(), detail.as_str()),
                UpdateStep::ReadToken => detail,
                UpdateStep::PrepareWorkDir => cat(cat(cat("Cannot prepare ".to_owned(), work_dir), ": "), detail.as_str()),
                UpdateStep::PrepareExtractDir => cat(cat(cat("Cannot prepare ".to_owned(), extract_dir), ": "), detail.as_str()),
                UpdateStep::Download => detail,
                UpdateStep::Extract => "Could not extract release archive; install tar.".to_owned(),
                UpdateStep::CheckBinary => "Release archive did not contain a hop binary.".to_owned(),
                UpdateStep::MakeExecutable => cat("Cannot prepare updated executable: ".to_owned(), detail.as_str()),
                UpdateStep::GenerateShellInit => detail,
                UpdateStep::InstallBinary => cat(cat(cat("Cannot update ".to_owned(), executable), ": "), detail.as_str()),
                UpdateStep::InstallShellInit => cat(
                    "Updated the binary but could not refresh shell integration: ".to_owned(),
                    detail.as_str(),
                ),
            };
            let remove_work_dir = match step {
                UpdateStep::FindAsset | UpdateStep::LocateExecutable | UpdateStep::ReadToken
                | UpdateStep::PrepareWorkDir => false,
                _ => true,
            };
            UpdateAction::Fail { message, remove_work_dir }
        },
    }
}

/// The update runs its steps in order, each once: every step but the last is followed by a step
/// of higher rank, so every run reaches its end.
pub proof fn update_steps_advance(step: UpdateStep)
    ensures
        match next_step(step) {
            Some(next) => step_rank(next) == step_rank(step) + 1,
            None => step == UpdateStep::InstallShellInit,
        },
{
}

} // verus!
