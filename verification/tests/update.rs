use hop_cli::update::{update_next, UpdateAction, UpdateStep};

#[test]
fn successful_steps_run_in_order_and_finish() {
    let order = [
        UpdateStep::FindAsset,
        UpdateStep::LocateExecutable,
        UpdateStep::ReadToken,
        UpdateStep::PrepareWorkDir,
        UpdateStep::PrepareExtractDir,
        UpdateStep::Download,
        UpdateStep::Extract,
        UpdateStep::CheckBinary,
        UpdateStep::MakeExecutable,
        UpdateStep::GenerateShellInit,
        UpdateStep::InstallBinary,
        UpdateStep::InstallShellInit,
    ];
    for pair in order.windows(2) {
        assert_eq!(update_next(pair[0], Ok(()), "/x/hop", "/t", "/t/extract"), UpdateAction::Run(pair[1]));
    }
    assert_eq!(
        update_next(UpdateStep::InstallShellInit, Ok(()), "/home/alex/.x-cli-hop/bin/hop", "/t", "/t/extract"),
        UpdateAction::Finish { message: "Updated /home/alex/.x-cli-hop/bin/hop".to_owned() }
    );
}

#[test]
fn failures_before_the_work_directory_leave_nothing_to_remove() {
    assert_eq!(
        update_next(UpdateStep::FindAsset, Err(String::new()), "", "", ""),
        UpdateAction::Fail {
            message: "hop update currently supports Linux and macOS release builds only.".to_owned(),
            remove_work_dir: false,
        }
    );
    assert_eq!(
        update_next(UpdateStep::LocateExecutable, Err("gone".to_owned()), "", "", ""),
        UpdateAction::Fail { message: "Cannot locate current executable: gone".to_owned(), remove_work_dir: false }
    );
    assert_eq!(
        update_next(UpdateStep::ReadToken, Err("bad token".to_owned()), "/x", "", ""),
        UpdateAction::Fail { message: "bad token".to_owned(), remove_work_dir: false }
    );
    assert_eq!(
        update_next(UpdateStep::PrepareWorkDir, Err("denied".to_owned()), "/x", "/t", "/t/extract"),
        UpdateAction::Fail { message: "Cannot prepare /t: denied".to_owned(), remove_work_dir: false }
    );
}

#[test]
fn failures_after_the_work_directory_remove_it() {
    let cases = [
        (UpdateStep::PrepareExtractDir, "Cannot prepare /t/extract: denied"),
        (UpdateStep::Download, "denied"),
        (UpdateStep::Extract, "Could not extract release archive; install tar."),
        (UpdateStep::CheckBinary, "Release archive did not contain a hop binary."),
        (UpdateStep::MakeExecutable, "Cannot prepare updated executable: denied"),
        (UpdateStep::GenerateShellInit, "denied"),
        (UpdateStep::InstallBinary, "Cannot update /x/hop: denied"),
        (UpdateStep::InstallShellInit, "Updated the binary but could not refresh shell integration: denied"),
    ];
    for (step, message) in cases {
        assert_eq!(
            update_next(step, Err("denied".to_owned()), "/x/hop", "/t", "/t/extract"),
            UpdateAction::Fail { message: message.to_owned(), remove_work_dir: true }
        );
    }
}
