use hop_cli::prompt::{clipboard_next, navigation_plan, ClipboardAction, NavigationPlan};
use hop_cli::release::{authenticated_curl_config, download_next, DownloadCommand, DownloadNext};

fn run(command: DownloadCommand, program: &str, args: &[&str], stdin: Option<String>) -> DownloadNext {
    DownloadNext::Run {
        command,
        program: program.to_owned(),
        args: args.iter().map(|arg| arg.to_string()).collect(),
        stdin,
    }
}

#[test]
fn authenticated_download_checks_curl_then_sends_the_config_on_stdin() {
    let url = "https://example.test/hop.tar.gz";
    let token = Some("secret-token");
    assert_eq!(
        download_next(url, "/tmp/a", token, None),
        run(DownloadCommand::CurlVersion, "curl", &["--version"], None)
    );
    assert_eq!(
        download_next(url, "/tmp/a", token, Some((DownloadCommand::CurlVersion, true))),
        run(
            DownloadCommand::CurlConfig,
            "curl",
            &["-K", "-"],
            Some(authenticated_curl_config(url, "/tmp/a", "secret-token"))
        )
    );
    assert_eq!(
        download_next(url, "/tmp/a", token, Some((DownloadCommand::CurlVersion, false))),
        DownloadNext::Failed("Authenticated updates require curl; install curl and retry.".to_owned())
    );
    assert_eq!(
        download_next(url, "/tmp/a", token, Some((DownloadCommand::CurlConfig, true))),
        DownloadNext::Succeeded
    );
    assert_eq!(
        download_next(url, "/tmp/a", token, Some((DownloadCommand::CurlConfig, false))),
        DownloadNext::Failed(
            "Could not download latest release with stored GitHub token; rerun the installer with GH_INSTALLER_TOKEN or check token access."
                .to_owned()
        )
    );
}

#[test]
fn plain_download_tries_curl_then_wget() {
    let url = "https://example.test/hop.tar.gz";
    assert_eq!(
        download_next(url, "/tmp/a", None, None),
        run(DownloadCommand::CurlPlain, "curl", &["-fsSL", url, "-o", "/tmp/a"], None)
    );
    assert_eq!(
        download_next(url, "/tmp/a", None, Some((DownloadCommand::CurlPlain, true))),
        DownloadNext::Succeeded
    );
    assert_eq!(
        download_next(url, "/tmp/a", None, Some((DownloadCommand::CurlPlain, false))),
        run(DownloadCommand::Wget, "wget", &["-qO", "/tmp/a", url], None)
    );
    assert_eq!(
        download_next(url, "/tmp/a", None, Some((DownloadCommand::Wget, true))),
        DownloadNext::Succeeded
    );
    assert_eq!(
        download_next(url, "/tmp/a", None, Some((DownloadCommand::Wget, false))),
        DownloadNext::Failed("Could not download latest release; install curl or wget.".to_owned())
    );
}

#[test]
fn clipboard_commands_are_tried_in_order() {
    let expected: [(&str, &[&str]); 4] = [
        ("pbcopy", &[]),
        ("wl-copy", &[]),
        ("xclip", &["-selection", "clipboard"]),
        ("xsel", &["--clipboard", "--input"]),
    ];
    for (attempt, (program, args)) in expected.iter().enumerate() {
        assert_eq!(
            clipboard_next(attempt, false, "/work/hop", false),
            ClipboardAction::Spawn {
                program: program.to_string(),
                args: args.iter().map(|arg| arg.to_string()).collect(),
                stdin: "/work/hop".to_owned(),
            }
        );
    }
    assert_eq!(
        clipboard_next(4, false, "/work/hop", false),
        ClipboardAction::Fail("Could not copy path; install pbcopy, wl-copy, xclip, or xsel.".to_owned())
    );
    assert_eq!(
        clipboard_next(2, true, "/work/hop", false),
        ClipboardAction::Report("  copied /work/hop".to_owned())
    );
    assert_eq!(
        clipboard_next(1, true, "/w", true),
        ClipboardAction::Report("  \x1b[32mcopied\x1b[0m \x1b[2m/w\x1b[0m".to_owned())
    );
}

#[test]
fn navigation_plans_follow_the_mode() {
    assert_eq!(navigation_plan(true, 0, None, false, Some("~"), true), NavigationPlan::EmitHomeShortcut);
    assert_eq!(
        navigation_plan(false, 0, Some("/h/config.toml"), false, None, true),
        NavigationPlan::Fail(
            "No active projects found in /h/config.toml; edit active values or run hop config.".to_owned()
        )
    );
    assert_eq!(
        navigation_plan(false, 0, None, true, Some("1"), true),
        NavigationPlan::Fail("No git projects found under the scan root.".to_owned())
    );
    assert_eq!(
        navigation_plan(false, 3, None, true, Some("2"), true),
        NavigationPlan::SelectFrequent("2".to_owned())
    );
    assert_eq!(
        navigation_plan(false, 3, None, false, Some("b1"), true),
        NavigationPlan::SelectSector("b1".to_owned())
    );
    assert_eq!(
        navigation_plan(false, 3, None, false, None, true),
        NavigationPlan::Show { frequent: false, prompt: true }
    );
    // list mode: no prompt
    assert_eq!(
        navigation_plan(false, 3, None, true, None, false),
        NavigationPlan::Show { frequent: true, prompt: false }
    );
}
