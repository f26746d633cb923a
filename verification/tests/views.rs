use hop_cli::prompt::{emit_action, frequent_prompt_step, sector_prompt_step, ChoiceInput, EmitAction, PromptOutcome};
use hop_cli::messages::{
    config_update_message, config_warning_line, help_text, no_projects_message, project_config_warning,
    prompt_line, version_line, warn_line, ConfigCheck,
};
use hop_cli::paths::{is_cli_home_shortcut, parent_display, project_parent_display, refresh_command};
use hop_cli::release::{authenticated_curl_config, release_asset_name_for, stored_update_token};
use hop_cli::render::{paint, project_tree_diff_summary, project_word, render, render_frequent, title_case, ProjectTreeDiff};
use hop_cli::select::{frequent_path_for_target, path_for_choice, Choice, RankedProject, Sector};

#[test]
fn summarizes_project_tree_diffs_for_terminal_warning() {
    let diff = ProjectTreeDiff {
        unconfigured_projects: vec![
            "/home/alex/work/new-1".to_owned(),
            "/home/alex/work/new-2".to_owned(),
        ],
        stale_projects: vec!["/home/alex/work/old".to_owned()],
    };

    assert_eq!(
        project_tree_diff_summary(&diff),
        "2 new projects and 1 missing configured project"
    );
    assert_eq!(refresh_command("/srv", "/home/alex"), "`hop config --root '/srv'`");
    assert_eq!(refresh_command("/home/alex", "/home/alex"), "`hop config`");
}

#[test]
fn tree_diff_summary_with_one_side() {
    let diff = ProjectTreeDiff { unconfigured_projects: vec!["/a".to_owned()], stale_projects: Vec::new() };
    assert_eq!(project_tree_diff_summary(&diff), "1 new project");
    let diff = ProjectTreeDiff { unconfigured_projects: Vec::new(), stale_projects: vec!["/a".to_owned(), "/b".to_owned()] };
    assert_eq!(project_tree_diff_summary(&diff), "2 missing configured projects");
    let diff = ProjectTreeDiff { unconfigured_projects: Vec::new(), stale_projects: Vec::new() };
    assert_eq!(project_tree_diff_summary(&diff), "");
    assert_eq!(project_word(1), "project");
    assert_eq!(project_word(0), "projects");
}

#[test]
fn frequent_targets_are_numeric_positions() {
    let projects = vec![
        RankedProject { path: "/work/favorite".to_owned(), jumps: 8 },
        RankedProject { path: "/work/other".to_owned(), jumps: 2 },
    ];

    assert_eq!(frequent_path_for_target(&projects, "2"), Ok("/work/other"));
    assert_eq!(
        frequent_path_for_target(&projects, "A1"),
        Err("expected a positive project position, for example 1")
    );
    assert_eq!(frequent_path_for_target(&projects, "0"), Err("project position starts at 1"));
}

#[test]
fn frequent_targets_trim_and_refuse_out_of_range() {
    let projects = vec![RankedProject { path: "/work/favorite".to_owned(), jumps: 8 }];
    assert_eq!(frequent_path_for_target(&projects, " 1\n"), Ok("/work/favorite"));
    assert_eq!(frequent_path_for_target(&projects, "   "), Err("empty input cancels"));
    assert_eq!(frequent_path_for_target(&projects, "3"), Err("No such project"));
    assert_eq!(
        frequent_path_for_target(&projects, "99999999999999999999999"),
        Err("expected a positive project position, for example 1")
    );
    assert_eq!(
        frequent_path_for_target(&projects, "+1"),
        Err("expected a positive project position, for example 1")
    );
}

#[test]
fn sector_choices_name_existing_projects() {
    let sectors = vec![Sector {
        label: "A".to_owned(),
        name: "work".to_owned(),
        above: "~/work/".to_owned(),
        paths: vec!["/home/alex/work/hop".to_owned()],
    }];
    assert_eq!(path_for_choice(&sectors, Choice { sector_index: 0, project_index: 0 }), Ok("/home/alex/work/hop"));
    assert_eq!(path_for_choice(&sectors, Choice { sector_index: 0, project_index: 1 }), Err("No such project"));
    assert_eq!(path_for_choice(&sectors, Choice { sector_index: 1, project_index: 0 }), Err("No such sector"));
}

#[test]
fn release_asset_names_cover_supported_platforms() {
    assert_eq!(release_asset_name_for("linux", "x86_64"), Some("hop-linux-x86_64.tar.gz"));
    assert_eq!(release_asset_name_for("linux", "aarch64"), Some("hop-linux-aarch64.tar.gz"));
    assert_eq!(release_asset_name_for("macos", "x86_64"), Some("hop-macos-x86_64.tar.gz"));
    assert_eq!(release_asset_name_for("macos", "aarch64"), Some("hop-macos-aarch64.tar.gz"));
    assert_eq!(release_asset_name_for("windows", "x86_64"), None);
}

#[test]
fn curl_config_carries_the_quoted_token() {
    assert_eq!(
        authenticated_curl_config("https://x/a", "/tmp/a\"b", "t\\k"),
        "fail\nshow-error\nsilent\nlocation\nurl = \"https://x/a\"\noutput = \"/tmp/a\\\"b\"\nheader = \"Authorization: Bearer t\\\\k\"\n"
    );
}

#[test]
fn stored_tokens_are_trimmed_and_checked() {
    assert_eq!(stored_update_token("test-token\n"), Ok(Some("test-token".to_owned())));
    assert_eq!(stored_update_token("  \n"), Ok(None));
    assert_eq!(
        stored_update_token("a\nb"),
        Err("Stored GitHub token is invalid; rerun the installer with GH_INSTALLER_TOKEN.".to_owned())
    );
}

#[test]
fn paint_wraps_only_with_color() {
    assert_eq!(paint(true, "\x1b[31m", "x"), "\x1b[31mx\x1b[0m");
    assert_eq!(paint(false, "\x1b[31m", "x"), "x");
    assert_eq!(title_case("hop"), "Hop");
    assert_eq!(title_case(""), "");
    assert_eq!(title_case("éa"), "éa");
    assert_eq!(warn_line("No such project", false), "  x No such project");
    assert_eq!(config_warning_line("stale", false), "  ! stale");
    assert_eq!(prompt_line(false, true, "<position>"), "  > copy <position>: ");
    assert_eq!(prompt_line(false, false, "<sector><position>"), "  > jump to <sector><position>: ");
    assert_eq!(version_line(false, "hop", "0.3.4"), "Hop v0.3.4");
    assert!(help_text(false, "hop", "0.3.4").starts_with("Hop v0.3.4\n\nTiny interactive project navigator"));
    assert!(help_text(false, "hop", "0.3.4").ends_with("Frequent mode uses numeric positions instead of sector labels."));
}

#[test]
fn parent_display_is_relative_to_the_scan_root() {
    assert_eq!(project_parent_display("/home/alex", "/home/alex/work/hop"), "~/work/");
    assert_eq!(project_parent_display("/home/alex", "/home/alex/hop"), "~/");
    assert_eq!(project_parent_display("/srv", "/home/alex/hop"), "/home/alex/");
    assert_eq!(project_parent_display("/srv", "/"), "/");
    assert_eq!(parent_display("/x", Some("")), "~/");
}

#[test]
fn home_shortcut_is_tilde_or_the_home_directory() {
    assert!(is_cli_home_shortcut("~", "/home/alex"));
    assert!(is_cli_home_shortcut("/home/alex", "/home/alex"));
    assert!(is_cli_home_shortcut("/home/alex/", "/home/alex"));
    assert!(!is_cli_home_shortcut("A1", "/home/alex"));
}

#[test]
fn config_warnings_follow_the_check() {
    assert_eq!(project_config_warning(&ConfigCheck::NoHome, false), None);
    let missing = ConfigCheck::ConfigMissing { path: "/h/.x-cli-hop/config.toml".to_owned() };
    assert_eq!(project_config_warning(&missing, true), None);
    assert_eq!(
        project_config_warning(&missing, false).as_deref(),
        Some("Project config not found at /h/.x-cli-hop/config.toml; run `hop config`.")
    );
    let compared = ConfigCheck::Compared {
        scan_root: "/srv".to_owned(),
        home: "/h".to_owned(),
        diff: ProjectTreeDiff { unconfigured_projects: vec!["/srv/a".to_owned()], stale_projects: Vec::new() },
    };
    assert_eq!(
        project_config_warning(&compared, true).as_deref(),
        Some("Project tree differs from config: 1 new project. Run `hop config --root '/srv'` to refresh it.")
    );
    let scan = ConfigCheck::ScanFailed { scan_root: "/h".to_owned(), home: "/h".to_owned(), error: "denied".to_owned() };
    assert_eq!(
        project_config_warning(&scan, true).as_deref(),
        Some("Cannot check project tree against config: cannot scan /h: denied. Run `hop config` to refresh it.")
    );
    let unreadable = ConfigCheck::ConfigUnreadable { path: "/c".to_owned(), error: "bad".to_owned() };
    assert_eq!(
        project_config_warning(&unreadable, false).as_deref(),
        Some("Cannot check project config freshness: cannot read /c: bad.")
    );
}

#[test]
fn navigation_and_config_reports() {
    assert_eq!(
        no_projects_message(Some("/h/config.toml")),
        "No active projects found in /h/config.toml; edit active values or run hop config."
    );
    assert_eq!(no_projects_message(None), "No git projects found under the scan root.");
    assert_eq!(config_update_message("/h/c.toml", &vec![true, false, true]), "Updated /h/c.toml (2/3 active)");
}

#[test]
fn default_view_lists_sectors_with_positions() {
    let sectors = vec![Sector {
        label: "A".to_owned(),
        name: "work".to_owned(),
        above: "~/work/".to_owned(),
        paths: vec!["/home/alex/work/hop".to_owned(), "/home/alex/work/api".to_owned()],
    }];
    let lines = render(&sectors, false, "hop", "0.3.4");
    assert_eq!(
        lines,
        vec![
            "",
            "  * Hop (v0.3.4)",
            "",
            "  -------------- Projects --------------",
            "",
            "  A.  work (~/work/)",
            "      1) hop",
            "      2) api",
            "",
        ]
    );
}

#[test]
fn frequent_view_aligns_positions_and_counts() {
    let projects = vec![
        RankedProject { path: "/home/alex/work/hop".to_owned(), jumps: 12 },
        RankedProject { path: "/home/alex/api".to_owned(), jumps: 1 },
    ];
    let lines = render_frequent("/home/alex", &projects, false, "hop", "0.3.4");
    assert_eq!(
        lines,
        vec![
            "",
            "  * Hop (v0.3.4)",
            "",
            "  ----------- Frequent projects -----------",
            "",
            "  1) hop (~/work/) 12 jumps",
            "  2) api (~/)  1 jump",
            "",
        ]
    );
}

#[test]
fn prompt_steps_cancel_retry_or_select() {
    let sectors = vec![Sector {
        label: "A".to_owned(),
        name: "work".to_owned(),
        above: "~/work/".to_owned(),
        paths: vec!["/home/alex/work/hop".to_owned()],
    }];
    assert_eq!(sector_prompt_step(&sectors, ChoiceInput::Empty), PromptOutcome::Cancel);
    assert_eq!(
        sector_prompt_step(&sectors, ChoiceInput::Refused("bad selector".to_owned())),
        PromptOutcome::Retry("bad selector".to_owned())
    );
    assert_eq!(
        sector_prompt_step(&sectors, ChoiceInput::Parsed(Choice { sector_index: 0, project_index: 0 })),
        PromptOutcome::Select("/home/alex/work/hop".to_owned())
    );
    assert_eq!(
        sector_prompt_step(&sectors, ChoiceInput::Parsed(Choice { sector_index: 2, project_index: 0 })),
        PromptOutcome::Retry("No such sector".to_owned())
    );

    let projects = vec![RankedProject { path: "/work/favorite".to_owned(), jumps: 8 }];
    assert_eq!(frequent_prompt_step(&projects, ""), PromptOutcome::Cancel);
    assert_eq!(frequent_prompt_step(&projects, "1"), PromptOutcome::Select("/work/favorite".to_owned()));
    assert_eq!(
        frequent_prompt_step(&projects, "0"),
        PromptOutcome::Retry("project position starts at 1".to_owned())
    );

    assert_eq!(emit_action(true, true), EmitAction::Copy);
    assert_eq!(emit_action(false, true), EmitAction::ExplainInactiveBridge);
    assert_eq!(emit_action(false, false), EmitAction::Print);
}
