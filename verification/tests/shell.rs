use hop_cli::paths::{cli_home_shortcut_path_for_home, installation_home, shell_activation_command};
use hop_cli::quote::{curl_config_quote, shell_quote};
use hop_cli::shell::shell_init;

#[test]
fn shell_init_removes_legacy_j_and_wraps_only_hop() {
    let init = shell_init("/opt/hop home/bin/hop");

    assert!(init.contains("_hop_bin_dir='/opt/hop home/bin'"));
    assert!(init.contains("unalias j"));
    assert!(init.contains("unalias hop"));
    assert!(init.contains("unfunction j"));
    assert!(init.contains("unfunction hop"));
    assert!(init.contains("unset -f j"));
    assert!(init.contains("unset -f hop"));
    assert!(init.contains("function hop"));
    assert!(!init.contains("\nfunction j {"));
    assert!(!init.contains("_hop_dispatch"));
    assert!(!init.contains("for arg in"));
    assert!(init.contains("command '/opt/hop home/bin/hop' \"$@\""));
    assert!(init.contains("builtin cd -- \"$destination\""));
    assert!(init.contains(
        "command '/opt/hop home/bin/hop' --record-jump \"$destination\" --no-color || true"
    ));
    assert!(init.contains("return \"$exit_status\""));
    assert!(init.contains("invalid destination"));
}

#[test]
fn shell_init_for_a_bare_binary_name_uses_an_empty_directory() {
    let init = shell_init("hop");
    assert!(init.starts_with("# x-cli-hop shell bridge\n_hop_bin_dir=''\n"));
    assert!(init.ends_with("command 'hop' --record-jump \"$destination\" --no-color || true\n}"));
}

#[test]
fn shell_quote_handles_apostrophes() {
    assert_eq!(shell_quote("/tmp/alex's/hop"), "'/tmp/alex'\"'\"'s/hop'");
}

#[test]
fn shell_quote_of_plain_and_empty_values() {
    assert_eq!(shell_quote(""), "''");
    assert_eq!(shell_quote("/srv"), "'/srv'");
    assert_eq!(shell_quote("''"), "''\"'\"''\"'\"''");
}

#[test]
fn curl_config_quote_escapes_backslashes_then_quotes() {
    assert_eq!(curl_config_quote(r#"a\b"c"#), r#"a\\b\"c"#);
    assert_eq!(curl_config_quote("plain"), "plain");
}

#[test]
fn installation_home_supports_legacy_and_bin_layouts() {
    assert_eq!(
        installation_home("/home/alex/.x-cli-hop/hop").as_deref(),
        Some("/home/alex/.x-cli-hop"),
    );
    assert_eq!(
        installation_home("/home/alex/.x-cli-hop/bin/hop").as_deref(),
        Some("/home/alex/.x-cli-hop"),
    );
    assert_eq!(installation_home("/"), None);
}

#[test]
fn activation_command_sources_the_installed_bridge() {
    assert_eq!(
        shell_activation_command(Some("/home/alex/.x-cli-hop/bin/hop")),
        ". '/home/alex/.x-cli-hop/init.zsh'"
    );
    assert_eq!(shell_activation_command(None), ". \"$HOME/.x-cli-hop/init.zsh\"");
}

#[test]
fn cli_home_shortcut_accepts_literal_and_shell_expanded_home() {
    let home = "/home/alex";

    assert_eq!(
        cli_home_shortcut_path_for_home("~", home).as_deref(),
        Some("/home/alex/.x-cli-hop")
    );
    assert_eq!(
        cli_home_shortcut_path_for_home("/home/alex", home).as_deref(),
        Some("/home/alex/.x-cli-hop")
    );
    assert_eq!(cli_home_shortcut_path_for_home("A1", home), None);
}
