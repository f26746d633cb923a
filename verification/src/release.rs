use vstd::prelude::*;

use crate::quote::{curl_config_quote, curl_escape};
use crate::cli::opt_view;
use crate::render::{cat, lines_view};
use crate::text::{chars_of, string_of, str_is, trim, trim_chars};

verus! {

/// The release archive built for an operating system and a CPU architecture, if there is one.
pub open spec fn release_asset_spec(os: Seq<char>, arch: Seq<char>) -> Option<Seq<char>> {
    if os == "linux"@ && arch == "x86_64"@ {
        Some("hop-linux-x86_64.tar.gz"@)
    } else if os == "linux"@ && arch == "aarch64"@ {
        Some("hop-linux-aarch64.tar.gz"@)
    } else if os == "macos"@ && arch == "x86_64"@ {
        Some("hop-macos-x86_64.tar.gz"@)
    } else if os == "macos"@ && arch == "aarch64"@ {
        Some("hop-macos-aarch64.tar.gz"@)
    } else {
        None
    }
}

/// The release archive for `os` and `arch`, as `std::env::consts` names them; Linux and macOS
/// on x86_64 and aarch64 are supported.
pub fn release_asset_name_for(os: &str, arch: &str) -> (r: Option<&'static str>)
    ensures
        match r {
            Some(asset) => release_asset_spec(os@, arch@) == Some(asset@),
            None => release_asset_spec(os@, arch@) is None,
        },
{
    let linux = str_is(os, "linux");
    let macos = str_is(os, "macos");
    let x86_64 = str_is(arch, "x86_64");
    let aarch64 = str_is(arch, "aarch64");
    if linux && x86_64 {
        Some("hop-linux-x86_64.tar.gz")
    } else if linux && aarch64 {
        Some("hop-linux-aarch64.tar.gz")
    } else if macos && x86_64 {
        Some("hop-macos-x86_64.tar.gz")
    } else if macos && aarch64 {
        Some("hop-macos-aarch64.tar.gz")
    } else {
        None
    }
}

/// The curl config that downloads `url` to `destination` with the GitHub token `token`; every
/// value is quoted so that curl reads it back unchanged.
pub open spec fn curl_config_spec(url: Seq<char>, destination: Seq<char>, token: Seq<char>) -> Seq<char> {
    "fail\nshow-error\nsilent\nlocation\nurl = \""@ + curl_escape(url) + "\"\noutput = \""@ + curl_escape(destination)
        + "\"\nheader = \"Authorization: Bearer "@ + curl_escape(token) + "\"\n"@
}

/// The curl config (read by `curl -K -`) of an authenticated download; the token goes to curl on
/// its standard input, not on its command line.
pub fn authenticated_curl_config(url: &str, destination: &str, token: &str) -> (r: String)
    ensures
        r@ == curl_config_spec(url@, destination@, token@),
{
    cat(cat(cat(cat(cat(cat("fail\nshow-error\nsilent\nlocation\nurl = \"".to_owned(), curl_config_quote(url).as_str()),
        "\"\noutput = \""), curl_config_quote(destination).as_str()), "\"\nheader = \"Authorization: Bearer "),
        curl_config_quote(token).as_str()), "\"\n")
}

/// What the stored token file holding `contents` gives: no token when it is blank, the token
/// without surrounding white space, or an error when a line break remains inside it.
pub open spec fn stored_update_token_spec(contents: Seq<char>) -> Result<Option<Seq<char>>, Seq<char>> {
    let token = trim(contents);
    if token.len() == 0 {
        Ok(None)
    } else if token.contains('\r') || token.contains('\n') {
        Err("Stored GitHub token is invalid; rerun the installer with GH_INSTALLER_TOKEN."@)
    } else {
        Ok(Some(token))
    }
}

/// The GitHub token stored in the installation's token file, given the file's contents.
pub fn stored_update_token(contents: &str) -> (r: Result<Option<String>, String>)
    ensures
        match r {
            Ok(Some(token)) => stored_update_token_spec(contents@) == Ok::<Option<Seq<char>>, Seq<char>>(Some(token@)),
            Ok(None) => stored_update_token_spec(contents@) == Ok::<Option<Seq<char>>, Seq<char>>(None),
            Err(message) => stored_update_token_spec(contents@) == Err::<Option<Seq<char>>, Seq<char>>(message@),
        },
{
    let token = trim_chars(&chars_of(contents));
    if token.len() == 0 {
        return Ok(None);
    }
    let n = token.len();
    let mut i: usize = 0;
    while i < n
        invariant
            n == token@.len(),
            token@ == trim(contents@),
            i <= n,
            forall|j: int| 0 <= j < i ==> token@[j] != '\r' && token@[j] != '\n',
        decreases n - i,
    {
        if token[i] == '\r' || token[i] == '\n' {
            assert(token@.contains(token@[i as int]));
            return Err("Stored GitHub token is invalid; rerun the installer with GH_INSTALLER_TOKEN.".to_owned());
        }
        i = i + 1;
    }
    Ok(Some(string_of(&token)))
}

/// The commands a release download may run.
#[derive(Debug, Clone, Copy, PartialEq, Eq, Structural)]
pub enum DownloadCommand {
    /// `curl --version`, to learn whether curl can be run at all.
    CurlVersion,
    /// `curl -K -`, reading an authenticated download's config on standard input.
    CurlConfig,
    /// `curl -fsSL <url> -o <destination>`.
    CurlPlain,
    /// `wget -qO <destination> <url>`.
    Wget,
}

/// What a release download does next.
#[derive(Debug, Clone, PartialEq, Eq)]
pub enum DownloadNext {
    /// Run `program` with `args`, writing `stdin` to its standard input where there is one, and
    /// report whether it succeeded.
    Run { command: DownloadCommand, program: String, args: Vec<String>, stdin: Option<String> },
    /// The archive is downloaded.
    Succeeded,
    /// The download failed with this message.
    Failed(String),
}

pub open spec fn args_of(args: Vec<String>) -> Seq<Seq<char>> {
    lines_view(args@)
}

/// Whether `next` runs `command` as `program` with `args` and `stdin`.
pub open spec fn runs(
    next: DownloadNext,
    command: DownloadCommand,
    program: Seq<char>,
    args: Seq<Seq<char>>,
    stdin: Option<Seq<char>>,
) -> bool {
    next matches DownloadNext::Run { command: c, program: p, args: a, stdin: s } && c == command && p@ == program
        && args_of(a) == args && opt_view(s) == stdin
}

/// Whether `next` is the failure with `message`.
pub open spec fn fails_with(next: DownloadNext, message: Seq<char>) -> bool {
    next matches DownloadNext::Failed(m) && m@ == message
}

pub open spec fn curl_missing_message() -> Seq<char> {
    "Authenticated updates require curl; install curl and retry."@
}

pub open spec fn token_download_failed_message() -> Seq<char> {
    "Could not download latest release with stored GitHub token; rerun the installer with GH_INSTALLER_TOKEN or check token access."@
}

pub open spec fn download_failed_message() -> Seq<char> {
    "Could not download latest release; install curl or wget."@
}

/// The next move of a release download of `url` to `destination`, given the GitHub token if
/// one is stored and the command that ran last with whether it succeeded (for `CurlVersion`:
/// whether curl could be started). With a token, curl is checked and then reads the
/// authenticated config, which alone carries the token, on its standard input; without one,
/// plain curl is tried, then wget.
pub fn download_next(url: &str, destination: &str, token: Option<&str>, last: Option<(DownloadCommand, bool)>) -> (r: DownloadNext)
    ensures
        match last {
            None => match token {
                Some(t) => runs(r, DownloadCommand::CurlVersion, "curl"@, seq!["--version"@], None),
                None => runs(r, DownloadCommand::CurlPlain, "curl"@, seq!["-fsSL"@, url@, "-o"@, destination@], None),
            },
            Some((DownloadCommand::CurlVersion, true)) => match token {
                Some(t) => runs(r, DownloadCommand::CurlConfig, "curl"@, seq!["-K"@, "-"@],
                    Some(curl_config_spec(url@, destination@, t@))),
                None => fails_with(r, curl_missing_message()),
            },
            Some((DownloadCommand::CurlVersion, false)) => fails_with(r, curl_missing_message()),
            Some((DownloadCommand::CurlConfig, ok)) => if ok {
                r == DownloadNext::Succeeded
            } else {
                fails_with(r, token_download_failed_message())
            },
            Some((DownloadCommand::CurlPlain, ok)) => if ok {
                r == DownloadNext::Succeeded
            } else {
                runs(r, DownloadCommand::Wget, "wget"@, seq!["-qO"@, destination@, url@], None)
            },
            Some((DownloadCommand::Wget, ok)) => if ok {
                r == DownloadNext::Succeeded
            } else {
                fails_with(r, download_failed_message())
            },
        },
{
    match last {
        None => match token {
            Some(_) => {
                let args = vec!["--version".to_owned()];
                assert(args_of(args) =~= seq!["--version"@]);
                DownloadNext::Run { command: DownloadCommand::CurlVersion, program: "curl".to_owned(), args, stdin: None }
            },
            None => {
                let args = vec!["-fsSL".to_owned(), url.to_owned(), "-o".to_owned(), destination.to_owned()];
                assert(args_of(args) =~= seq!["-fsSL"@, url@, "-o"@, destination@]);
                DownloadNext::Run { command: DownloadCommand::CurlPlain, program: "curl".to_owned(), args, stdin: None }
            },
        },
        Some((DownloadCommand::CurlVersion, true)) => match token {
            Some(t) => {
                let args = vec!["-K".to_owned(), "-".to_owned()];
                assert(args_of(args) =~= seq!["-K"@, "-"@]);
                DownloadNext::Run {
                    command: DownloadCommand::CurlConfig,
                    program: "curl".to_owned(),
                    args,
                    stdin: Some(authenticated_curl_config(url, destination, t)),
                }
            },
            None => DownloadNext::Failed("Authenticated updates require curl; install curl and retry.".to_owned()),
        },
        Some((DownloadCommand::CurlVersion, false)) => DownloadNext::Failed(
            "Authenticated updates require curl; install curl and retry.".to_owned(),
        ),
        Some((DownloadCommand::CurlConfig, ok)) => if ok {
            DownloadNext::Succeeded
        } else {
            DownloadNext::Failed(
                "Could not download latest release with stored GitHub token; rerun the installer with GH_INSTALLER_TOKEN or check token access.".to_owned(),
            )
        },
        Some((DownloadCommand::CurlPlain, ok)) => if ok {
            DownloadNext::Succeeded
        } else {
            let args = vec!["-qO".to_owned(), destination.to_owned(), url.to_owned()];
            assert(args_of(args) =~= seq!["-qO"@, destination@, url@]);
            DownloadNext::Run { command: DownloadCommand::Wget, program: "wget".to_owned(), args, stdin: None }
        },
        Some((DownloadCommand::Wget, ok)) => if ok {
            DownloadNext::Succeeded
        } else {
            DownloadNext::Failed("Could not download latest release; install curl or wget.".to_owned())
        },
    }
}

} // verus!
