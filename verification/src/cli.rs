use vstd::prelude::*;

use crate::text::{chars_of, has_prefix, starts_with, str_is, suffix_from};

verus! {

/// What an invocation asks for.
#[derive(Debug, Clone, Copy, PartialEq, Eq, Structural)]
pub enum Command {
    Jump,
    List,
    Help,
    Version,
    ShellInit,
    Update,
    Config,
    RecordJump,
}

/// The parsed command line.
#[derive(Debug)]
pub struct Options {
    pub command: Command,
    pub root: Option<String>,
    pub target: Option<String>,
    pub copy_path: bool,
    pub frequent: bool,
    pub color: bool,
}

/// The command line as mathematical values.
pub struct ParsedArgs {
    pub command: Command,
    pub root: Option<Seq<char>>,
    pub target: Option<Seq<char>>,
    pub copy_path: bool,
    pub frequent: bool,
    pub color: bool,
}

pub open spec fn opt_view(o: Option<String>) -> Option<Seq<char>> {
    match o {
        Some(s) => Some(s@),
        None => None,
    }
}

impl View for Options {
    type V = ParsedArgs;

    open spec fn view(&self) -> ParsedArgs {
        ParsedArgs {
            command: self.command,
            root: opt_view(self.root),
            target: opt_view(self.target),
            copy_path: self.copy_path,
            frequent: self.frequent,
            color: self.color,
        }
    }
}

/// The state before any argument is read: jump mode, nothing chosen.
pub open spec fn initial_args(color: bool) -> ParsedArgs {
    ParsedArgs {
        command: Command::Jump,
        root: None,
        target: None,
        copy_path: false,
        frequent: false,
        color,
    }
}

pub open spec fn unexpected_argument(arg: Seq<char>) -> Seq<char> {
    "unexpected argument: "@ + arg
}

pub open spec fn unknown_argument(arg: Seq<char>) -> Seq<char> {
    "unknown argument: "@ + arg
}

/// A command word ("config", "list", "update") is refused once another command was chosen.
pub open spec fn with_command(st: ParsedArgs, arg: Seq<char>, command: Command) -> Result<ParsedArgs, Seq<char>> {
    if st.command != Command::Jump {
        Err(unexpected_argument(arg))
    } else {
        Ok(ParsedArgs { command, ..st })
    }
}

/// One step of the parse: reads the first of `rest` (and, for options with a value, the next),
/// and gives the state and the arguments still to read, or the error message.
pub open spec fn parse_step(st: ParsedArgs, rest: Seq<Seq<char>>) -> Result<(ParsedArgs, Seq<Seq<char>>), Seq<char>>
    recommends
        rest.len() > 0,
{
    let arg = rest[0];
    let tail = rest.drop_first();
    if arg == "-h"@ || arg == "--help"@ {
        Ok((ParsedArgs { command: Command::Help, ..st }, tail))
    } else if arg == "-v"@ || arg == "-V"@ || arg == "--version"@ {
        Ok((ParsedArgs { command: Command::Version, ..st }, tail))
    } else if arg == "--shell-init"@ {
        Ok((ParsedArgs { command: Command::ShellInit, ..st }, tail))
    } else if arg == "--copy-path"@ {
        Ok((ParsedArgs { copy_path: true, ..st }, tail))
    } else if arg == "--frequent"@ {
        Ok((ParsedArgs { frequent: true, ..st }, tail))
    } else if arg == "--record-jump"@ {
        if st.command != Command::Jump || st.target is Some {
            Err(unexpected_argument(arg))
        } else if tail.len() == 0 {
            Err("--record-jump requires a project path"@)
        } else {
            Ok((ParsedArgs { command: Command::RecordJump, target: Some(tail[0]), ..st }, tail.drop_first()))
        }
    } else if arg == "--no-color"@ {
        Ok((ParsedArgs { color: false, ..st }, tail))
    } else if arg == "--root"@ {
        if tail.len() == 0 {
            Err("--root requires a directory"@)
        } else {
            Ok((ParsedArgs { root: Some(tail[0]), ..st }, tail.drop_first()))
        }
    } else if has_prefix(arg, "--root="@) {
        let value = arg.skip("--root="@.len() as int);
        if value.len() == 0 {
            Err("--root requires a directory"@)
        } else {
            Ok((ParsedArgs { root: Some(value), ..st }, tail))
        }
    } else if arg.len() > 0 && arg[0] == '-' {
        Err(unknown_argument(arg))
    } else if arg == "config"@ && st.target is None {
        match with_command(st, arg, Command::Config) {
            Ok(next) => Ok((next, tail)),
            Err(e) => Err(e),
        }
    } else if arg == "list"@ && st.target is None {
        match with_command(st, arg, Command::List) {
            Ok(next) => Ok((next, tail)),
            Err(e) => Err(e),
        }
    } else if arg == "update"@ && st.target is None {
        match with_command(st, arg, Command::Update) {
            Ok(next) => Ok((next, tail)),
            Err(e) => Err(e),
        }
    } else if st.command == Command::List || st.command == Command::Update
        || st.command == Command::Config || st.command == Command::RecordJump || st.target is Some {
        Err(unexpected_argument(arg))
    } else {
        Ok((ParsedArgs { target: Some(arg), ..st }, tail))
    }
}

/// The result of parsing `rest` from state `st`: arguments are read left to right and the first
/// error ends the parse.
pub open spec fn parse_rest(st: ParsedArgs, rest: Seq<Seq<char>>) -> Result<ParsedArgs, Seq<char>>
    decreases rest.len(),
{
    if rest.len() == 0 {
        Ok(st)
    } else {
        match parse_step(st, rest) {
            Ok((next, remaining)) => if remaining.len() < rest.len() {
                parse_rest(next, remaining)
            } else {
                Ok(next)
            },
            Err(e) => Err(e),
        }
    }
}

/// The views of the arguments.
pub open spec fn args_view(args: Seq<String>) -> Seq<Seq<char>> {
    args.map_values(|a: String| a@)
}

/// What the command line `args` means, starting from jump mode with colors `color`.
pub open spec fn parse_args_spec(args: Seq<Seq<char>>, color: bool) -> Result<ParsedArgs, Seq<char>> {
    parse_rest(initial_args(color), args)
}

fn error_with(prefix: &str, arg: &str) -> (r: String)
    ensures
        r@ == prefix@ + arg@,
{
    let mut r = prefix.to_owned();
    r.append(arg);
    r
}

/// Reads the argument at `i` (and, for an option with a value, the one after it) on top of
/// state `st`: the next state and the index of the first argument not yet read, or the error.
fn parse_one(st: Options, args: &Vec<String>, i: usize) -> (r: Result<(Options, usize), String>)
    requires
        i < args@.len(),
    ensures
        match r {
            Ok((next, j)) => i < j <= args@.len() && parse_step(st@, args_view(args@).skip(i as int))
                == Ok::<(ParsedArgs, Seq<Seq<char>>), Seq<char>>((next@, args_view(args@).skip(j as int))),
            Err(message) => parse_step(st@, args_view(args@).skip(i as int))
                == Err::<(ParsedArgs, Seq<Seq<char>>), Seq<char>>(message@),
        },
{
    let ghost all = args_view(args@);
    let ghost rest = all.skip(i as int);
    assert(rest[0] == args@[i as int]@);
    assert(rest.drop_first() =~= all.skip(i + 1));
    let n = args.len();
    let arg = args[i].as_str();
    let mut next = st;
    if str_is(arg, "-h") || str_is(arg, "--help") {
        next.command = Command::Help;
        return Ok((next, i + 1));
    }
    if str_is(arg, "-v") || str_is(arg, "-V") || str_is(arg, "--version") {
        next.command = Command::Version;
        return Ok((next, i + 1));
    }
    if str_is(arg, "--shell-init") {
        next.command = Command::ShellInit;
        return Ok((next, i + 1));
    }
    if str_is(arg, "--copy-path") {
        next.copy_path = true;
        return Ok((next, i + 1));
    }
    if str_is(arg, "--frequent") {
        next.frequent = true;
        return Ok((next, i + 1));
    }
    if str_is(arg, "--record-jump") {
        if next.command != Command::Jump || next.target.is_some() {
            return Err(error_with("unexpected argument: ", arg));
        }
        if i + 1 >= n {
            return Err("--record-jump requires a project path".to_owned());
        }
        assert(rest.drop_first()[0] == args@[i + 1]@);
        assert(rest.drop_first().drop_first() =~= all.skip(i + 2));
        next.command = Command::RecordJump;
        next.target = Some(args[i + 1].clone());
        return Ok((next, i + 2));
    }
    if str_is(arg, "--no-color") {
        next.color = false;
        return Ok((next, i + 1));
    }
    if str_is(arg, "--root") {
        if i + 1 >= n {
            return Err("--root requires a directory".to_owned());
        }
        assert(rest.drop_first()[0] == args@[i + 1]@);
        assert(rest.drop_first().drop_first() =~= all.skip(i + 2));
        next.root = Some(args[i + 1].clone());
        return Ok((next, i + 2));
    }
    if starts_with(arg, "--root=") {
        let prefix_len = chars_of("--root=").len();
        let value = suffix_from(arg, prefix_len);
        if chars_of(value.as_str()).len() == 0 {
            return Err("--root requires a directory".to_owned());
        }
        next.root = Some(value);
        return Ok((next, i + 1));
    }
    let dash = starts_with(arg, "-");
    proof {
        reveal_strlit("-");
        if arg@.len() > 0 {
            assert(arg@.take(1)[0] == arg@[0]);
            if arg@[0] == '-' {
                assert(arg@.take(1) =~= "-"@);
            }
        }
    }
    if dash {
        return Err(error_with("unknown argument: ", arg));
    }
    if str_is(arg, "config") && next.target.is_none() {
        if next.command != Command::Jump {
            return Err(error_with("unexpected argument: ", arg));
        }
        next.command = Command::Config;
        return Ok((next, i + 1));
    }
    if str_is(arg, "list") && next.target.is_none() {
        if next.command != Command::Jump {
            return Err(error_with("unexpected argument: ", arg));
        }
        next.command = Command::List;
        return Ok((next, i + 1));
    }
    if str_is(arg, "update") && next.target.is_none() {
        if next.command != Command::Jump {
            return Err(error_with("unexpected argument: ", arg));
        }
        next.command = Command::Update;
        return Ok((next, i + 1));
    }
    if next.command == Command::List || next.command == Command::Update || next.command == Command::Config
        || next.command == Command::RecordJump || next.target.is_some() {
        return Err(error_with("unexpected argument: ", arg));
    }
    next.target = Some(arg.to_owned());
    Ok((next, i + 1))
}

/// Parses the command line (without the program name). `color` is the color setting before any
/// `--no-color`, which the caller reads from the environment.
pub fn parse_args(args: Vec<String>, color: bool) -> (r: Result<Options, String>)
    ensures
        match r {
            Ok(options) => parse_args_spec(args_view(args@), color) == Ok::<ParsedArgs, Seq<char>>(options@),
            Err(message) => parse_args_spec(args_view(args@), color) == Err::<ParsedArgs, Seq<char>>(message@),
        },
{
    let ghost all = args_view(args@);
    assert(all.skip(0) =~= all);
    let mut state = Options {
        command: Command::Jump,
        root: None,
        target: None,
        copy_path: false,
        frequent: false,
        color,
    };
    let n = args.len();
    let mut i: usize = 0;
    while i < n
        invariant
            n == args@.len(),
            all == args_view(args@),
            i <= n,
            parse_args_spec(all, color) == parse_rest(state@, all.skip(i as int)),
        decreases n - i,
    {
        match parse_one(state, &args, i) {
            Ok((next, j)) => {
                state = next;
                i = j;
            },
            Err(message) => {
                return Err(message);
            },
        }
    }
    assert(all.skip(n as int).len() == 0);
    Ok(state)
}

/// What every state of the parse keeps: a `list`, `config` or `update` command carries no
/// target, a jump recording always carries the project path, and colors once off stay off.
pub open spec fn parse_state_consistent(st: ParsedArgs, color: bool) -> bool {
    &&& (st.command == Command::List || st.command == Command::Config || st.command == Command::Update)
        ==> st.target is None
    &&& st.command == Command::RecordJump ==> st.target is Some
    &&& !color ==> !st.color
}

proof fn lemma_step_consistent(st: ParsedArgs, rest: Seq<Seq<char>>, color: bool)
    requires
        rest.len() > 0,
        parse_state_consistent(st, color),
    ensures
        parse_step(st, rest) matches Ok((next, remaining)) ==> parse_state_consistent(next, color)
            && remaining.len() < rest.len(),
{
}

proof fn lemma_rest_consistent(st: ParsedArgs, rest: Seq<Seq<char>>, color: bool)
    requires
        parse_state_consistent(st, color),
    ensures
        parse_rest(st, rest) matches Ok(result) ==> parse_state_consistent(result, color),
    decreases rest.len(),
{
    if rest.len() > 0 {
        lemma_step_consistent(st, rest, color);
        match parse_step(st, rest) {
            Ok((next, remaining)) => {
                lemma_rest_consistent(next, remaining, color);
            },
            Err(_) => {},
        }
    }
}

/// Whatever the command line: `list`, `config` and `update` never come with a target (so the
/// list view never selects a project), `--record-jump` always comes with the path to record,
/// and colors turned off before parsing stay off.
pub proof fn parsed_options_are_consistent(args: Seq<Seq<char>>, color: bool)
    ensures
        parse_args_spec(args, color) matches Ok(options) ==> parse_state_consistent(options, color),
{
    lemma_rest_consistent(initial_args(color), args, color);
}

proof fn lemma_step_extends(st: ParsedArgs, p: Seq<Seq<char>>, r: Seq<Seq<char>>)
    requires
        p.len() > 0,
        parse_step(st, p) is Ok,
    ensures
        parse_step(st, p) matches Ok((next, remaining)) ==> parse_step(st, p + r)
            == Ok::<(ParsedArgs, Seq<Seq<char>>), Seq<char>>((next, remaining + r)),
{
    let pr = p + r;
    assert(pr[0] == p[0]);
    assert(pr.drop_first() =~= p.drop_first() + r);
    if p.drop_first().len() > 0 {
        assert(pr.drop_first()[0] == p.drop_first()[0]);
        assert(pr.drop_first().drop_first() =~= p.drop_first().drop_first() + r);
    }
}

proof fn lemma_rest_extends(st: ParsedArgs, p: Seq<Seq<char>>, r: Seq<Seq<char>>)
    requires
        parse_rest(st, p) is Ok,
    ensures
        parse_rest(st, p) matches Ok(done) ==> parse_rest(st, p + r) == parse_rest(done, r),
    decreases p.len(),
{
    if p.len() == 0 {
        assert(p + r =~= r);
    } else {
        lemma_step_extends(st, p, r);
        match parse_step(st, p) {
            Ok((next, remaining)) => {
                if remaining.len() < p.len() {
                    lemma_rest_extends(next, remaining, r);
                    assert((p + r).len() > 0);
                    assert((remaining + r).len() < (p + r).len());
                }
            },
            Err(_) => {},
        }
    }
}

/// Whether `arg` is an option the parser knows by its exact spelling.
pub open spec fn is_known_option(arg: Seq<char>) -> bool {
    ||| arg == "-h"@
    ||| arg == "--help"@
    ||| arg == "-v"@
    ||| arg == "-V"@
    ||| arg == "--version"@
    ||| arg == "--shell-init"@
    ||| arg == "--copy-path"@
    ||| arg == "--frequent"@
    ||| arg == "--record-jump"@
    ||| arg == "--no-color"@
    ||| arg == "--root"@
}

proof fn lemma_root_forms_step(st: ParsedArgs, value: Seq<char>, q: Seq<Seq<char>>)
    requires
        value.len() > 0,
    ensures
        parse_rest(st, seq!["--root"@, value] + q) == parse_rest(ParsedArgs { root: Some(value), ..st }, q),
        parse_rest(st, seq!["--root="@ + value] + q) == parse_rest(ParsedArgs { root: Some(value), ..st }, q),
{
    reveal_strlit("-h");
    reveal_strlit("--help");
    reveal_strlit("-v");
    reveal_strlit("-V");
    reveal_strlit("--version");
    reveal_strlit("--shell-init");
    reveal_strlit("--copy-path");
    reveal_strlit("--frequent");
    reveal_strlit("--record-jump");
    reveal_strlit("--no-color");
    reveal_strlit("--root");
    reveal_strlit("--root=");
    let joined = "--root="@ + value;
    assert(joined[6] == '=');
    assert(joined.len() >= 8);
    assert(joined.take(7) =~= "--root="@);
    assert(joined.skip(7) =~= value);
    assert("--root"@[2] != "--help"@[2]);
    let a = seq!["--root"@, value] + q;
    assert(a[0] == "--root"@);
    assert(a.drop_first()[0] == value);
    assert(a.drop_first().drop_first() =~= q);
    let b = seq![joined] + q;
    assert(b[0] == joined);
    assert(b.drop_first() =~= q);
    assert(joined != "--version"@) by { assert(joined[6] != "--version"@[6]); }
    assert(joined != "--shell-init"@) by { assert(joined[6] != "--shell-init"@[6]); }
    assert(joined != "--copy-path"@) by { assert(joined[6] != "--copy-path"@[6]); }
    assert(joined != "--frequent"@) by { assert(joined[6] != "--frequent"@[6]); }
    assert(joined != "--record-jump"@) by { assert(joined[6] != "--record-jump"@[6]); }
    assert(joined != "--no-color"@) by { assert(joined[6] != "--no-color"@[6]); }
}

/// `--root <dir>` and `--root=<dir>` mean the same: after any arguments that parse, and
/// whatever follows, both spellings give the same result for a non-empty directory.
pub proof fn root_spellings_agree(p: Seq<Seq<char>>, value: Seq<char>, q: Seq<Seq<char>>, color: bool)
    requires
        parse_args_spec(p, color) is Ok,
        value.len() > 0,
    ensures
        parse_args_spec(p + (seq!["--root"@, value] + q), color)
            == parse_args_spec(p + (seq!["--root="@ + value] + q), color),
{
    lemma_rest_extends(initial_args(color), p, seq!["--root"@, value] + q);
    lemma_rest_extends(initial_args(color), p, seq!["--root="@ + value] + q);
    match parse_args_spec(p, color) {
        Ok(st) => {
            lemma_root_forms_step(st, value, q);
        },
        Err(_) => {},
    }
}

/// An option the parser does not know is refused wherever it stands after arguments that parse,
/// whatever follows it, with `unknown argument: <option>`.
pub proof fn unknown_option_is_refused(p: Seq<Seq<char>>, arg: Seq<char>, q: Seq<Seq<char>>, color: bool)
    requires
        parse_args_spec(p, color) is Ok,
        arg.len() > 0,
        arg[0] == '-',
        !is_known_option(arg),
        !has_prefix(arg, "--root="@),
    ensures
        parse_args_spec(p + (seq![arg] + q), color) == Err::<ParsedArgs, Seq<char>>(unknown_argument(arg)),
{
    lemma_rest_extends(initial_args(color), p, seq![arg] + q);
    let a = seq![arg] + q;
    assert(a[0] == arg);
}

proof fn lemma_single_step(st: ParsedArgs, arg: Seq<char>, next: ParsedArgs)
    requires
        parse_step(st, seq![arg]) == Ok::<(ParsedArgs, Seq<Seq<char>>), Seq<char>>((next, seq![arg].drop_first())),
    ensures
        parse_rest(st, seq![arg]) == Ok::<ParsedArgs, Seq<char>>(next),
{
    assert(seq![arg].drop_first() =~= Seq::<Seq<char>>::empty());
    assert(parse_rest(next, Seq::<Seq<char>>::empty()) == Ok::<ParsedArgs, Seq<char>>(next));
}

proof fn lemma_literals_distinct()
    ensures
        "-v"@ != "-h"@,
        "-V"@ != "-h"@,
        "-V"@ != "-v"@,
        "--version"@ != "--help"@,
        "--shell-init"@ != "--help"@,
        "--shell-init"@ != "--version"@,
        "--copy-path"@ != "--help"@,
        "--copy-path"@ != "--version"@,
        "--copy-path"@ != "--shell-init"@,
        "--frequent"@ != "--help"@,
        "--frequent"@ != "--version"@,
        "--frequent"@ != "--shell-init"@,
        "--frequent"@ != "--copy-path"@,
        "--no-color"@ != "--help"@,
        "--no-color"@ != "--version"@,
        "--no-color"@ != "--shell-init"@,
        "--no-color"@ != "--copy-path"@,
        "--no-color"@ != "--frequent"@,
        "--no-color"@ != "--record-jump"@,
        "--help"@ != "-h"@,
        "--help"@ != "-v"@,
        "--help"@ != "-V"@,
        "--version"@ != "-h"@,
        "--version"@ != "-v"@,
        "--version"@ != "-V"@,
        "--shell-init"@ != "-h"@,
        "--shell-init"@ != "-v"@,
        "--shell-init"@ != "-V"@,
        "--copy-path"@ != "-h"@,
        "--copy-path"@ != "-v"@,
        "--copy-path"@ != "-V"@,
        "--frequent"@ != "-h"@,
        "--frequent"@ != "-v"@,
        "--frequent"@ != "-V"@,
        "--no-color"@ != "-h"@,
        "--no-color"@ != "-v"@,
        "--no-color"@ != "-V"@,
{
    reveal_strlit("-h");
    reveal_strlit("--help");
    reveal_strlit("-v");
    reveal_strlit("-V");
    reveal_strlit("--version");
    reveal_strlit("--shell-init");
    reveal_strlit("--copy-path");
    reveal_strlit("--frequent");
    reveal_strlit("--record-jump");
    reveal_strlit("--no-color");
    reveal_strlit("--root");
    reveal_strlit("--root=");
    assert("-h"@.len() == 2);
    assert("--help"@.len() == 6);
    assert("-v"@.len() == 2);
    assert("-V"@.len() == 2);
    assert("--version"@.len() == 9);
    assert("--shell-init"@.len() == 12);
    assert("--copy-path"@.len() == 11);
    assert("--frequent"@.len() == 10);
    assert("--record-jump"@.len() == 13);
    assert("--no-color"@.len() == 10);
    assert("-v"@[1] != "-h"@[1]);
    assert("-V"@[1] != "-h"@[1]);
    assert("-V"@[1] != "-v"@[1]);
    assert("--frequent"@[2] != "--no-color"@[2]);
}

proof fn lemma_flag_step(st: ParsedArgs, arg: Seq<char>)
    ensures
        (arg == "-h"@ || arg == "--help"@) ==> parse_rest(st, seq![arg])
            == Ok::<ParsedArgs, Seq<char>>(ParsedArgs { command: Command::Help, ..st }),
        (arg == "-v"@ || arg == "-V"@ || arg == "--version"@) ==> parse_rest(st, seq![arg])
            == Ok::<ParsedArgs, Seq<char>>(ParsedArgs { command: Command::Version, ..st }),
        arg == "--shell-init"@ ==> parse_rest(st, seq![arg])
            == Ok::<ParsedArgs, Seq<char>>(ParsedArgs { command: Command::ShellInit, ..st }),
        arg == "--copy-path"@ ==> parse_rest(st, seq![arg])
            == Ok::<ParsedArgs, Seq<char>>(ParsedArgs { copy_path: true, ..st }),
        arg == "--frequent"@ ==> parse_rest(st, seq![arg])
            == Ok::<ParsedArgs, Seq<char>>(ParsedArgs { frequent: true, ..st }),
        arg == "--no-color"@ ==> parse_rest(st, seq![arg])
            == Ok::<ParsedArgs, Seq<char>>(ParsedArgs { color: false, ..st }),
{
    lemma_literals_distinct();
    let a = seq![arg];
    assert(a[0] == arg);
    if arg == "-h"@ || arg == "--help"@ {
        lemma_single_step(st, arg, ParsedArgs { command: Command::Help, ..st });
    } else if arg == "-v"@ || arg == "-V"@ || arg == "--version"@ {
        lemma_single_step(st, arg, ParsedArgs { command: Command::Version, ..st });
    } else if arg == "--shell-init"@ {
        lemma_single_step(st, arg, ParsedArgs { command: Command::ShellInit, ..st });
    } else if arg == "--copy-path"@ {
        lemma_single_step(st, arg, ParsedArgs { copy_path: true, ..st });
    } else if arg == "--frequent"@ {
        lemma_single_step(st, arg, ParsedArgs { frequent: true, ..st });
    } else if arg == "--no-color"@ {
        lemma_single_step(st, arg, ParsedArgs { color: false, ..st });
    }
}

/// Each flag does what its name says, after any arguments that parse: `-h`/`--help` ask for
/// help, `-v`/`-V`/`--version` for the version, `--shell-init` for the shell bridge;
/// `--copy-path`, `--frequent` and `--no-color` set their setting; nothing else changes.
pub proof fn flags_select_their_meaning(p: Seq<Seq<char>>, arg: Seq<char>, color: bool)
    requires
        parse_args_spec(p, color) is Ok,
    ensures
        parse_args_spec(p, color) matches Ok(st) ==> {
            &&& (arg == "-h"@ || arg == "--help"@) ==> parse_args_spec(p.push(arg), color)
                == Ok::<ParsedArgs, Seq<char>>(ParsedArgs { command: Command::Help, ..st })
            &&& (arg == "-v"@ || arg == "-V"@ || arg == "--version"@) ==> parse_args_spec(p.push(arg), color)
                == Ok::<ParsedArgs, Seq<char>>(ParsedArgs { command: Command::Version, ..st })
            &&& arg == "--shell-init"@ ==> parse_args_spec(p.push(arg), color)
                == Ok::<ParsedArgs, Seq<char>>(ParsedArgs { command: Command::ShellInit, ..st })
            &&& arg == "--copy-path"@ ==> parse_args_spec(p.push(arg), color)
                == Ok::<ParsedArgs, Seq<char>>(ParsedArgs { copy_path: true, ..st })
            &&& arg == "--frequent"@ ==> parse_args_spec(p.push(arg), color)
                == Ok::<ParsedArgs, Seq<char>>(ParsedArgs { frequent: true, ..st })
            &&& arg == "--no-color"@ ==> parse_args_spec(p.push(arg), color)
                == Ok::<ParsedArgs, Seq<char>>(ParsedArgs { color: false, ..st })
        },
{
    lemma_rest_extends(initial_args(color), p, seq![arg]);
    assert(p + seq![arg] =~= p.push(arg));
    match parse_args_spec(p, color) {
        Ok(st) => {
            lemma_flag_step(st, arg);
        },
        Err(_) => {},
    }
}

/// The version and help flags on their own: `hop -v`, `hop -V` and `hop --version` ask for the
/// version, `hop -h` and `hop --help` for help, with everything else as at the start.
pub proof fn lone_flags_select_version_or_help(arg: Seq<char>, color: bool)
    ensures
        (arg == "-v"@ || arg == "-V"@ || arg == "--version"@) ==> parse_args_spec(seq![arg], color)
            == Ok::<ParsedArgs, Seq<char>>(ParsedArgs { command: Command::Version, ..initial_args(color) }),
        (arg == "-h"@ || arg == "--help"@) ==> parse_args_spec(seq![arg], color)
            == Ok::<ParsedArgs, Seq<char>>(ParsedArgs { command: Command::Help, ..initial_args(color) }),
{
    lemma_flag_step(initial_args(color), arg);
}

} // verus!
