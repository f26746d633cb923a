use vstd::prelude::*;

use crate::paths::{path_parent, parent_dir_or_current};
use crate::quote::{shell_quote, shell_quote_spec};
use crate::render::cat;

verus! {

pub const SHELL_INIT_HEAD: &'static str = "# x-cli-hop shell bridge\n_hop_bin_dir=";
pub const SHELL_INIT_BODY: &'static str = "\ncase \":$PATH:\" in\n    *\":$_hop_bin_dir:\"*) ;;\n    *) export PATH=\"$_hop_bin_dir:$PATH\" ;;\nesac\nunset _hop_bin_dir\n\nunalias j 2>/dev/null || true\nunalias hop 2>/dev/null || true\nif [ -n \"${ZSH_VERSION:-}\" ]; then\n    unfunction j 2>/dev/null || true\n    unfunction hop 2>/dev/null || true\nelse\n    unset -f j 2>/dev/null || true\n    unset -f hop 2>/dev/null || true\nfi\n\nfunction hop {\n    local destination\n    local exit_status\n    destination=\"$(command ";
pub const SHELL_INIT_AFTER_CALL: &'static str = " \"$@\")\"\n    exit_status=$?\n    if [ \"$exit_status\" -ne 0 ]; then\n        return \"$exit_status\"\n    fi\n    if [ -z \"$destination\" ]; then\n        return 0\n    fi\n    if [ ! -d \"$destination\" ]; then\n        printf '%s\\n' \"hop: invalid destination: $destination\" >&2\n        return 1\n    fi\n    builtin cd -- \"$destination\" || return $?\n    command ";
pub const SHELL_INIT_TAIL: &'static str = " --record-jump \"$destination\" --no-color || true\n}";

/// The shell bridge for the binary at `binary`, which lies in `binary_dir`: it puts the directory
/// on `PATH` once, removes older `j`/`hop` aliases and functions, and defines `hop`, which runs
/// the binary, changes to the directory it prints, and records the jump after the change.
pub open spec fn shell_bridge_spec(binary: Seq<char>, binary_dir: Seq<char>) -> Seq<char> {
    SHELL_INIT_HEAD@ + shell_quote_spec(binary_dir) + SHELL_INIT_BODY@ + shell_quote_spec(binary)
        + SHELL_INIT_AFTER_CALL@ + shell_quote_spec(binary) + SHELL_INIT_TAIL@
}

/// The shell bridge for the binary at `binary` in the directory `binary_dir`.
pub fn shell_bridge(binary: &str, binary_dir: &str) -> (r: String)
    ensures
        r@ == shell_bridge_spec(binary@, binary_dir@),
{
    let quoted_binary = shell_quote(binary);
    cat(cat(cat(cat(cat(cat(SHELL_INIT_HEAD.to_owned(), shell_quote(binary_dir).as_str()), SHELL_INIT_BODY),
        quoted_binary.as_str()), SHELL_INIT_AFTER_CALL), quoted_binary.as_str()), SHELL_INIT_TAIL)
}

/// The directory of a binary, for the bridge: its parent, or `.` where it has none.
pub open spec fn binary_dir_spec(binary: Seq<char>) -> Seq<char> {
    match path_parent(binary) {
        Some(dir) => dir,
        None => "."@,
    }
}

/// The shell bridge that `hop --shell-init` prints for the binary at `binary`.
pub fn shell_init(binary: &str) -> (r: String)
    ensures
        r@ == shell_bridge_spec(binary@, binary_dir_spec(binary@)),
{
    let dir = parent_dir_or_current(binary);
    shell_bridge(binary, dir.as_str())
}

} // verus!
