# hop_cli

The verified core of `hop`, a small project navigator for shells. `src/` holds the logic of the
`hop` executable with Verus contracts: command-line parsing (`cli`), the default and frequent
project views, how their selectors pick a project and what the prompts do with a line of input
(`render`, `select`, `prompt`, which also plans navigation and clipboard copies), shell and curl
quoting with read-back proofs (`quote`), paths (`paths`), the shell bridge (`shell`), the
messages of the config freshness check (`messages`), release assets, the stored update token and the download steps
(`release`), and the step-by-step decisions of the self-update (`update`).

`app/` is the executable around it: terminal and file I/O, processes, and the calls into the
project library `hop` (discovery, config, history, grouping, ranking and selector parsing),
whose source is not part of this crate.
