//! The verified core of `hop`, a project navigator for shells: command-line parsing, the
//! project views and their selectors, shell and curl quoting, the shell bridge, and the
//! decisions of the config check and the self-update. The executable around it (terminal,
//! files, processes and the project library) lives in `app/`.

pub mod text;
pub mod cli;
pub mod quote;
pub mod select;
pub mod prompt;
pub mod paths;
pub mod render;
pub mod messages;
pub mod release;
pub mod shell;
pub mod update;
