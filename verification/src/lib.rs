//! The core of a chat bot: it finds the command that a message names, holds
//! the command to its arity and its checks, and says what is to be reported
//! of the outcome. Beside the core stand the computations of the commands
//! themselves: what is asked of the outside services and what is made of
//! their answers.
//!
//! Nothing here reads or sends anything. The caller hands in texts and plain
//! values and carries out what comes back.
//!
//! Three outside crates are called, each behind functions whose contracts
//! are taken on trust: `regex` in `pattern`, `chrono` in `timefmt` and
//! `serde_json` in `json`.

pub mod checks;
pub mod commands;
pub mod cursor;
pub mod dispatch;
pub mod distance;
pub mod embed;
pub mod help;
pub mod json;
pub mod pattern;
pub mod registry;
pub mod report;
pub mod text;
pub mod timefmt;
pub mod util;
