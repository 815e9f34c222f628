//! Composable child-process pipelines: an immutable expression tree, the
//! resolution of each process's context into a spawn plan, and the rules that
//! decide which exit status and which error a composite expression reports.

pub mod context;
pub mod expression;
pub mod io;
pub mod plan;
pub mod programs;
pub mod run;
pub mod status;

pub use context::{Context, Endpoint};
pub use expression::{cmd, sh, Expression, Redirect};
pub use io::{suppress_broken_pipe_errors, IoValue};
pub use plan::{Plan, SpawnRequest};
pub use programs::{false_cmd, path_to_exe, true_cmd};
pub use run::{finish, read_text, trim_newline, Error, Output};
pub use status::{resolve_pipe, resolve_then, ExitStatus, Outcome};
