//! Supervision of the mail backend process: where its files live, how it is
//! started and stopped, how its identity is kept on disk, and how host
//! operations are forwarded to it.

mod audit;
mod bridge;
mod commands;
mod decimal;
mod lifecycle;
mod paths;
mod state;
mod terminate;
mod text;

pub use audit::{close_log_entry, close_log_entry_now, format_timestamp, Timestamp};
pub use bridge::{bridge_result, BridgeError, HostCommand};
pub use commands::{call_command, kill_command, launch_command, CommandLine, Platform};
pub use decimal::{decimal_text, padded_decimal};
pub use lifecycle::{Action, Event, Phase, Supervisor};
pub use paths::{build_home_path, resolve_path, EnvironmentError, ManagedFile};
pub use state::{
    default_server_url, delete_result, encode_state, read_pid, read_url, ReadError, RemoveOutcome,
    StateFile,
};
pub use terminate::{termination_result, TerminateError};
pub use text::split_first_line;
