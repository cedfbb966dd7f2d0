//! Heuristic threat scoring of security telemetry events.
//!
//! An event describes a process launch, a network connection or a file
//! operation. Field checkers hold single fields of it against tables of
//! weighted patterns, a detector per category adds up what its checkers
//! contribute and caps the sum at 10, and `detect` takes an event as JSON text
//! to its threat level.
//!
//! Every function of the library is verified against its contract, except the
//! four calls into `serde_json` in `json`, whose contracts are taken on trust.

pub mod engine;
pub mod event;
pub mod file;
pub mod json;
pub mod level;
pub mod network;
pub mod process;
pub mod rules;
pub mod text;

pub use engine::{detect, read_event};
pub use event::{score, Event};
pub use file::{
    check_suspicious_file_operation, check_suspicious_file_path, detect_file_threat, FileEvent,
};
pub use network::{
    check_suspicious_ip, check_suspicious_port, detect_network_threat, is_private_ip,
    NetworkEvent,
};
pub use process::{
    check_suspicious_cmdline, check_suspicious_executable, check_suspicious_process_name,
    check_suspicious_user, detect_process_threat, ProcessEvent,
};
