//! Freezing and thawing an agent's processes.
pub mod agents;
pub mod kill_switch;
pub mod os_suspend;
pub mod process_tree;
pub mod signal;

pub use kill_switch::KillSwitch;
pub use os_suspend::{receipt_result, resume_process, signal_process, signal_request, signal_result, suspend_process};
pub use process_tree::ProcessTree;
pub use signal::{SignalKind, SignalReceipt, SignalReply};
