//! The broad categories of observed events.
use vstd::prelude::*;

verus! {

/// The broad category of an observed event, without naming specific triggers.
#[derive(Debug, Clone, Copy, PartialEq, Eq, Structural)]
pub enum EventType {
    Created,
    Modified,
    Deleted,
    Accessed,
    /// Processes starting or stopping, and the like.
    StateChanged,
    /// Emitted when an AI agent announces an action.
    AgentIntent,
}

} // verus!
