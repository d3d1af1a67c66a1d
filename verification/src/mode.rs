//! The operating mode of the node.

use vstd::prelude::*;

verus! {

/// How eagerly the node keeps itself in step with the network. Spans of time
/// are in whole seconds.
#[derive(Debug, Clone, Copy, PartialEq, Eq, Structural)]
pub enum Mode {
    /// Always in step.
    Active,
    /// In step while in use: falls asleep after the first span without
    /// activity, and wakes after the second to catch up.
    Passive(u64, u64),
    /// In step only on demand: falls asleep after the span without activity.
    Dark(u64),
    /// Never in step.
    Off,
}

} // verus!
