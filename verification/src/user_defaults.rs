//! The choices that an earlier run of the node left behind.

use vstd::prelude::*;
use crate::mode::Mode;
use crate::pruning::Algorithm;

verus! {

/// What the node settled on when it last ran. The resolution of a requested
/// setting reads these and never changes them.
#[derive(Debug, Clone, Copy, PartialEq, Eq, Structural)]
pub struct UserDefaults {
    /// Whether no earlier run has left anything behind.
    pub is_first_launch: bool,
    /// The pruning algorithm in effect.
    pub pruning: Algorithm,
    /// Whether transaction traces are indexed.
    pub tracing: bool,
    /// Whether the fat database is kept.
    pub fat_db: bool,
    /// The operating mode in effect.
    pub mode: Mode,
}

impl Default for UserDefaults {
    /// The defaults of a node that has never run.
    fn default() -> (defaults: Self)
        ensures
            defaults == (UserDefaults {
                is_first_launch: true,
                pruning: Algorithm::OverlayRecent,
                tracing: false,
                fat_db: false,
                mode: Mode::Active,
            }),
    {
        UserDefaults {
            is_first_launch: true,
            pruning: Algorithm::default(),
            tracing: false,
            fat_db: false,
            mode: Mode::Active,
        }
    }
}

} // verus!
