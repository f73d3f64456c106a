//! Severity levels for the event channel.

use vstd::prelude::*;

verus! {

/// Severity of an emitted event, from chattiest to most severe.
#[derive(Clone, Copy, Debug, PartialEq, Eq, Structural)]
pub enum NotificationLevel {
    Verbose,
    Info,
    Warn,
    Error,
}

} // verus!
