//! The part of the daemon's configuration that the button logic reads.

use vstd::prelude::*;

verus! {

/// Nanoseconds: a span of time, or a point in time counted from a fixed origin.
pub type Nanos = u128;

/// What each button gesture does, by the name of the action.
#[derive(Debug, Clone, PartialEq, Eq)]
pub struct KeyConfig {
    pub click: String,
    pub twice: String,
    pub press: String,
}

/// How long the button logic waits.
#[derive(Debug, Clone, Copy, PartialEq, Eq, Structural)]
pub struct TimeConfig {
    /// The time after a click in which a second one makes a double click.
    pub twice: Nanos,
    /// The time after which a press is a long one.
    pub press: Nanos,
}

} // verus!
