//! Adaptive dashboard core: an orientation-aware layout engine, a per-widget
//! append-only history store, the widget registry that feeds them, and the
//! controller state machine that ties widget selection to history reads and
//! writes. Viewport geometry is carried in whole device pixels and aspect
//! ratios as exact rationals, so every layout result is stated and proved
//! exactly.

pub mod controller;
pub mod device;
pub mod history;
pub mod layout;
pub mod timestamp;
pub mod widget;

use vstd::prelude::*;

verus! {

/// Relies on `std::string::String::push`: appends the given `char` to the end
/// of this string. Widget ids and timestamps are built character by
/// character through it.
pub assume_specification[ String::push ](s: &mut String, c: char)
    ensures
        final(s)@ == old(s)@.push(c),
;

/// Errors the dashboard core can report. None of them aborts the dashboard:
/// each degrades a single widget's functionality.
#[derive(Clone, Copy, PartialEq, Eq, Structural, Debug)]
pub enum CoreError {
    /// The layout engine was invoked before a usable viewport measurement
    /// existed (zero height).
    InvalidViewport,
    /// The persistence facility could not be initialized at all; interactive
    /// widgets fall back to read-only empty history.
    StoreUnavailable,
    /// A single append did not reach durable storage; displayed state is left
    /// unchanged so the submission can be retried.
    WriteFailed,
    /// A read did not complete; surfaced as an empty history.
    ReadFailed,
}

} // verus!
