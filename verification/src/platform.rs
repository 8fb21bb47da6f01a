//! The operating systems whose keyboard hooks the engine serves.

use vstd::prelude::*;

verus! {

/// The platform an engine runs on. The two differ in how a release of the
/// Hyper key is judged, in the native key codes, and in the synthetic input
/// that stands for an action.
#[derive(Clone, Copy, Debug, PartialEq, Eq, Structural)]
pub enum Platform {
    MacOs,
    Windows,
}

} // verus!
