//! The errors of the library. Each is reported to the caller; none aborts.

use vstd::prelude::*;

verus! {

/// Why an operation on a panel, or on the registry of panels, was refused.
#[derive(Debug, Clone, Copy, PartialEq, Eq, Structural)]
pub enum Error {
    /// No panel is registered under the label.
    PanelNotFound,
    /// The native window behind the panel is nil or has been closed.
    InvalidHandle,
    /// The caller is not on the thread that owns the user interface.
    WrongThread,
}

} // verus!
