//! Typed failures surfaced by every public operation.

use vstd::prelude::*;

verus! {

/// Every failure a surface operation can report. All errors flow back to the
/// caller as values; none aborts the process.
#[derive(Debug, PartialEq, Eq)]
pub enum WebViewError {
    /// The build targets a platform with no handle-resolver support.
    UnsupportedPlatform,
    /// The supplied window handle is zero, or its runtime identity is neither
    /// a window nor a view.
    InvalidWindowHandle,
    /// No live surface carries this id: it was never issued or was destroyed.
    WebViewNotFound(u64),
    /// The surface with this id is confined to the thread that created it,
    /// and the call came from a different thread.
    WrongThread(u64),
    /// The native rendering engine reported a failure.
    UnderlyingEngine(String),
    /// One-time UI-toolkit initialization failed; permanent for the process.
    PlatformInit(String),
    /// An internal invariant was violated.
    Internal(String),
}

} // verus!
