//! The stream-error handler's identity. A stream error is only reported; it
//! mutates no state, so the shell's handler logs and returns.

use vstd::prelude::*;

verus! {

/// Marker for the handler registered on track-error events. It decides
/// nothing: an erroring stream is logged and otherwise ignored.
#[derive(Debug, Clone, Copy)]
pub struct ErrorHandler;

} // verus!
