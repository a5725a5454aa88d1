//! The build state the phases thread between each other.

use crate::device::LoopDev;
use vstd::prelude::*;

verus! {

/// State of a phased build. Each phase-advancing operation accepts only
/// the exact predecessor state and rejects any other, so an out-of-order
/// or repeated phase fails before any destructive command is issued.
#[derive(Debug, Clone, PartialEq)]
pub enum ImageBuilderState {
    /// Working directory created; no device attached yet.
    Phase0,
    /// Image partitioned, loop device attached, filesystems formatted.
    Phase1(LoopDev),
    /// Root and boot mounted, base system bootstrapped. The terminal
    /// state of a complete build.
    Phase2(LoopDev),
    /// Terminal, non-recoverable failure.
    Error,
}

} // verus!
