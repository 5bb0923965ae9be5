//! Errors of the frame engine.
use vstd::prelude::*;

verus! {

#[derive(Clone, Copy, Debug, PartialEq, Eq, Structural)]
pub enum EngineError {
    /// No hardware adapter reaches the minimum feature level.
    NoSuitableAdapter,
    /// The call belongs to another phase of the frame lifecycle.
    WrongPhase,
    /// A back-buffer index reported by the swapchain is not below the frame count.
    BadBackBufferIndex,
    /// A slot's fence value cannot be incremented any further.
    FenceExhausted,
    /// The vertices of a pass do not fit in what is left of its arena region this frame.
    RegionOverflow,
    /// An atlas image whose pixel data does not match its size, or whose
    /// staging buffer would exceed 4 GiB.
    MalformedImage,
}

} // verus!
