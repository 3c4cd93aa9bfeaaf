//! Error taxonomy of the capture core.
//!
//! Negotiation failures (capability, format) are unrecoverable for a
//! device instance: construction fails outright. Protocol-state
//! violations are reported as `StreamStateError`. A failing control
//! call is carried as its OS error code in `ControlCallError`.

use vstd::prelude::*;

verus! {

/// Why opening the device node failed.
#[derive(Clone, Copy, Debug, PartialEq, Eq, Structural)]
pub enum DeviceOpenError {
    /// The device node does not exist.
    NotFound,
    /// The caller may not open the device node.
    PermissionDenied,
    /// The node exists but does not answer capture-device control calls.
    NotACaptureDevice,
}

/// The device lacks a required capability flag.
#[derive(Clone, Copy, Debug, PartialEq, Eq, Structural)]
pub enum CapabilityError {
    /// The video-capture capability flag is absent.
    MissingCapture,
    /// The streaming-I/O capability flag is absent.
    MissingStreaming,
}

/// The device's active format is not the one supported layout.
#[derive(Clone, Copy, Debug, PartialEq, Eq, Structural)]
pub enum FormatError {
    /// The pixel format is not the packed 4-byte/2-pixel luma/chroma layout.
    UnsupportedLayout,
    /// The format is interlaced.
    Interlaced,
}

/// A device-control call failed; carries the underlying OS error code.
#[derive(Clone, Copy, Debug, PartialEq, Eq, Structural)]
pub struct ControlCallError {
    pub code: i32,
}

/// An operation was invoked in the wrong protocol state.
#[derive(Clone, Copy, Debug, PartialEq, Eq, Structural)]
pub enum StreamStateError {
    /// A frame was requested before streaming started.
    NotStreaming,
    /// Streaming was started with zero queued buffers.
    NoQueuedBuffers,
    /// The kernel reported a buffer index outside the allocated pool.
    UnknownBuffer,
    /// The reported buffer was not in the kernel-owned (queued) state.
    BufferNotQueued,
    /// The buffer being released is not currently lent out.
    BufferNotDequeued,
    /// The reported valid byte count exceeds the buffer's capacity.
    LengthExceedsCapacity,
}

/// Why constructing a device model failed: negotiation rejects a
/// device without the required capabilities or with an unsupported
/// active format.
#[derive(Clone, Copy, Debug, PartialEq, Eq, Structural)]
pub enum NegotiationError {
    Capability(CapabilityError),
    Format(FormatError),
}

/// Why a frame-size change was refused.
#[derive(Clone, Copy, Debug, PartialEq, Eq, Structural)]
pub enum ResizeError {
    /// The requested index is outside the list of available sizes.
    IndexOutOfRange,
}

} // verus!
