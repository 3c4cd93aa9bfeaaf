//! Verified core of a V4L2 user-pointer video capture pipeline.
//!
//! The library models the device protocol — capability and format
//! negotiation, the buffer-pool ownership hand-off between kernel and
//! user space, poll-driven frame acquisition, and format enumeration —
//! and provides the packed-YUYV to RGB color conversion. The raw
//! control calls themselves (open, ioctl, poll) are performed by an
//! unverified driver around this crate, which feeds their results back
//! in as plain values.

pub mod convert;
pub mod device;
pub mod enumerate;
pub mod errors;
pub mod format;
pub mod ownership;
pub mod pool;
