//! The capture device model and its protocol decisions.
//!
//! The unverified driver around this crate performs the raw control
//! calls — open, capability query, format get/set, buffer
//! registration, queue/dequeue, stream on/off, readiness wait — and
//! feeds each call's result back in as plain values. Every decision
//! between two calls is made here, under contract: what a result
//! means, whether the protocol state allows the next step, and how the
//! buffer pool's ownership tags move.

use vstd::prelude::*;

use crate::errors::{
    CapabilityError, ControlCallError, DeviceOpenError, FormatError, NegotiationError,
    ResizeError, StreamStateError,
};
use crate::format::{
    check_capabilities, check_format, spec_capabilities_ok, spec_format_ok, FormatInfo,
    CAP_STREAMING, CAP_VIDEO_CAPTURE, FIELD_NONE, PIX_FMT_YUYV,
};
use crate::ownership::{
    all_queued, apply_event, lemma_history_snoc, lemma_no_double_lend, lemma_queued_once_more,
    legal_history, run_history, times_dequeued, times_queued, times_released, BufState, PoolEvent,
};
use crate::pool::BufferPool;

verus! {

/// OS error code: no such file or directory.
pub const ENOENT: i32 = 2;

/// OS error code: permission denied.
pub const EACCES: i32 = 13;

/// OS error code: invalid argument; an enumeration query past the end
/// of a device table answers with this code.
pub const EINVAL: i32 = 22;

/// What a finished readiness wait reported.
#[derive(Clone, Copy, Debug, PartialEq, Eq, Structural)]
pub enum WaitOutcome {
    /// The device has a filled buffer pending.
    Ready,
    /// The wait elapsed without pending input.
    TimedOut,
}

/// What one enumeration query reported.
#[derive(Clone, Copy, Debug, PartialEq, Eq, Structural)]
pub enum EnumSignal {
    /// The queried index named a table entry.
    Entry,
    /// The queried index is past the table: enumeration is complete.
    End,
}

/// What a successful dequeue control call reported: which buffer the
/// kernel surrendered and how many of its bytes are valid.
#[derive(Clone, Copy, Debug, PartialEq, Eq, Structural)]
pub struct DequeueOutcome {
    pub index: u32,
    pub bytes_used: u32,
}

/// Sorts the OS error of a failed open into the open-error taxonomy:
/// a missing node, a permission problem, or — for every other code —
/// a node that is no usable capture device.
pub fn classify_open_error(code: i32) -> (r: DeviceOpenError)
    ensures
        r == (if code == ENOENT {
            DeviceOpenError::NotFound
        } else if code == EACCES {
            DeviceOpenError::PermissionDenied
        } else {
            DeviceOpenError::NotACaptureDevice
        }),
{
    if code == ENOENT {
        DeviceOpenError::NotFound
    } else if code == EACCES {
        DeviceOpenError::PermissionDenied
    } else {
        DeviceOpenError::NotACaptureDevice
    }
}

/// Reads a readiness-wait result: a positive count means pending
/// input, zero means the timeout elapsed, and a negative result is a
/// failed control call carrying the OS error code.
pub fn interpret_wait(ret: i32, err_code: i32) -> (r: Result<WaitOutcome, ControlCallError>)
    ensures
        r == (if ret > 0 {
            Result::<WaitOutcome, ControlCallError>::Ok(WaitOutcome::Ready)
        } else if ret == 0 {
            Result::<WaitOutcome, ControlCallError>::Ok(WaitOutcome::TimedOut)
        } else {
            Result::<WaitOutcome, ControlCallError>::Err(ControlCallError { code: err_code })
        }),
{
    if ret > 0 {
        Ok(WaitOutcome::Ready)
    } else if ret == 0 {
        Ok(WaitOutcome::TimedOut)
    } else {
        Err(ControlCallError { code: err_code })
    }
}

/// Reads an enumeration query result: success names an entry, failure
/// with "invalid argument" is the success-path end of the table, and
/// any other failure is a failed control call.
pub fn interpret_enum_result(ret: i32, err_code: i32) -> (r: Result<EnumSignal, ControlCallError>)
    ensures
        r == (if ret >= 0 {
            Result::<EnumSignal, ControlCallError>::Ok(EnumSignal::Entry)
        } else if err_code == EINVAL {
            Result::<EnumSignal, ControlCallError>::Ok(EnumSignal::End)
        } else {
            Result::<EnumSignal, ControlCallError>::Err(ControlCallError { code: err_code })
        }),
{
    if ret >= 0 {
        Ok(EnumSignal::Entry)
    } else if err_code == EINVAL {
        Ok(EnumSignal::End)
    } else {
        Err(ControlCallError { code: err_code })
    }
}

/// A zero-copy view of one dequeued buffer: the frame is bound
/// one-to-one to the buffer index it borrows, and the buffer stays
/// user-owned until the frame is released.
pub struct V4l2Frame {
    index: usize,
    bytes_used: usize,
    width: usize,
    height: usize,
}

impl V4l2Frame {
    /// The buffer index this frame has on loan.
    pub closed spec fn spec_index(self) -> int {
        self.index as int
    }

    /// How many bytes of the buffer the kernel filled.
    pub closed spec fn spec_bytes_used(self) -> int {
        self.bytes_used as int
    }

    /// The frame width in pixels.
    pub closed spec fn spec_width(self) -> int {
        self.width as int
    }

    /// The frame height in pixels.
    pub closed spec fn spec_height(self) -> int {
        self.height as int
    }

    /// The frame width in pixels.
    pub fn width(&self) -> (w: usize)
        ensures
            w == self.spec_width(),
    {
        self.width
    }

    /// The frame height in pixels.
    pub fn height(&self) -> (h: usize)
        ensures
            h == self.spec_height(),
    {
        self.height
    }

    /// The buffer index this frame has on loan.
    pub fn index(&self) -> (i: usize)
        ensures
            i == self.spec_index(),
    {
        self.index
    }

    /// How many bytes of the borrowed buffer are valid.
    pub fn bytes_used(&self) -> (n: usize)
        ensures
            n == self.spec_bytes_used(),
    {
        self.bytes_used
    }
}

/// A message from the display collaborator to the capture loop.
pub enum UiAction {
    ChangeSize(usize),
}

/// The consumer's side of the frame hand-off: pending deliveries are
/// drained in arrival order and only the newest survives; older
/// unconsumed frames are dropped, never queued, so the consumer
/// always sees the latest data. With nothing pending, the current
/// frame stays.
pub fn keep_newest<T>(current: Option<T>, arrivals: Vec<T>) -> (r: Option<T>)
    ensures
        arrivals@.len() == 0 ==> r == current,
        arrivals@.len() > 0 ==> r == Some(arrivals@[arrivals@.len() - 1]),
{
    let mut arrivals = arrivals;
    match arrivals.pop() {
        None => current,
        Some(newest) => Some(newest),
    }
}

/// The negotiated capture device: dimensions, frame byte size, the
/// owned buffer pool, and the enumerated frame sizes.
pub struct V4l2VideoDevice {
    width: usize,
    height: usize,
    frame_size: usize,
    pool: BufferPool,
    sizes: Vec<(u32, u32)>,
    history: Ghost<Seq<PoolEvent>>,
}

impl V4l2VideoDevice {
    /// The negotiated width in pixels.
    pub closed spec fn spec_width(self) -> int {
        self.width as int
    }

    /// The negotiated height in pixels.
    pub closed spec fn spec_height(self) -> int {
        self.height as int
    }

    /// The negotiated byte size of one full frame.
    pub closed spec fn spec_frame_size(self) -> int {
        self.frame_size as int
    }

    /// The owned buffer pool.
    pub closed spec fn pool(self) -> BufferPool {
        self.pool
    }

    /// The recorded list of available frame sizes.
    pub closed spec fn sizes_seq(self) -> Seq<(u32, u32)> {
        self.sizes@
    }

    /// The acquire/release hand-offs since streaming started, oldest
    /// first.
    pub closed spec fn history(self) -> Seq<PoolEvent> {
        self.history@
    }

    /// Well-formedness: the owned pool is well-formed, and while
    /// streaming the recorded hand-off history is a legal run of the
    /// ownership protocol from the all-queued start state that
    /// reproduces the pool's current tags.
    pub open spec fn inv(self) -> bool {
        &&& self.pool().inv()
        &&& self.pool().is_streaming() ==> {
            &&& legal_history(all_queued(self.pool().states().len() as int), self.history())
            &&& run_history(all_queued(self.pool().states().len() as int), self.history())
                == self.pool().states()
        }
    }

    /// Whether `f` is a live frame of this device: its buffer index
    /// names a slot that is user-owned, and its valid byte count fits
    /// the buffer.
    pub open spec fn frame_valid(self, f: V4l2Frame) -> bool {
        &&& 0 <= f.spec_index() < self.pool().states().len()
        &&& self.pool().states()[f.spec_index()] == BufState::Dequeued
        &&& f.spec_bytes_used() <= self.pool().spec_frame_size()
    }

    /// Whether a dequeue report is acceptable in the current state:
    /// streaming is on, the index names a kernel-owned slot, and the
    /// reported length fits the buffer.
    pub open spec fn spec_acquire_ok(self, dq: DequeueOutcome) -> bool {
        &&& self.pool().is_streaming()
        &&& (dq.index as int) < self.pool().states().len()
        &&& self.pool().states()[dq.index as int] == BufState::Queued
        &&& dq.bytes_used <= self.pool().spec_frame_size()
    }

    /// Negotiates a device from what the capability query and the
    /// format query reported. Construction fails outright — the
    /// device is unusable for this core — unless both capability
    /// flags are present and the active format is non-interlaced
    /// packed YUYV. The new device starts with an empty pool,
    /// streaming off and no recorded frame sizes.
    pub fn negotiate(caps: u32, fmt: FormatInfo) -> (r: Result<V4l2VideoDevice, NegotiationError>)
        ensures
            r is Ok <==> spec_capabilities_ok(caps) && spec_format_ok(fmt.pixelformat, fmt.field),
            caps & CAP_VIDEO_CAPTURE == 0 ==> r == Result::<
                V4l2VideoDevice,
                NegotiationError,
            >::Err(NegotiationError::Capability(CapabilityError::MissingCapture)),
            caps & CAP_VIDEO_CAPTURE != 0 && caps & CAP_STREAMING
                == 0 ==> r == Result::<V4l2VideoDevice, NegotiationError>::Err(
                NegotiationError::Capability(CapabilityError::MissingStreaming),
            ),
            spec_capabilities_ok(caps) && fmt.pixelformat != PIX_FMT_YUYV ==> r
                == Result::<V4l2VideoDevice, NegotiationError>::Err(
                NegotiationError::Format(FormatError::UnsupportedLayout),
            ),
            spec_capabilities_ok(caps) && fmt.pixelformat == PIX_FMT_YUYV
                && fmt.field != FIELD_NONE ==> r == Result::<
                V4l2VideoDevice,
                NegotiationError,
            >::Err(NegotiationError::Format(FormatError::Interlaced)),
            r matches Ok(d) ==> {
                &&& d.inv()
                &&& d.spec_width() == fmt.width
                &&& d.spec_height() == fmt.height
                &&& d.spec_frame_size() == fmt.sizeimage
                &&& d.pool().states().len() == 0
                &&& !d.pool().is_streaming()
                &&& d.sizes_seq().len() == 0
            },
    {
        match check_capabilities(caps) {
            Err(e) => Err(NegotiationError::Capability(e)),
            Ok(()) => match check_format(fmt.pixelformat, fmt.field) {
                Err(e) => Err(NegotiationError::Format(e)),
                Ok(()) => {
                    let frame_size: usize = fmt.sizeimage as usize;
                    Ok(
                        V4l2VideoDevice {
                            width: fmt.width as usize,
                            height: fmt.height as usize,
                            frame_size,
                            pool: BufferPool::allocate(0, frame_size),
                            sizes: Vec::new(),
                            history: Ghost(Seq::empty()),
                        },
                    )
                },
            },
        }
    }

    /// The negotiated width in pixels.
    pub fn width(&self) -> (w: usize)
        ensures
            w == self.spec_width(),
    {
        self.width
    }

    /// The negotiated height in pixels.
    pub fn height(&self) -> (h: usize)
        ensures
            h == self.spec_height(),
    {
        self.height
    }

    /// The negotiated byte size of one full frame.
    pub fn frame_size(&self) -> (s: usize)
        ensures
            s == self.spec_frame_size(),
    {
        self.frame_size
    }

    /// Whether kernel-side capture is running.
    pub fn streaming(&self) -> (b: bool)
        ensures
            b == self.pool().is_streaming(),
    {
        self.pool.streaming()
    }

    /// Allocates `n` fresh buffers of the negotiated frame size, all
    /// unregistered. Demands a torn-down pool: replacing live buffers
    /// would pull memory out from under the kernel.
    pub fn allocate_buffers(&mut self, n: usize)
        requires
            old(self).inv(),
            !old(self).pool().is_streaming(),
            old(self).pool().states().len() == 0,
        ensures
            final(self).inv(),
            final(self).pool().states() =~= Seq::new(n as nat, |i: int| BufState::Free),
            final(self).pool().spec_frame_size() == old(self).spec_frame_size(),
            !final(self).pool().is_streaming(),
            forall|i: int|
                0 <= i < n ==> #[trigger] final(self).pool().buffer_bytes(i).len()
                    == old(self).spec_frame_size(),
            forall|i: int, j: int|
                0 <= i < n && 0 <= j < old(self).spec_frame_size()
                    ==> #[trigger] final(self).pool().buffer_bytes(i)[j] == 0,
            final(self).spec_width() == old(self).spec_width(),
            final(self).spec_height() == old(self).spec_height(),
            final(self).spec_frame_size() == old(self).spec_frame_size(),
            final(self).sizes_seq() == old(self).sizes_seq(),
    {
        self.pool = BufferPool::allocate(n, self.frame_size);
    }

    /// Read access to one buffer's memory, for registering its
    /// address and length with the kernel.
    pub fn buffer(&self, index: usize) -> (r: &Vec<u8>)
        requires
            self.inv(),
            index < self.pool().states().len(),
        ensures
            r@ == self.pool().buffer_bytes(index as int),
            r@.len() == self.pool().spec_frame_size(),
    {
        self.pool.buffer(index)
    }

    /// Queues every allocated buffer: the whole pool becomes
    /// kernel-owned, ready for capture.
    pub fn enqueue_all(&mut self)
        requires
            old(self).inv(),
            !old(self).pool().is_streaming(),
            forall|i: int|
                0 <= i < old(self).pool().states().len() ==> old(self).pool().states()[i]
                    == BufState::Free,
        ensures
            final(self).inv(),
            final(self).pool().states() =~= Seq::new(
                old(self).pool().states().len(),
                |i: int| BufState::Queued,
            ),
            final(self).pool().buffers_view() == old(self).pool().buffers_view(),
            final(self).pool().spec_frame_size() == old(self).pool().spec_frame_size(),
            !final(self).pool().is_streaming(),
            final(self).spec_width() == old(self).spec_width(),
            final(self).spec_height() == old(self).spec_height(),
            final(self).spec_frame_size() == old(self).spec_frame_size(),
            final(self).sizes_seq() == old(self).sizes_seq(),
    {
        self.pool.enqueue_all();
    }

    /// Starts kernel-side capture; every buffer must have been queued
    /// first, and an empty pool is refused.
    pub fn start_streaming(&mut self) -> (r: Result<(), StreamStateError>)
        requires
            old(self).inv(),
            !old(self).pool().is_streaming(),
            forall|i: int|
                0 <= i < old(self).pool().states().len() ==> old(self).pool().states()[i]
                    == BufState::Queued,
        ensures
            final(self).inv(),
            old(self).pool().states().len() == 0 ==> r == Result::<(), StreamStateError>::Err(
                StreamStateError::NoQueuedBuffers,
            ) && *final(self) == *old(self),
            old(self).pool().states().len() > 0 ==> r == Result::<(), StreamStateError>::Ok(())
                && final(self).pool().is_streaming() && final(self).history()
                == Seq::<PoolEvent>::empty(),
            final(self).pool().states() == old(self).pool().states(),
            final(self).pool().buffers_view() == old(self).pool().buffers_view(),
            final(self).pool().spec_frame_size() == old(self).pool().spec_frame_size(),
            final(self).spec_width() == old(self).spec_width(),
            final(self).spec_height() == old(self).spec_height(),
            final(self).spec_frame_size() == old(self).spec_frame_size(),
            final(self).sizes_seq() == old(self).sizes_seq(),
    {
        let r = self.pool.start_streaming();
        if r.is_ok() {
            self.history = Ghost(Seq::empty());
            proof {
                assert(all_queued(self.pool.states().len() as int) =~= self.pool.states());
            }
        }
        r
    }

    /// Halts capture; every slot becomes invalid until a fresh
    /// allocate-and-queue cycle.
    pub fn stop_streaming(&mut self)
        requires
            old(self).inv(),
        ensures
            final(self).inv(),
            !final(self).pool().is_streaming(),
            final(self).pool().states() =~= Seq::new(
                old(self).pool().states().len(),
                |i: int| BufState::Free,
            ),
            final(self).spec_width() == old(self).spec_width(),
            final(self).spec_height() == old(self).spec_height(),
            final(self).spec_frame_size() == old(self).spec_frame_size(),
            final(self).sizes_seq() == old(self).sizes_seq(),
    {
        self.pool.stop_streaming();
    }

    /// Releases the pool's memory; demands that streaming was stopped
    /// first.
    pub fn teardown_buffers(&mut self)
        requires
            old(self).inv(),
            !old(self).pool().is_streaming(),
        ensures
            final(self).inv(),
            final(self).pool().states().len() == 0,
            !final(self).pool().is_streaming(),
            final(self).spec_width() == old(self).spec_width(),
            final(self).spec_height() == old(self).spec_height(),
            final(self).spec_frame_size() == old(self).spec_frame_size(),
            final(self).sizes_seq() == old(self).sizes_seq(),
    {
        self.pool.teardown();
    }

    /// Turns a dequeue report into a frame bound to the surrendered
    /// buffer. Refused, leaving the device unchanged, when streaming
    /// is off, when the kernel names an unknown or non-queued slot,
    /// or when the reported length exceeds the buffer's capacity; on
    /// success the slot becomes user-owned and the frame is its only
    /// borrower.
    pub fn acquire_frame(&mut self, dq: DequeueOutcome) -> (r: Result<V4l2Frame, StreamStateError>)
        requires
            old(self).inv(),
        ensures
            final(self).inv(),
            !old(self).pool().is_streaming() ==> r == Result::<V4l2Frame, StreamStateError>::Err(
                StreamStateError::NotStreaming,
            ) && *final(self) == *old(self),
            old(self).pool().is_streaming() && dq.index >= old(self).pool().states().len() ==> r
                == Result::<V4l2Frame, StreamStateError>::Err(StreamStateError::UnknownBuffer)
                && *final(self) == *old(self),
            old(self).pool().is_streaming() && (dq.index as int) < old(self).pool().states().len()
                && old(self).pool().states()[dq.index as int] != BufState::Queued ==> r == Result::<
                V4l2Frame,
                StreamStateError,
            >::Err(StreamStateError::BufferNotQueued) && *final(self) == *old(self),
            old(self).pool().is_streaming() && (dq.index as int) < old(self).pool().states().len()
                && old(self).pool().states()[dq.index as int] == BufState::Queued && dq.bytes_used
                > old(self).pool().spec_frame_size() ==> r == Result::<
                V4l2Frame,
                StreamStateError,
            >::Err(StreamStateError::LengthExceedsCapacity) && *final(self) == *old(self),
            old(self).spec_acquire_ok(dq) ==> (r matches Ok(f) && {
                &&& f.spec_index() == dq.index
                &&& f.spec_bytes_used() == dq.bytes_used
                &&& f.spec_width() == old(self).spec_width()
                &&& f.spec_height() == old(self).spec_height()
                &&& final(self).pool().states() == apply_event(
                    old(self).pool().states(),
                    PoolEvent::Acquire { index: dq.index as int },
                )
                &&& final(self).history() == old(self).history().push(
                    PoolEvent::Acquire { index: dq.index as int },
                )
                &&& final(self).frame_valid(f)
            }),
            r is Ok <==> old(self).spec_acquire_ok(dq),
            final(self).pool().is_streaming() == old(self).pool().is_streaming(),
            final(self).pool().buffers_view() == old(self).pool().buffers_view(),
            final(self).pool().spec_frame_size() == old(self).pool().spec_frame_size(),
            final(self).spec_width() == old(self).spec_width(),
            final(self).spec_height() == old(self).spec_height(),
            final(self).spec_frame_size() == old(self).spec_frame_size(),
            final(self).sizes_seq() == old(self).sizes_seq(),
    {
        if !self.pool.streaming() {
            Err(StreamStateError::NotStreaming)
        } else {
            let count = self.pool.buffer_count();
            let index: usize = dq.index as usize;
            if index >= count {
                return Err(StreamStateError::UnknownBuffer);
            }
            match self.pool.state_of(index) {
                BufState::Queued => {
                    let fs = self.pool.frame_size();
                    if dq.bytes_used as usize > fs {
                        Err(StreamStateError::LengthExceedsCapacity)
                    } else {
                        let ghost ev = PoolEvent::Acquire { index: index as int };
                        proof {
                            lemma_history_snoc(
                                all_queued(old(self).pool().states().len() as int),
                                old(self).history(),
                                ev,
                            );
                        }
                        self.pool.dequeue(index);
                        self.history = Ghost(self.history@.push(ev));
                        Ok(
                            V4l2Frame {
                                index,
                                bytes_used: dq.bytes_used as usize,
                                width: self.width,
                                height: self.height,
                            },
                        )
                    }
                },
                _ => Err(StreamStateError::BufferNotQueued),
            }
        }
    }

    /// Releases a frame: its buffer returns to the kernel's queue,
    /// exactly once, and the frame is consumed. Refused, leaving the
    /// device unchanged, when the frame's slot is not currently lent
    /// out.
    pub fn release_frame(&mut self, frame: V4l2Frame) -> (r: Result<(), StreamStateError>)
        requires
            old(self).inv(),
        ensures
            final(self).inv(),
            frame.spec_index() >= old(self).pool().states().len() ==> r == Result::<
                (),
                StreamStateError,
            >::Err(StreamStateError::UnknownBuffer) && *final(self) == *old(self),
            frame.spec_index() < old(self).pool().states().len() && old(self).pool().states()[frame.spec_index()]
                != BufState::Dequeued ==> r == Result::<(), StreamStateError>::Err(
                StreamStateError::BufferNotDequeued,
            ) && *final(self) == *old(self),
            frame.spec_index() < old(self).pool().states().len() && old(self).pool().states()[frame.spec_index()]
                == BufState::Dequeued ==> r == Result::<(), StreamStateError>::Ok(())
                && final(self).pool().states() == apply_event(
                old(self).pool().states(),
                PoolEvent::Release { index: frame.spec_index() },
            ) && final(self).history() == old(self).history().push(
                PoolEvent::Release { index: frame.spec_index() },
            ),
            final(self).pool().is_streaming() == old(self).pool().is_streaming(),
            final(self).pool().buffers_view() == old(self).pool().buffers_view(),
            final(self).pool().spec_frame_size() == old(self).pool().spec_frame_size(),
            final(self).spec_width() == old(self).spec_width(),
            final(self).spec_height() == old(self).spec_height(),
            final(self).spec_frame_size() == old(self).spec_frame_size(),
            final(self).sizes_seq() == old(self).sizes_seq(),
    {
        let index = frame.index;
        let count = self.pool.buffer_count();
        if index >= count {
            return Err(StreamStateError::UnknownBuffer);
        }
        match self.pool.state_of(index) {
            BufState::Dequeued => {
                let ghost ev = PoolEvent::Release { index: index as int };
                proof {
                    if old(self).pool().is_streaming() {
                        lemma_history_snoc(
                            all_queued(old(self).pool().states().len() as int),
                            old(self).history(),
                            ev,
                        );
                    }
                }
                self.pool.requeue(index);
                self.history = Ghost(self.history@.push(ev));
                Ok(())
            },
            _ => Err(StreamStateError::BufferNotDequeued),
        }
    }

    /// The usable byte view of a live frame: the first `bytes_used`
    /// bytes of the buffer it borrows. Only a user-owned slot yields
    /// a view.
    pub fn frame_data(&self, frame: &V4l2Frame) -> (r: &[u8])
        requires
            self.inv(),
            self.frame_valid(*frame),
        ensures
            r@ == self.pool().buffer_bytes(frame.spec_index()).subrange(
                0,
                frame.spec_bytes_used(),
            ),
            r@.len() == frame.spec_bytes_used(),
    {
        self.pool.frame_data(frame.index, frame.bytes_used)
    }

    /// Records the enumerated frame sizes for later selection.
    pub fn record_frame_sizes(&mut self, sizes: Vec<(u32, u32)>)
        requires
            old(self).inv(),
        ensures
            final(self).inv(),
            final(self).sizes_seq() == sizes@,
            final(self).pool() == old(self).pool(),
            final(self).spec_width() == old(self).spec_width(),
            final(self).spec_height() == old(self).spec_height(),
            final(self).spec_frame_size() == old(self).spec_frame_size(),
    {
        self.sizes = sizes;
    }

    /// The recorded list of available frame sizes, in device order.
    pub fn get_frame_sizes(&self) -> (r: &Vec<(u32, u32)>)
        ensures
            r@ == self.sizes_seq(),
    {
        &self.sizes
    }

    /// Begins a frame-size change: validates the requested index
    /// against the recorded sizes, then stops streaming and tears the
    /// pool down, handing back the chosen size for renegotiation. An
    /// out-of-range index fails without touching the pool or any
    /// other state. No frame may be outstanding: the pool is about to
    /// be torn down, and a live borrower would be left over freed
    /// memory.
    pub fn set_frame_size(&mut self, index: usize) -> (r: Result<(u32, u32), ResizeError>)
        requires
            old(self).inv(),
            forall|i: int|
                0 <= i < old(self).pool().states().len() ==> old(self).pool().states()[i]
                    != BufState::Dequeued,
        ensures
            final(self).inv(),
            index >= old(self).sizes_seq().len() ==> r == Result::<(u32, u32), ResizeError>::Err(
                ResizeError::IndexOutOfRange,
            ) && *final(self) == *old(self),
            index < old(self).sizes_seq().len() ==> r == Result::<(u32, u32), ResizeError>::Ok(
                old(self).sizes_seq()[index as int],
            ) && !final(self).pool().is_streaming() && final(self).pool().states().len() == 0,
            final(self).sizes_seq() == old(self).sizes_seq(),
            final(self).spec_width() == old(self).spec_width(),
            final(self).spec_height() == old(self).spec_height(),
            final(self).spec_frame_size() == old(self).spec_frame_size(),
    {
        if index >= self.sizes.len() {
            Err(ResizeError::IndexOutOfRange)
        } else {
            let chosen = self.sizes[index];
            self.pool.stop_streaming();
            self.pool.teardown();
            Ok(chosen)
        }
    }

    /// Conservation of buffers at the device: at every prefix of the
    /// hand-off history since streaming started that leaves buffer
    /// `i` kernel-owned — in particular at every boundary of an
    /// acquire/release pair — the buffer has been queued exactly once
    /// more than it has been dequeued, counting the initial enqueue;
    /// mid-pair the two counts are equal. No buffer is leaked or
    /// double-owned.
    pub proof fn lemma_queued_once_more_here(self, k: int, i: int)
        requires
            self.inv(),
            self.pool().is_streaming(),
            0 <= k <= self.history().len(),
            0 <= i < self.pool().states().len(),
        ensures
            times_dequeued(self.history().take(k), i) <= times_queued(self.history().take(k), i)
                <= times_dequeued(self.history().take(k), i) + 1,
            run_history(all_queued(self.pool().states().len() as int), self.history().take(k))[i]
                == BufState::Queued ==> times_queued(self.history().take(k), i) == times_dequeued(
                self.history().take(k),
                i,
            ) + 1,
    {
        lemma_queued_once_more(self.pool().states().len() as int, self.history(), k, i);
    }

    /// No two live frames at the device: at every prefix of the
    /// hand-off history, every buffer index has at most one unmatched
    /// acquire, so at most one outstanding frame references it.
    pub proof fn lemma_no_double_lend_here(self, k: int, i: int)
        requires
            self.inv(),
            self.pool().is_streaming(),
            0 <= k <= self.history().len(),
            0 <= i < self.pool().states().len(),
        ensures
            0 <= times_dequeued(self.history().take(k), i) - times_released(
                self.history().take(k),
                i,
            ) <= 1,
    {
        lemma_no_double_lend(self.pool().states().len() as int, self.history(), k, i);
    }

    /// Adopts a renegotiated format after a resize: the same check as
    /// at construction, over a torn-down pool. On rejection nothing
    /// changes.
    pub fn apply_format(&mut self, fmt: FormatInfo) -> (r: Result<(), FormatError>)
        requires
            old(self).inv(),
            !old(self).pool().is_streaming(),
            old(self).pool().states().len() == 0,
        ensures
            final(self).inv(),
            r is Ok <==> spec_format_ok(fmt.pixelformat, fmt.field),
            !spec_format_ok(fmt.pixelformat, fmt.field) ==> *final(self) == *old(self),
            fmt.pixelformat != PIX_FMT_YUYV ==> r == Result::<(), FormatError>::Err(
                FormatError::UnsupportedLayout,
            ),
            fmt.pixelformat == PIX_FMT_YUYV && fmt.field
                != FIELD_NONE ==> r == Result::<(), FormatError>::Err(
                FormatError::Interlaced,
            ),
            spec_format_ok(fmt.pixelformat, fmt.field) ==> {
                &&& final(self).spec_width() == fmt.width
                &&& final(self).spec_height() == fmt.height
                &&& final(self).spec_frame_size() == fmt.sizeimage
                &&& final(self).sizes_seq() == old(self).sizes_seq()
                &&& final(self).pool().states().len() == 0
                &&& !final(self).pool().is_streaming()
            },
    {
        match check_format(fmt.pixelformat, fmt.field) {
            Err(e) => Err(e),
            Ok(()) => {
                self.width = fmt.width as usize;
                self.height = fmt.height as usize;
                self.frame_size = fmt.sizeimage as usize;
                Ok(())
            },
        }
    }
}

} // verus!
