//! The buffer pool: fixed-capacity user-space buffers and their
//! ownership state tags.
//!
//! The pool allocates its buffers once, keeps their memory in place
//! while streaming is active, and moves each slot through the
//! *Free* → *Queued* → *Dequeued* → *Queued* protocol of the
//! [`crate::ownership`] model. Memory is released only through
//! [`BufferPool::teardown`], which demands that streaming has been
//! stopped first: releasing buffers under an active stream would leave
//! the kernel with stale references.

use vstd::prelude::*;
use vstd::slice::slice_subrange;

use crate::errors::StreamStateError;
use crate::ownership::{apply_event, event_enabled, BufState, PoolEvent};

verus! {

/// N fixed-size user-space buffers with their ownership tags.
pub struct BufferPool {
    buffers: Vec<Vec<u8>>,
    states: Vec<BufState>,
    frame_size: usize,
    streaming: bool,
}

impl BufferPool {
    /// The ownership tag of every slot.
    pub closed spec fn states(self) -> Seq<BufState> {
        self.states@
    }

    /// The bytes of every buffer.
    pub closed spec fn buffers_view(self) -> Seq<Seq<u8>> {
        Seq::new(self.buffers@.len() as nat, |i: int| self.buffers@[i]@)
    }

    /// The bytes of one buffer.
    pub open spec fn buffer_bytes(self, i: int) -> Seq<u8> {
        self.buffers_view()[i]
    }

    /// The fixed capacity, in bytes, of every buffer.
    pub closed spec fn spec_frame_size(self) -> int {
        self.frame_size as int
    }

    /// Whether kernel-side capture is running.
    pub closed spec fn is_streaming(self) -> bool {
        self.streaming
    }

    /// Well-formedness: one state tag per buffer, every buffer at the
    /// fixed capacity, and no unregistered slot while streaming
    /// (streaming starts only after every buffer was initially queued).
    pub closed spec fn inv(self) -> bool {
        &&& self.states@.len() == self.buffers@.len()
        &&& forall|i: int|
            0 <= i < self.buffers@.len() ==> self.buffers@[i]@.len() == self.frame_size
        &&& self.streaming ==> forall|i: int|
            0 <= i < self.states@.len() ==> self.states@[i] != BufState::Free
    }

    /// Allocates `n` zero-filled buffers of `frame_size` bytes each,
    /// all in the unregistered *Free* state, with streaming off.
    pub fn allocate(n: usize, frame_size: usize) -> (p: BufferPool)
        ensures
            p.inv(),
            p.states() =~= Seq::new(n as nat, |i: int| BufState::Free),
            p.spec_frame_size() == frame_size,
            !p.is_streaming(),
            forall|i: int| 0 <= i < n ==> #[trigger] p.buffer_bytes(i).len() == frame_size,
            forall|i: int, j: int|
                0 <= i < n && 0 <= j < frame_size ==> #[trigger] p.buffer_bytes(i)[j] == 0,
    {
        let mut buffers: Vec<Vec<u8>> = Vec::new();
        let mut states: Vec<BufState> = Vec::new();
        let mut k: usize = 0;
        while k < n
            invariant
                k <= n,
                buffers@.len() == k,
                states@.len() == k,
                forall|i: int| 0 <= i < k ==> states@[i] == BufState::Free,
                forall|i: int| 0 <= i < k ==> (#[trigger] buffers@[i])@.len() == frame_size,
                forall|i: int, j: int|
                    0 <= i < k && 0 <= j < frame_size ==> #[trigger] buffers@[i]@[j] == 0,
            decreases n - k,
        {
            buffers.push(zeroed_buffer(frame_size));
            states.push(BufState::Free);
            k = k + 1;
        }
        BufferPool { buffers, states, frame_size, streaming: false }
    }

    /// How many buffers the pool holds.
    pub fn buffer_count(&self) -> (n: usize)
        ensures
            n == self.states().len(),
    {
        self.states.len()
    }

    /// The fixed capacity, in bytes, of every buffer.
    pub fn frame_size(&self) -> (s: usize)
        ensures
            s == self.spec_frame_size(),
    {
        self.frame_size
    }

    /// Whether kernel-side capture is running.
    pub fn streaming(&self) -> (b: bool)
        ensures
            b == self.is_streaming(),
    {
        self.streaming
    }

    /// The ownership tag of one slot.
    pub fn state_of(&self, index: usize) -> (s: BufState)
        requires
            index < self.states().len(),
        ensures
            s == self.states()[index as int],
    {
        self.states[index]
    }

    /// Read access to one buffer's memory, as the registration step
    /// needs it to hand the buffer's address and length to the kernel.
    pub fn buffer(&self, index: usize) -> (r: &Vec<u8>)
        requires
            self.inv(),
            index < self.states().len(),
        ensures
            r@ == self.buffer_bytes(index as int),
            r@.len() == self.spec_frame_size(),
    {
        &self.buffers[index]
    }

    /// Queues every buffer: all slots move from *Free* to *Queued*,
    /// making the whole pool kernel-owned and eligible to be filled.
    pub fn enqueue_all(&mut self)
        requires
            old(self).inv(),
            !old(self).is_streaming(),
            forall|i: int|
                0 <= i < old(self).states().len() ==> old(self).states()[i] == BufState::Free,
        ensures
            final(self).inv(),
            final(self).states() =~= Seq::new(
                old(self).states().len(),
                |i: int| BufState::Queued,
            ),
            final(self).buffers_view() == old(self).buffers_view(),
            final(self).spec_frame_size() == old(self).spec_frame_size(),
            !final(self).is_streaming(),
    {
        let n: usize = self.states.len();
        let mut k: usize = 0;
        while k < n
            invariant
                k <= n,
                self.states@.len() == n,
                self.buffers@ == old(self).buffers@,
                self.frame_size == old(self).frame_size,
                self.streaming == old(self).streaming,
                forall|i: int| 0 <= i < k ==> self.states@[i] == BufState::Queued,
                self.inv(),
            decreases n - k,
        {
            self.states.set(k, BufState::Queued);
            k = k + 1;
        }
    }

    /// Starts kernel-side capture. Demands that every buffer was
    /// queued first; fails with `NoQueuedBuffers`, changing nothing,
    /// when the pool is empty.
    pub fn start_streaming(&mut self) -> (r: Result<(), StreamStateError>)
        requires
            old(self).inv(),
            !old(self).is_streaming(),
            forall|i: int|
                0 <= i < old(self).states().len() ==> old(self).states()[i] == BufState::Queued,
        ensures
            final(self).inv(),
            old(self).states().len() == 0 ==> r == Result::<(), StreamStateError>::Err(
                StreamStateError::NoQueuedBuffers,
            ) && *final(self) == *old(self),
            old(self).states().len() > 0 ==> r == Result::<(), StreamStateError>::Ok(())
                && final(self).is_streaming(),
            final(self).states() == old(self).states(),
            final(self).buffers_view() == old(self).buffers_view(),
            final(self).spec_frame_size() == old(self).spec_frame_size(),
    {
        if self.states.len() == 0 {
            Err(StreamStateError::NoQueuedBuffers)
        } else {
            self.streaming = true;
            proof {
                assert forall|i: int| 0 <= i < self.states@.len() implies self.states@[i]
                    != BufState::Free by {
                    assert(old(self).states()[i] == BufState::Queued);
                };
            }
            Ok(())
        }
    }

    /// Halts kernel-side capture. Every slot becomes invalid until a
    /// fresh register-and-queue cycle, so all tags return to *Free*.
    pub fn stop_streaming(&mut self)
        requires
            old(self).inv(),
        ensures
            final(self).inv(),
            !final(self).is_streaming(),
            final(self).states() =~= Seq::new(old(self).states().len(), |i: int| BufState::Free),
            final(self).buffers_view() == old(self).buffers_view(),
            final(self).spec_frame_size() == old(self).spec_frame_size(),
    {
        self.streaming = false;
        let n: usize = self.states.len();
        let mut k: usize = 0;
        while k < n
            invariant
                k <= n,
                self.states@.len() == n,
                self.buffers@ == old(self).buffers@,
                self.frame_size == old(self).frame_size,
                self.streaming == false,
                forall|i: int| 0 <= i < k ==> self.states@[i] == BufState::Free,
                self.states@.len() == self.buffers@.len(),
                forall|i: int|
                    0 <= i < self.buffers@.len() ==> self.buffers@[i]@.len() == self.frame_size,
            decreases n - k,
        {
            self.states.set(k, BufState::Free);
            k = k + 1;
        }
    }

    /// Releases the buffer memory. Demands that streaming was stopped
    /// first: tearing the pool down under an active stream would leave
    /// the kernel with references to freed memory.
    pub fn teardown(&mut self)
        requires
            old(self).inv(),
            !old(self).is_streaming(),
        ensures
            final(self).inv(),
            final(self).states().len() == 0,
            !final(self).is_streaming(),
            final(self).spec_frame_size() == old(self).spec_frame_size(),
    {
        self.buffers = Vec::new();
        self.states = Vec::new();
    }

    /// The acquire hand-off: the kernel surrenders one filled, queued
    /// buffer and the slot becomes user-owned.
    pub fn dequeue(&mut self, index: usize)
        requires
            old(self).inv(),
            old(self).is_streaming(),
            event_enabled(old(self).states(), PoolEvent::Acquire { index: index as int }),
        ensures
            final(self).inv(),
            final(self).states() == apply_event(
                old(self).states(),
                PoolEvent::Acquire { index: index as int },
            ),
            final(self).buffers_view() == old(self).buffers_view(),
            final(self).spec_frame_size() == old(self).spec_frame_size(),
            final(self).is_streaming(),
    {
        self.states.set(index, BufState::Dequeued);
    }

    /// The release hand-off: the lent buffer returns to the kernel's
    /// queue. Valid exactly once per acquire, while the slot is still
    /// user-owned.
    pub fn requeue(&mut self, index: usize)
        requires
            old(self).inv(),
            event_enabled(old(self).states(), PoolEvent::Release { index: index as int }),
        ensures
            final(self).inv(),
            final(self).states() == apply_event(
                old(self).states(),
                PoolEvent::Release { index: index as int },
            ),
            final(self).buffers_view() == old(self).buffers_view(),
            final(self).spec_frame_size() == old(self).spec_frame_size(),
            final(self).is_streaming() == old(self).is_streaming(),
    {
        self.states.set(index, BufState::Queued);
    }

    /// The usable view of a dequeued buffer: its first `len` bytes.
    /// Only a user-owned (dequeued) slot yields a view.
    pub fn frame_data(&self, index: usize, len: usize) -> (r: &[u8])
        requires
            self.inv(),
            index < self.states().len(),
            self.states()[index as int] == BufState::Dequeued,
            len <= self.spec_frame_size(),
        ensures
            r@ == self.buffer_bytes(index as int).subrange(0, len as int),
            r@.len() == len,
    {
        slice_subrange(self.buffers[index].as_slice(), 0, len)
    }
}

/// One zero-filled buffer of `len` bytes.
fn zeroed_buffer(len: usize) -> (v: Vec<u8>)
    ensures
        v@.len() == len,
        forall|j: int| 0 <= j < len ==> v@[j] == 0,
{
    let mut v: Vec<u8> = Vec::new();
    let mut k: usize = 0;
    while k < len
        invariant
            k <= len,
            v@.len() == k,
            forall|j: int| 0 <= j < k ==> v@[j] == 0,
        decreases len - k,
    {
        v.push(0);
        k = k + 1;
    }
    v
}

} // verus!
