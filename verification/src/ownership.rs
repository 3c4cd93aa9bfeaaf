//! The kernel/user ownership hand-off model of the buffer pool.
//!
//! Each buffer slot carries a state tag: *Free* before registration,
//! *Queued* while the kernel owns it and may fill it, *Dequeued* while
//! exactly one frame lends it to user space. Acquiring a frame moves
//! one queued buffer to dequeued; releasing the frame moves it back.
//!
//! This module states the hand-off discipline over event histories and
//! proves the two conservation laws: counting the initial enqueue,
//! every buffer index is queued exactly once more than it is dequeued
//! whenever it is kernel-owned, and no index is ever lent out twice at
//! once.

use vstd::prelude::*;

verus! {

/// The ownership state of one buffer slot.
#[derive(Clone, Copy, Debug, PartialEq, Eq, Structural)]
pub enum BufState {
    /// Allocated but not yet registered or queued.
    Free,
    /// Kernel-owned: registered and eligible to be filled.
    Queued,
    /// User-owned: lent to exactly one outstanding frame.
    Dequeued,
}

/// One ownership hand-off during streaming.
#[derive(Clone, Copy, PartialEq, Eq, Structural)]
pub enum PoolEvent {
    /// A filled buffer was dequeued and bound to a frame.
    Acquire { index: int },
    /// The frame was released and its buffer queued again.
    Release { index: int },
}

/// The pool state in which every one of `n` slots is kernel-owned,
/// as it is right after the initial enqueue of all buffers.
pub open spec fn all_queued(n: int) -> Seq<BufState> {
    Seq::new(n as nat, |i: int| BufState::Queued)
}

/// Whether the hand-off protocol allows `ev` in pool state `states`:
/// only a queued buffer can be acquired, only a dequeued one released.
pub open spec fn event_enabled(states: Seq<BufState>, ev: PoolEvent) -> bool {
    match ev {
        PoolEvent::Acquire { index } => 0 <= index < states.len() && states[index]
            == BufState::Queued,
        PoolEvent::Release { index } => 0 <= index < states.len() && states[index]
            == BufState::Dequeued,
    }
}

/// The pool state after `ev`.
pub open spec fn apply_event(states: Seq<BufState>, ev: PoolEvent) -> Seq<BufState> {
    match ev {
        PoolEvent::Acquire { index } => states.update(index, BufState::Dequeued),
        PoolEvent::Release { index } => states.update(index, BufState::Queued),
    }
}

/// Whether every event of the history is enabled in the state the
/// previous events produced.
pub open spec fn legal_history(states: Seq<BufState>, evs: Seq<PoolEvent>) -> bool
    decreases evs.len(),
{
    evs.len() == 0 || (event_enabled(states, evs[0]) && legal_history(
        apply_event(states, evs[0]),
        evs.drop_first(),
    ))
}

/// The pool state after running the whole history.
pub open spec fn run_history(states: Seq<BufState>, evs: Seq<PoolEvent>) -> Seq<BufState>
    decreases evs.len(),
{
    if evs.len() == 0 {
        states
    } else {
        run_history(apply_event(states, evs[0]), evs.drop_first())
    }
}

/// How often the history dequeues buffer `i`.
pub open spec fn times_dequeued(evs: Seq<PoolEvent>, i: int) -> int
    decreases evs.len(),
{
    if evs.len() == 0 {
        0
    } else {
        (if evs[0] == (PoolEvent::Acquire { index: i }) {
            1int
        } else {
            0int
        }) + times_dequeued(evs.drop_first(), i)
    }
}

/// How often buffer `i` enters the queued state: once at the initial
/// enqueue, and once per release in the history.
pub open spec fn times_queued(evs: Seq<PoolEvent>, i: int) -> int
    decreases evs.len(),
{
    1 + times_released(evs, i)
}

/// How often the history releases buffer `i` back to the kernel.
pub open spec fn times_released(evs: Seq<PoolEvent>, i: int) -> int
    decreases evs.len(),
{
    if evs.len() == 0 {
        0
    } else {
        (if evs[0] == (PoolEvent::Release { index: i }) {
            1int
        } else {
            0int
        }) + times_released(evs.drop_first(), i)
    }
}

/// Extending a legal history by one enabled event keeps it legal, and
/// the resulting state is the event applied to the state so far.
pub proof fn lemma_history_snoc(states: Seq<BufState>, evs: Seq<PoolEvent>, ev: PoolEvent)
    requires
        legal_history(states, evs),
        event_enabled(run_history(states, evs), ev),
    ensures
        legal_history(states, evs.push(ev)),
        run_history(states, evs.push(ev)) == apply_event(run_history(states, evs), ev),
    decreases evs.len(),
{
    if evs.len() == 0 {
        assert(evs.push(ev)[0] == ev);
        assert(evs.push(ev).drop_first() =~= Seq::<PoolEvent>::empty());
        assert(legal_history(apply_event(states, ev), evs.push(ev).drop_first()));
        assert(run_history(apply_event(states, ev), evs.push(ev).drop_first()) == apply_event(
            states,
            ev,
        ));
    } else {
        lemma_history_snoc(apply_event(states, evs[0]), evs.drop_first(), ev);
        assert(evs.push(ev)[0] == evs[0]);
        assert(evs.push(ev).drop_first() =~= evs.drop_first().push(ev));
        assert(run_history(states, evs.push(ev)) == run_history(
            apply_event(states, evs[0]),
            evs.drop_first().push(ev),
        ));
    }
}

/// The accounting behind both conservation laws: starting from any
/// state in which slot `i` is queued or dequeued, after any legal
/// history the number of unmatched acquires of `i` is zero or one, and
/// it is zero exactly when the slot is back in the kernel's hands.
pub proof fn lemma_slot_accounting(states: Seq<BufState>, evs: Seq<PoolEvent>, i: int)
    requires
        legal_history(states, evs),
        0 <= i < states.len(),
        states[i] == BufState::Queued || states[i] == BufState::Dequeued,
    ensures
        ({
            let held0: int = if states[i] == BufState::Dequeued {
                1
            } else {
                0
            };
            let held = held0 + times_dequeued(evs, i) - times_released(evs, i);
            &&& 0 <= held <= 1
            &&& run_history(states, evs)[i] == (if held == 0 {
                BufState::Queued
            } else {
                BufState::Dequeued
            })
        }),
    decreases evs.len(),
{
    if evs.len() > 0 {
        let next = apply_event(states, evs[0]);
        assert(0 <= i < next.len());
        lemma_slot_accounting(next, evs.drop_first(), i);
    }
}

/// A prefix of a legal history is itself legal.
pub proof fn lemma_legal_prefix(states: Seq<BufState>, evs: Seq<PoolEvent>, k: int)
    requires
        legal_history(states, evs),
        0 <= k <= evs.len(),
    ensures
        legal_history(states, evs.take(k)),
    decreases evs.len(),
{
    if k == 0 {
        assert(evs.take(0).len() == 0);
    } else {
        assert(evs.take(k)[0] == evs[0]);
        lemma_legal_prefix(apply_event(states, evs[0]), evs.drop_first(), k - 1);
        assert(evs.take(k).drop_first() =~= evs.drop_first().take(k - 1));
    }
}

/// Conservation of buffers: at every prefix of a legal history that
/// leaves buffer `i` kernel-owned — in particular at every boundary of
/// an acquire/release pair — the buffer has been queued exactly once
/// more than it has been dequeued; mid-pair the two counts are equal.
/// No buffer is ever leaked or double-owned.
pub proof fn lemma_queued_once_more(n: int, evs: Seq<PoolEvent>, k: int, i: int)
    requires
        legal_history(all_queued(n), evs),
        0 <= k <= evs.len(),
        0 <= i < n,
    ensures
        times_dequeued(evs.take(k), i) <= times_queued(evs.take(k), i) <= times_dequeued(
            evs.take(k),
            i,
        ) + 1,
        run_history(all_queued(n), evs.take(k))[i] == BufState::Queued ==> times_queued(
            evs.take(k),
            i,
        ) == times_dequeued(evs.take(k), i) + 1,
        run_history(all_queued(n), evs.take(k))[i] == BufState::Dequeued ==> times_queued(
            evs.take(k),
            i,
        ) == times_dequeued(evs.take(k), i),
{
    lemma_legal_prefix(all_queued(n), evs, k);
    lemma_slot_accounting(all_queued(n), evs.take(k), i);
}

/// No two live frames: at every prefix of a legal history, buffer `i`
/// has at most one unmatched acquire, so at most one outstanding frame
/// references it at any time.
pub proof fn lemma_no_double_lend(n: int, evs: Seq<PoolEvent>, k: int, i: int)
    requires
        legal_history(all_queued(n), evs),
        0 <= k <= evs.len(),
        0 <= i < n,
    ensures
        0 <= times_dequeued(evs.take(k), i) - times_released(evs.take(k), i) <= 1,
{
    lemma_legal_prefix(all_queued(n), evs, k);
    lemma_slot_accounting(all_queued(n), evs.take(k), i);
}

} // verus!
