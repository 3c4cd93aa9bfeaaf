//! Index-driven enumeration of device tables.
//!
//! The device exposes its format and frame-size tables only through
//! repeated queries with an increasing index; a query past the last
//! entry answers "index out of range", which is the success-path
//! termination signal, never an error. This state machine decides the
//! next query and collects the entries; the unverified driver merely
//! performs each query and reports its outcome. The queried index
//! rises by exactly one per entry, so enumeration of a finite table
//! always terminates with exactly the table's entries.

use vstd::prelude::*;

use crate::format::PIX_FMT_YUYV;

verus! {

/// An in-progress walk over one of the device's indexed tables.
pub struct Enumeration<T> {
    next_index: u32,
    entries: Vec<T>,
    done: bool,
}

impl<T> Enumeration<T> {
    /// The entries collected so far.
    pub closed spec fn entries_seq(self) -> Seq<T> {
        self.entries@
    }

    /// Whether the device has answered "index out of range".
    pub closed spec fn is_done(self) -> bool {
        self.done
    }

    /// The index the next query will carry.
    pub closed spec fn spec_next_index(self) -> int {
        self.next_index as int
    }

    /// One collected entry per answered query, so the next index to
    /// ask for is exactly the number of entries already collected.
    pub open spec fn inv(self) -> bool {
        self.spec_next_index() == self.entries_seq().len()
    }

    /// A fresh walk: nothing collected, the first query asks index 0.
    pub fn new() -> (e: Enumeration<T>)
        ensures
            e.inv(),
            !e.is_done(),
            e.entries_seq() =~= Seq::<T>::empty(),
            e.spec_next_index() == 0,
    {
        Enumeration { next_index: 0, entries: Vec::new(), done: false }
    }

    /// The index to query next, or `None` once the walk is finished.
    pub fn pending_index(&self) -> (r: Option<u32>)
        ensures
            self.is_done() ==> r is None,
            !self.is_done() ==> r == Some((self.spec_next_index()) as u32),
    {
        if self.done {
            None
        } else {
            Some(self.next_index)
        }
    }

    /// Records the entry the device returned for the pending index.
    /// The next query's index rises by exactly one, which is what
    /// makes a walk over a finite table terminate.
    pub fn on_entry(&mut self, entry: T)
        requires
            old(self).inv(),
            !old(self).is_done(),
            old(self).spec_next_index() < u32::MAX,
        ensures
            final(self).inv(),
            !final(self).is_done(),
            final(self).entries_seq() == old(self).entries_seq().push(entry),
            final(self).spec_next_index() == old(self).spec_next_index() + 1,
    {
        self.entries.push(entry);
        self.next_index = self.next_index + 1;
    }

    /// Records the "index out of range" answer: the table is
    /// exhausted and the walk is finished.
    pub fn on_end(&mut self)
        requires
            old(self).inv(),
            !old(self).is_done(),
        ensures
            final(self).inv(),
            final(self).is_done(),
            final(self).entries_seq() == old(self).entries_seq(),
            final(self).spec_next_index() == old(self).spec_next_index(),
    {
        self.done = true;
    }

    /// How many entries the walk has collected.
    pub fn count(&self) -> (n: usize)
        ensures
            n == self.entries_seq().len(),
    {
        self.entries.len()
    }

    /// The collected entries, in query order.
    pub fn into_entries(self) -> (r: Vec<T>)
        ensures
            r@ == self.entries_seq(),
    {
        self.entries
    }
}

/// Keeps only the pixel-format codes this core supports; the format
/// listing prints exactly the packed-YUYV entries of the device table.
pub fn filter_supported_formats(formats: &Vec<u32>) -> (r: Vec<u32>)
    ensures
        r@ == formats@.filter(|f: u32| f == PIX_FMT_YUYV),
{
    let mut r: Vec<u32> = Vec::new();
    let mut i: usize = 0;
    while i < formats.len()
        invariant
            i <= formats@.len(),
            r@ == formats@.take(i as int).filter(|f: u32| f == PIX_FMT_YUYV),
        decreases formats@.len() - i,
    {
        let f: u32 = formats[i];
        if f == PIX_FMT_YUYV {
            r.push(f);
        }
        proof {
            let pred = |g: u32| g == PIX_FMT_YUYV;
            let prefix = formats@.take(i as int);
            assert(formats@.take(i + 1) =~= prefix.push(formats@[i as int]));
            prefix.lemma_filter_push(formats@[i as int], pred);
        }
        i = i + 1;
    }
    proof {
        assert(formats@.take(formats@.len() as int) =~= formats@);
    }
    r
}

} // verus!
