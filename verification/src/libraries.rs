//! The libraries that wait to be indexed.

use vstd::prelude::*;

verus! {

/// The number of workers in the pool.
pub const THREADPOOL_SIZE: usize = 8;

/// The libraries that are indexed at the same time, at most: three workers stay ready to react to
/// input.
pub const MAX_IN_FLIGHT: usize = THREADPOOL_SIZE - 3;

/// How many of `waiting` libraries can be started while `in_flight` are being indexed.
pub open spec fn start_count(in_flight: nat, waiting: nat) -> nat {
    let free = if in_flight < MAX_IN_FLIGHT {
        (MAX_IN_FLIGHT - in_flight) as nat
    } else {
        0
    };
    if waiting < free {
        waiting
    } else {
        free
    }
}

/// The libraries that are started out of those that wait: the latest ones, the latest first.
pub open spec fn started_of<L>(in_flight: nat, waiting: Seq<L>) -> Seq<L> {
    waiting.skip(waiting.len() - start_count(in_flight, waiting.len())).reverse()
}

/// The libraries that go on waiting.
pub open spec fn kept_of<L>(in_flight: nat, waiting: Seq<L>) -> Seq<L> {
    waiting.take(waiting.len() - start_count(in_flight, waiting.len()))
}

/// The libraries that wait, and the number of those that are being indexed.
pub struct LibraryQueue<L> {
    in_flight_libraries: usize,
    pending_libraries: Vec<L>,
}

impl<L> LibraryQueue<L> {
    /// The number of libraries that are being indexed.
    pub closed spec fn in_flight(self) -> nat {
        self.in_flight_libraries as nat
    }

    /// The libraries that wait, in the order in which they came.
    pub closed spec fn waiting(self) -> Seq<L> {
        self.pending_libraries@
    }

    /// Some workers stay free.
    pub open spec fn wf(self) -> bool {
        self.in_flight() <= MAX_IN_FLIGHT
    }

    pub fn new() -> (queue: LibraryQueue<L>)
        ensures
            queue.wf(),
            queue.in_flight() == 0,
            queue.waiting() == Seq::<L>::empty(),
    {
        LibraryQueue { in_flight_libraries: 0, pending_libraries: Vec::new() }
    }

    /// Whether a library is being indexed.
    pub fn is_indexing(&self) -> (res: bool)
        ensures
            res == (self.in_flight() > 0),
    {
        self.in_flight_libraries > 0
    }

    /// Whether no library waits and none is being indexed.
    pub fn is_idle(&self) -> (res: bool)
        ensures
            res == (self.in_flight() == 0 && self.waiting().len() == 0),
    {
        self.pending_libraries.is_empty() && self.in_flight_libraries == 0
    }

    /// Notes that the index of a library is done.
    pub fn finish(&mut self)
        requires
            old(self).wf(),
            old(self).in_flight() > 0,
        ensures
            final(self).wf(),
            final(self).in_flight() == old(self).in_flight() - 1,
            final(self).waiting() == old(self).waiting(),
    {
        self.in_flight_libraries = self.in_flight_libraries - 1;
    }

    /// Adds new libraries to those that wait, and gives those to start now, in this order.
    pub fn start(&mut self, new: Vec<L>) -> (started: Vec<L>)
        requires
            old(self).wf(),
        ensures
            final(self).wf(),
            started@ == started_of(old(self).in_flight(), old(self).waiting() + new@),
            final(self).waiting() == kept_of(old(self).in_flight(), old(self).waiting() + new@),
            final(self).in_flight() == old(self).in_flight() + started@.len(),
            final(self).waiting() + started@.reverse() == old(self).waiting() + new@,
            final(self).waiting().len() == 0 || final(self).in_flight() == 5,
    {
        let mut new = new;
        self.pending_libraries.append(&mut new);
        let ghost waiting = self.pending_libraries@;
        let ghost before = self.in_flight();
        let ghost count = start_count(before, waiting.len());
        let mut started: Vec<L> = Vec::new();
        while self.in_flight_libraries < MAX_IN_FLIGHT && !self.pending_libraries.is_empty()
            invariant
                before <= MAX_IN_FLIGHT,
                started@.len() <= count,
                count == start_count(before, waiting.len()),
                self.in_flight_libraries == before + started@.len(),
                self.pending_libraries@ == waiting.take(waiting.len() - started@.len()),
                started@ == waiting.skip(waiting.len() - started@.len()).reverse(),
            decreases count - started@.len(),
        {
            let library = self.pending_libraries.pop().unwrap();
            self.in_flight_libraries = self.in_flight_libraries + 1;
            started.push(library);
            assert(started@ == waiting.skip(waiting.len() - started@.len()).reverse());
        }
        assert(self.pending_libraries@ + started@.reverse() == waiting);
        started
    }
}

/// The libraries that are started and those that go on waiting are all that waited: the latest are
/// started, the latest of them first, and the rest keeps its order. As many are started as the five
/// places allow, and no fewer.
pub proof fn law_latest_libraries_are_started_first<L>(in_flight: nat, waiting: Seq<L>)
    ensures
        kept_of(in_flight, waiting) + started_of(in_flight, waiting).reverse() == waiting,
        started_of(in_flight, waiting).len() > 0 ==> started_of(in_flight, waiting)[0]
            == waiting.last(),
        in_flight <= 5 ==> in_flight + started_of(in_flight, waiting).len() <= 5,
        in_flight <= 5 ==> kept_of(in_flight, waiting).len() == 0 || in_flight + started_of(
            in_flight,
            waiting,
        ).len() == 5,
        in_flight >= 5 ==> started_of(in_flight, waiting).len() == 0,
        THREADPOOL_SIZE == 8,
{
    assert(kept_of(in_flight, waiting) + started_of(in_flight, waiting).reverse() == waiting);
}

} // verus!
