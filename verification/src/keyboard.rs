//! The keyboard scan-code queue: a bounded FIFO between the keyboard
//! interrupt handler, which pushes raw scan codes, and the consumer task,
//! which drains them. The queue itself is crossbeam's `ArrayQueue`; its
//! behaviour is stated over the sequence of queued codes and the bound the
//! queue was created with.

use vstd::prelude::*;
use crossbeam_queue::ArrayQueue;

verus! {

#[verifier::external_type_specification]
#[verifier::external_body]
#[verifier::reject_recursive_types(T)]
pub struct ExArrayQueue<T>(ArrayQueue<T>);

/// The scan codes a queue holds, oldest first.
pub uninterp spec fn queue_elems(q: ArrayQueue<u8>) -> Seq<u8>;

/// The fixed capacity a queue was created with.
pub uninterp spec fn queue_capacity(q: ArrayQueue<u8>) -> nat;

/// Relies on crossbeam's ArrayQueue::new: a fresh bounded queue is empty
/// and keeps the given capacity. It panics on capacity zero, and on
/// capacities so large that the stamp arithmetic cannot double them.
#[verifier::external_body]
fn queue_new(cap: usize) -> (q: ArrayQueue<u8>)
    requires
        1 <= cap < 0x1000_0000,
    ensures
        queue_elems(q) == Seq::<u8>::empty(),
        queue_capacity(q) == cap as nat,
{
    ArrayQueue::new(cap)
}

/// Relies on crossbeam's ArrayQueue::push: the value is appended at the
/// tail, or handed back exactly when the queue already holds capacity
/// elements.
#[verifier::external_body]
fn queue_push(q: &mut ArrayQueue<u8>, value: u8) -> (r: bool)
    ensures
        queue_capacity(*final(q)) == queue_capacity(*old(q)),
        r == (queue_elems(*old(q)).len() < queue_capacity(*old(q))),
        r ==> queue_elems(*final(q)) == queue_elems(*old(q)).push(value),
        !r ==> queue_elems(*final(q)) == queue_elems(*old(q)),
{
    q.push(value).is_ok()
}

/// Relies on crossbeam's ArrayQueue::pop: the head — the oldest element —
/// is removed and returned, or `None` exactly when the queue is empty.
#[verifier::external_body]
fn queue_pop(q: &mut ArrayQueue<u8>) -> (r: Option<u8>)
    ensures
        queue_capacity(*final(q)) == queue_capacity(*old(q)),
        queue_elems(*old(q)).len() == 0 ==> r is None && queue_elems(*final(q)) == queue_elems(
            *old(q),
        ),
        queue_elems(*old(q)).len() > 0 ==> r == Some(queue_elems(*old(q))[0]) && queue_elems(
            *final(q),
        ) == queue_elems(*old(q)).drop_first(),
{
    q.pop()
}

/// How many scan codes may be pending at once; codes arriving beyond this
/// are dropped rather than blocking the interrupt handler.
pub const SCANCODE_QUEUE_CAPACITY: usize = 100;

/// The stream of keyboard scan codes, backed by the bounded queue.
pub struct ScanCodeStream {
    /// The pending scan codes.
    pub queue: ArrayQueue<u8>,
}

impl ScanCodeStream {
    /// The pending scan codes, oldest first.
    pub open spec fn codes(self) -> Seq<u8> {
        queue_elems(self.queue)
    }

    /// The stream's queue keeps its fixed capacity.
    pub open spec fn wf(self) -> bool {
        queue_capacity(self.queue) == SCANCODE_QUEUE_CAPACITY
    }

    /// An empty stream.
    pub fn new() -> (r: ScanCodeStream)
        ensures
            r.wf(),
            r.codes() == Seq::<u8>::empty(),
    {
        ScanCodeStream { queue: queue_new(SCANCODE_QUEUE_CAPACITY) }
    }

    /// Queues one scan code from the keyboard interrupt. Returns whether
    /// the code was accepted — a waiting consumer should then be woken —
    /// or dropped because the queue was full.
    pub fn add_scan_code(&mut self, scan_code: u8) -> (r: bool)
        requires
            old(self).wf(),
        ensures
            final(self).wf(),
            r == (old(self).codes().len() < SCANCODE_QUEUE_CAPACITY),
            r ==> final(self).codes() == old(self).codes().push(scan_code),
            !r ==> final(self).codes() == old(self).codes(),
    {
        queue_push(&mut self.queue, scan_code)
    }

    /// Takes the oldest pending scan code, or reports that none is
    /// pending and the consumer should wait for the next key press.
    pub fn poll_next(&mut self) -> (r: Option<u8>)
        requires
            old(self).wf(),
        ensures
            final(self).wf(),
            old(self).codes().len() == 0 ==> r is None && final(self).codes() == old(self).codes(),
            old(self).codes().len() > 0 ==> r == Some(old(self).codes()[0]) && final(self).codes()
                == old(self).codes().drop_first(),
    {
        queue_pop(&mut self.queue)
    }
}

} // verus!
