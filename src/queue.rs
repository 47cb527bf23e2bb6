use vstd::prelude::*;
use crossbeam_queue::ArrayQueue;

verus! {

#[verifier::external_type_specification]
#[verifier::external_body]
#[verifier::reject_recursive_types(T)]
pub struct ExArrayQueue<T>(ArrayQueue<T>);

/// The codes that a bounded queue holds, oldest first.
pub uninterp spec fn queue_items(q: ArrayQueue<u8>) -> Seq<u8>;

/// The capacity that a bounded queue was made with.
pub uninterp spec fn queue_bound(q: ArrayQueue<u8>) -> nat;

/// The largest capacity that this library asks of a queue.
pub const MAX_CAPACITY: usize = 0x1_0000;

/// Relies on `ArrayQueue::new`: an empty queue of the given capacity. It
/// panics on a zero capacity, or one whose next power of two overflows.
#[verifier::external_body]
fn array_queue_new(cap: usize) -> (q: ArrayQueue<u8>)
    requires
        0 < cap <= MAX_CAPACITY,
    ensures
        queue_items(q) == Seq::<u8>::empty(),
        queue_bound(q) == cap as nat,
{
    ArrayQueue::new(cap)
}

/// Relies on `ArrayQueue::push`: a full queue hands the value back and is
/// unchanged; otherwise the value joins at the back.
#[verifier::external_body]
fn array_queue_push(q: &mut ArrayQueue<u8>, v: u8) -> (r: Result<(), u8>)
    ensures
        queue_bound(*final(q)) == queue_bound(*old(q)),
        queue_items(*old(q)).len() >= queue_bound(*old(q)) ==> r is Err && r->Err_0 == v
            && queue_items(*final(q)) == queue_items(*old(q)),
        queue_items(*old(q)).len() < queue_bound(*old(q)) ==> r is Ok
            && queue_items(*final(q)) == queue_items(*old(q)).push(v),
{
    q.push(v)
}

/// Relies on `ArrayQueue::pop`: the oldest value leaves the queue, or `None`
/// where it is empty.
#[verifier::external_body]
fn array_queue_pop(q: &mut ArrayQueue<u8>) -> (r: Option<u8>)
    ensures
        queue_bound(*final(q)) == queue_bound(*old(q)),
        queue_items(*old(q)).len() == 0 ==> r == None::<u8>
            && queue_items(*final(q)) == queue_items(*old(q)),
        queue_items(*old(q)).len() > 0 ==> r == Some(queue_items(*old(q))[0])
            && queue_items(*final(q)) == queue_items(*old(q)).drop_first(),
{
    q.pop()
}

/// The contents after offering `code` to a queue of capacity `cap` that holds
/// `items`: the code joins at the back where there is room, and is dropped
/// otherwise.
pub open spec fn offered(items: Seq<u8>, cap: nat, code: u8) -> Seq<u8> {
    if items.len() < cap {
        items.push(code)
    } else {
        items
    }
}

/// The contents after offering each of `codes` in turn.
pub open spec fn offered_all(items: Seq<u8>, cap: nat, codes: Seq<u8>) -> Seq<u8>
    decreases codes.len(),
{
    if codes.len() == 0 {
        items
    } else {
        offered(offered_all(items, cap, codes.drop_last()), cap, codes.last())
    }
}

/// Offering codes one by one to an empty queue keeps the first `cap` of them,
/// in the order they came, and drops the rest.
pub proof fn lemma_offered_prefix(cap: nat, codes: Seq<u8>)
    ensures
        offered_all(Seq::empty(), cap, codes) =~= codes.take(
            if codes.len() <= cap { codes.len() as int } else { cap as int },
        ),
    decreases codes.len(),
{
    if codes.len() > 0 {
        lemma_offered_prefix(cap, codes.drop_last());
    }
}

/// Codes pushed into an empty queue, no more than it can hold, are all kept,
/// in the order they were pushed.
pub proof fn lemma_fifo(cap: nat, codes: Seq<u8>)
    requires
        codes.len() <= cap,
    ensures
        offered_all(Seq::empty(), cap, codes) == codes,
{
    lemma_offered_prefix(cap, codes);
    assert(codes.take(codes.len() as int) =~= codes);
}

/// Pushing `cap + 1` codes into an empty queue of capacity `cap` keeps exactly
/// the first `cap`, in order; the last push finds the queue full and evicts
/// nothing.
pub proof fn lemma_drop_on_full(cap: nat, codes: Seq<u8>)
    requires
        codes.len() == cap + 1,
    ensures
        offered_all(Seq::empty(), cap, codes.drop_last()).len() == cap,
        offered_all(Seq::empty(), cap, codes) == codes.take(cap as int),
        offered_all(Seq::empty(), cap, codes) == offered_all(Seq::empty(), cap, codes.drop_last()),
{
    lemma_offered_prefix(cap, codes);
    lemma_offered_prefix(cap, codes.drop_last());
}

/// A fixed-capacity FIFO of raw scan codes that drops new codes when full.
pub struct EventQueue {
    inner: ArrayQueue<u8>,
}

impl EventQueue {
    /// The codes held, oldest first.
    pub closed spec fn view(&self) -> Seq<u8> {
        queue_items(self.inner)
    }

    /// The fixed capacity.
    pub closed spec fn capacity(&self) -> nat {
        queue_bound(self.inner)
    }

    pub open spec fn wf(&self) -> bool {
        0 < self.capacity() && self@.len() <= self.capacity()
    }

    /// An empty queue that holds at most `cap` codes.
    pub fn new(cap: usize) -> (q: EventQueue)
        requires
            0 < cap <= MAX_CAPACITY,
        ensures
            q.wf(),
            q@ == Seq::<u8>::empty(),
            q.capacity() == cap as nat,
    {
        EventQueue { inner: array_queue_new(cap) }
    }

    /// Offers `code` at the back. Returns whether it was taken: a full queue
    /// drops the code and keeps what it holds.
    pub fn push(&mut self, code: u8) -> (accepted: bool)
        requires
            old(self).wf(),
        ensures
            final(self).wf(),
            final(self).capacity() == old(self).capacity(),
            accepted == (old(self)@.len() < old(self).capacity()),
            final(self)@ == offered(old(self)@, old(self).capacity(), code),
    {
        match array_queue_push(&mut self.inner, code) {
            Ok(()) => true,
            Err(_) => false,
        }
    }

    /// Takes the oldest code, or `None` where the queue is empty.
    pub fn pop(&mut self) -> (r: Option<u8>)
        requires
            old(self).wf(),
        ensures
            final(self).wf(),
            final(self).capacity() == old(self).capacity(),
            old(self)@.len() == 0 ==> r == None::<u8> && final(self)@ == old(self)@,
            old(self)@.len() > 0 ==> r == Some(old(self)@[0])
                && final(self)@ == old(self)@.drop_first(),
    {
        array_queue_pop(&mut self.inner)
    }

    /// Takes every code that the queue holds, oldest first.
    pub fn drain(&mut self) -> (r: Vec<u8>)
        requires
            old(self).wf(),
        ensures
            final(self).wf(),
            final(self).capacity() == old(self).capacity(),
            r@ == old(self)@,
            final(self)@ == Seq::<u8>::empty(),
    {
        let mut out: Vec<u8> = Vec::new();
        let ghost start = self@;
        loop
            invariant
                self.wf(),
                self.capacity() == old(self).capacity(),
                start == old(self)@,
                out@ + self@ == start,
            decreases self@.len(),
        {
            match self.pop() {
                Some(c) => {
                    out.push(c);
                    assert(out@ + self@ =~= start);
                },
                None => {
                    assert(out@ =~= start);
                    return out;
                },
            }
        }
    }
}

} // verus!
