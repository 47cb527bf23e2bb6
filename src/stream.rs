use vstd::prelude::*;
use core::task::Waker;
use crate::decoder::{keypresses_text, render_keypresses};
use crate::queue::{offered, EventQueue};
use crate::wake::WakeRegister;

verus! {

/// How many codes the event queue holds before it drops new ones.
pub const QUEUE_CAPACITY: usize = 100;

/// The state that the interrupt path and the keypress task share: the event
/// queue, made once when the stream is built, and the wake register.
pub struct EventHub {
    queue: Option<EventQueue>,
    waker: WakeRegister,
}

/// Why a scan-code stream could not be built.
#[derive(Debug, Clone, Copy, PartialEq, Eq, Structural)]
pub enum StreamError {
    /// A stream was built before; there is only ever one.
    AlreadyConstructed,
}

/// The outcome of one poll of the stream.
#[derive(Debug, Clone, Copy, PartialEq, Eq, Structural)]
pub enum StreamPoll {
    /// A code was taken from the queue.
    Ready(u8),
    /// The queue was empty; the caller's wake target is registered.
    Pending,
}

/// What a poll that checks a queue holding `codes` returns.
pub open spec fn poll_result(codes: Seq<u8>) -> StreamPoll {
    if codes.len() == 0 {
        StreamPoll::Pending
    } else {
        StreamPoll::Ready(codes[0])
    }
}

/// The queue after such a poll.
pub open spec fn after_poll(codes: Seq<u8>) -> Seq<u8> {
    if codes.len() == 0 {
        codes
    } else {
        codes.drop_first()
    }
}

impl EventHub {
    /// Whether the event queue has been made.
    pub closed spec fn initialized(&self) -> bool {
        self.queue is Some
    }

    /// The codes in the event queue, oldest first (empty before it is made).
    pub closed spec fn codes(&self) -> Seq<u8> {
        match self.queue {
            Some(q) => q@,
            None => Seq::empty(),
        }
    }

    /// The event queue's capacity (zero before it is made).
    pub closed spec fn capacity(&self) -> nat {
        match self.queue {
            Some(q) => q.capacity(),
            None => 0,
        }
    }

    /// Whether a wake target is registered.
    pub closed spec fn waiting(&self) -> bool {
        self.waker@
    }

    pub closed spec fn wf(&self) -> bool {
        match self.queue {
            Some(q) => q.wf(),
            None => true,
        }
    }

    /// A hub with no queue yet and no wake target.
    pub fn new() -> (h: EventHub)
        ensures
            h.wf(),
            !h.initialized(),
            !h.waiting(),
            h.codes() == Seq::<u8>::empty(),
    {
        EventHub { queue: None, waker: WakeRegister::new() }
    }

    /// Whether the event queue has been made, that is, a stream was built.
    pub fn is_initialized(&self) -> (r: bool)
        ensures
            r == self.initialized(),
    {
        self.queue.is_some()
    }
}

/// Called by the keyboard interrupt handler with one raw code; never blocks.
/// Before the queue exists the code is ignored. Otherwise the code joins the
/// queue where there is room and the registered target, if any, is resumed;
/// on a full queue the code is dropped and nothing is woken.
pub fn add_scancode(hub: &mut EventHub, scancode: u8)
    requires
        old(hub).wf(),
    ensures
        final(hub).wf(),
        final(hub).initialized() == old(hub).initialized(),
        final(hub).capacity() == old(hub).capacity(),
        final(hub).codes() == offered(old(hub).codes(), old(hub).capacity(), scancode),
        final(hub).waiting() == (old(hub).waiting() && !(old(hub).initialized()
            && old(hub).codes().len() < old(hub).capacity())),
{
    match &mut hub.queue {
        Some(q) => {
            if q.push(scancode) {
                hub.waker.wake();
            }
        },
        None => {},
    }
}

/// The stream of scan codes that the keyboard produces. Building it makes the
/// event queue, and it can be built only once per hub.
pub struct ScancodeStream {
    _private: (),
}

impl ScancodeStream {
    /// Makes the hub's event queue, empty and of capacity `QUEUE_CAPACITY`,
    /// and returns the stream over it. Fails, and leaves the hub as it was,
    /// where a stream was built before.
    pub fn new(hub: &mut EventHub) -> (r: Result<ScancodeStream, StreamError>)
        requires
            old(hub).wf(),
        ensures
            final(hub).wf(),
            final(hub).initialized(),
            final(hub).waiting() == old(hub).waiting(),
            old(hub).initialized() ==> r is Err && r->Err_0 == StreamError::AlreadyConstructed
                && *final(hub) == *old(hub),
            !old(hub).initialized() ==> r is Ok && final(hub).codes() == Seq::<u8>::empty()
                && final(hub).capacity() == QUEUE_CAPACITY as nat,
    {
        if hub.queue.is_some() {
            return Err(StreamError::AlreadyConstructed);
        }
        hub.queue = Some(EventQueue::new(QUEUE_CAPACITY));
        Ok(ScancodeStream { _private: () })
    }

    /// First step of a poll: takes a code if one is there, touching nothing
    /// else.
    pub fn poll_fast(&mut self, hub: &mut EventHub) -> (r: Option<u8>)
        requires
            old(hub).wf(),
            old(hub).initialized(),
        ensures
            final(hub).wf(),
            final(hub).initialized(),
            final(hub).capacity() == old(hub).capacity(),
            final(hub).waiting() == old(hub).waiting(),
            final(hub).codes() == after_poll(old(hub).codes()),
            r == (if old(hub).codes().len() == 0 { None } else { Some(old(hub).codes()[0]) }),
    {
        match &mut hub.queue {
            Some(q) => q.pop(),
            None => None,
        }
    }

    /// Second step of a poll: registers `target`, then checks the queue again.
    /// A code found there is returned and the registration is withdrawn;
    /// otherwise the poll is pending and `target` stays registered, so the
    /// next code that arrives resumes it.
    pub fn poll_recheck(&mut self, hub: &mut EventHub, target: &Waker) -> (r: StreamPoll)
        requires
            old(hub).wf(),
            old(hub).initialized(),
        ensures
            final(hub).wf(),
            final(hub).initialized(),
            final(hub).capacity() == old(hub).capacity(),
            r == poll_result(old(hub).codes()),
            final(hub).codes() == after_poll(old(hub).codes()),
            final(hub).waiting() == (r == StreamPoll::Pending),
    {
        hub.waker.register(target);
        match &mut hub.queue {
            Some(q) => match q.pop() {
                Some(code) => {
                    hub.waker.clear();
                    StreamPoll::Ready(code)
                },
                None => StreamPoll::Pending,
            },
            None => StreamPoll::Pending,
        }
    }

    /// Polls for the next code: the fast path first, then registration of
    /// `target` and a second look at the queue, so that a code that arrives
    /// between the two is not missed.
    pub fn poll_next(&mut self, hub: &mut EventHub, target: &Waker) -> (r: StreamPoll)
        requires
            old(hub).wf(),
            old(hub).initialized(),
        ensures
            final(hub).wf(),
            final(hub).initialized(),
            final(hub).capacity() == old(hub).capacity(),
            r == poll_result(old(hub).codes()),
            final(hub).codes() == after_poll(old(hub).codes()),
            r == StreamPoll::Pending ==> final(hub).waiting(),
            r != StreamPoll::Pending ==> final(hub).waiting() == old(hub).waiting(),
    {
        match self.poll_fast(hub) {
            Some(code) => StreamPoll::Ready(code),
            None => self.poll_recheck(hub, target),
        }
    }

    /// Takes every queued code and returns the text that the keypress task
    /// prints for them, in order.
    pub fn drain_text(&mut self, hub: &mut EventHub) -> (r: Vec<char>)
        requires
            old(hub).wf(),
            old(hub).initialized(),
        ensures
            final(hub).wf(),
            final(hub).initialized(),
            final(hub).capacity() == old(hub).capacity(),
            final(hub).waiting() == old(hub).waiting(),
            final(hub).codes() == Seq::<u8>::empty(),
            r@ == keypresses_text(old(hub).codes()),
    {
        match &mut hub.queue {
            Some(q) => {
                let codes = q.drain();
                render_keypresses(&codes)
            },
            None => Vec::new(),
        }
    }
}

/// A code pushed after the fast path found the queue empty, but before the
/// second look, is seen by that second look: the poll is ready with it.
pub proof fn lemma_no_missed_wakeup(codes: Seq<u8>, cap: nat, code: u8)
    requires
        codes.len() == 0,
        cap > 0,
    ensures
        poll_result(offered(codes, cap, code)) == StreamPoll::Ready(code),
        after_poll(offered(codes, cap, code)) == Seq::<u8>::empty(),
{
    assert(offered(codes, cap, code) =~= seq![code]);
    assert(seq![code].drop_first() =~= Seq::<u8>::empty());
}

} // verus!
