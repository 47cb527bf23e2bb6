use nexus_kernel::{
    add_scancode, decode_scancode, push_keypress, render_keypresses, CortexEngine, ComputeGuard,
    EventHub, EventQueue, InterruptAction, ScancodeStream, StreamError, StreamPoll, WakeRegister,
    RunQueue, TaskPoll, QUEUE_CAPACITY,
};
use std::sync::atomic::{AtomicUsize, Ordering};
use std::sync::Arc;
use std::task::{Wake, Waker};

struct Counter {
    hits: AtomicUsize,
}

impl Wake for Counter {
    fn wake(self: Arc<Self>) {
        self.hits.fetch_add(1, Ordering::SeqCst);
    }
}

fn counting_waker() -> (Arc<Counter>, Waker) {
    let c = Arc::new(Counter { hits: AtomicUsize::new(0) });
    let w = Waker::from(c.clone());
    (c, w)
}

fn hits(c: &Arc<Counter>) -> usize {
    c.hits.load(Ordering::SeqCst)
}

#[test]
fn decoder_table() {
    assert_eq!(decode_scancode(0x1E), Ok('a'));
    assert_eq!(decode_scancode(0x39), Ok(' '));
    assert_eq!(decode_scancode(0x1C), Ok('\n'));
    assert_eq!(decode_scancode(0x02), Ok('1'));
    assert_eq!(decode_scancode(0x0B), Ok('0'));
    assert_eq!(decode_scancode(0x32), Ok('m'));
    assert_eq!(decode_scancode(0xFF), Err(()));
    assert_eq!(decode_scancode(0x00), Err(()));
}

#[test]
fn keypress_fallback_is_decimal() {
    let mut out = Vec::new();
    push_keypress(&mut out, 0xFF);
    assert_eq!(out.iter().collect::<String>(), "255");
    let mut out = Vec::new();
    push_keypress(&mut out, 0x01);
    assert_eq!(out.iter().collect::<String>(), "1");
    let mut out = Vec::new();
    push_keypress(&mut out, 0x3A);
    assert_eq!(out.iter().collect::<String>(), "58");
    assert_eq!(render_keypresses(&vec![0x1E, 0x00, 0x2D]).iter().collect::<String>(), "a0x");
}

#[test]
fn fifo_within_capacity() {
    let mut q = EventQueue::new(5);
    for c in [7u8, 3, 9, 1, 4] {
        assert!(q.push(c));
    }
    let mut popped = Vec::new();
    while let Some(c) = q.pop() {
        popped.push(c);
    }
    assert_eq!(popped, vec![7, 3, 9, 1, 4]);
    assert_eq!(q.pop(), None);
}

#[test]
fn drop_on_full() {
    let mut q = EventQueue::new(3);
    assert!(q.push(1));
    assert!(q.push(2));
    assert!(q.push(3));
    assert!(!q.push(4));
    assert_eq!(q.drain(), vec![1, 2, 3]);
    assert_eq!(q.pop(), None);
}

#[test]
fn hub_drops_on_full_without_waking() {
    let mut hub = EventHub::new();
    let mut stream = ScancodeStream::new(&mut hub).unwrap();
    let (count, waker) = counting_waker();
    assert_eq!(stream.poll_next(&mut hub, &waker), StreamPoll::Pending);
    for i in 0..QUEUE_CAPACITY {
        add_scancode(&mut hub, i as u8);
    }
    assert_eq!(hits(&count), 1);
    // register again while the queue is full: the re-check finds a code
    assert_eq!(stream.poll_recheck(&mut hub, &waker), StreamPoll::Ready(0));
    add_scancode(&mut hub, 100);
    add_scancode(&mut hub, 200);
    assert_eq!(hits(&count), 1);
    let mut seen = Vec::new();
    while let StreamPoll::Ready(c) = stream.poll_next(&mut hub, &waker) {
        seen.push(c);
    }
    let expected: Vec<u8> = (1..=100).collect();
    assert_eq!(seen, expected);
}

#[test]
fn push_between_fast_path_and_recheck_is_seen() {
    let mut hub = EventHub::new();
    let mut stream = ScancodeStream::new(&mut hub).unwrap();
    let (count, waker) = counting_waker();
    assert_eq!(stream.poll_fast(&mut hub), None);
    add_scancode(&mut hub, 0x1E);
    assert_eq!(stream.poll_recheck(&mut hub, &waker), StreamPoll::Ready(0x1E));
    // the registration was withdrawn: a later code wakes nobody
    add_scancode(&mut hub, 0x39);
    assert_eq!(hits(&count), 0);
}

#[test]
fn pending_poll_is_woken_by_next_code() {
    let mut hub = EventHub::new();
    let mut stream = ScancodeStream::new(&mut hub).unwrap();
    let (count, waker) = counting_waker();
    assert_eq!(stream.poll_next(&mut hub, &waker), StreamPoll::Pending);
    add_scancode(&mut hub, 0x02);
    assert_eq!(hits(&count), 1);
    assert_eq!(stream.poll_next(&mut hub, &waker), StreamPoll::Ready(0x02));
}

#[test]
fn add_before_stream_is_ignored() {
    let mut hub = EventHub::new();
    add_scancode(&mut hub, 0x1E);
    let mut stream = ScancodeStream::new(&mut hub).unwrap();
    let (_count, waker) = counting_waker();
    assert_eq!(stream.poll_next(&mut hub, &waker), StreamPoll::Pending);
}

#[test]
fn wake_without_target_is_noop() {
    let mut reg = WakeRegister::new();
    assert!(!reg.wake());
    assert!(!reg.wake());
}

#[test]
fn wake_resumes_once_per_registration() {
    let mut reg = WakeRegister::new();
    let (count, waker) = counting_waker();
    reg.register(&waker);
    assert!(reg.wake());
    assert_eq!(hits(&count), 1);
    assert!(!reg.wake());
    assert_eq!(hits(&count), 1);
    reg.register(&waker);
    reg.register(&waker);
    assert!(reg.wake());
    assert_eq!(hits(&count), 2);
}

#[test]
fn later_registration_replaces_earlier() {
    let mut reg = WakeRegister::new();
    let (first, w1) = counting_waker();
    let (second, w2) = counting_waker();
    reg.register(&w1);
    reg.register(&w2);
    assert!(reg.wake());
    assert_eq!(hits(&first), 0);
    assert_eq!(hits(&second), 1);
    reg.register(&w1);
    assert!(reg.clear());
    assert!(!reg.wake());
    assert_eq!(hits(&first), 0);
}

#[test]
fn stream_is_built_once() {
    let mut hub = EventHub::new();
    assert!(ScancodeStream::new(&mut hub).is_ok());
    assert!(matches!(ScancodeStream::new(&mut hub), Err(StreamError::AlreadyConstructed)));
}

#[test]
fn guard_restores_interrupt_state() {
    for enabled in [true, false] {
        let (g, a) = ComputeGuard::enter(enabled);
        let mut flag = enabled;
        apply(&mut flag, a);
        assert!(!flag);
        apply(&mut flag, g.exit());
        assert_eq!(flag, enabled);
    }
}

#[test]
fn guard_restores_after_failed_body() {
    for enabled in [true, false] {
        let (g, a) = ComputeGuard::enter(enabled);
        let mut flag = enabled;
        apply(&mut flag, a);
        let outcome: Result<i32, &str> = Err("aborted");
        let (restore, passed) = g.finish(outcome);
        apply(&mut flag, restore);
        assert_eq!(flag, enabled);
        assert_eq!(passed, Err("aborted"));
    }
    let (g, _) = ComputeGuard::enter(true);
    assert_eq!(g.finish::<u8, ()>(Ok(5)), (InterruptAction::Enable, Ok(5)));
}

fn apply(flag: &mut bool, a: InterruptAction) {
    match a {
        InterruptAction::Keep => {}
        InterruptAction::Disable => *flag = false,
        InterruptAction::Enable => *flag = true,
    }
}

#[test]
fn end_to_end_a_x() {
    let mut hub = EventHub::new();
    let mut stream = ScancodeStream::new(&mut hub).unwrap();
    for c in [0x1E, 0x39, 0x2D] {
        add_scancode(&mut hub, c);
    }
    let text: String = stream.drain_text(&mut hub).into_iter().collect();
    assert_eq!(text, "a x");
}

#[test]
fn end_to_end_by_polling() {
    let mut hub = EventHub::new();
    let mut stream = ScancodeStream::new(&mut hub).unwrap();
    let (_count, waker) = counting_waker();
    for c in [0x1E, 0x39, 0x2D] {
        add_scancode(&mut hub, c);
    }
    let mut out = Vec::new();
    while let StreamPoll::Ready(c) = stream.poll_next(&mut hub, &waker) {
        push_keypress(&mut out, c);
    }
    assert_eq!(out.into_iter().collect::<String>(), "a x");
}

#[test]
fn cortex_weights() {
    let e = CortexEngine::new();
    assert_eq!(e.weight_count(), 4);
    let w: Vec<i8> = (0..4).map(|i| e.weight(i)).collect();
    assert_eq!(w, vec![1, -1, 0, 1]);
    assert_eq!(e.term_count(2), 2);
    assert_eq!(e.term_count(9), 4);
}

#[test]
fn run_queue_round_robin() {
    let mut q = RunQueue::new();
    assert!(q.is_empty());
    q.spawn(1);
    q.spawn(2);
    assert_eq!(q.next(), Some(1));
    q.settle(1, TaskPoll::Pending);
    assert_eq!(q.next(), Some(2));
    q.settle(2, TaskPoll::Ready);
    assert_eq!(q.next(), Some(1));
    q.settle(1, TaskPoll::Ready);
    assert_eq!(q.next(), None);
    assert!(q.is_empty());
}
