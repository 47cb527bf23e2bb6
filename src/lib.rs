//! Runtime core of a small kernel: the path that carries keyboard scan codes
//! from the interrupt handler to a polling task, and the bookkeeping that
//! fences vector computation against preemption.

pub mod cortex;
pub mod decoder;
pub mod executor;
pub mod guard;
pub mod queue;
pub mod stream;
pub mod wake;

pub use cortex::CortexEngine;
pub use executor::{RunQueue, TaskPoll};
pub use decoder::{decode_scancode, push_keypress, render_keypresses};
pub use guard::{ComputeGuard, InterruptAction};
pub use queue::EventQueue;
pub use stream::{add_scancode, EventHub, ScancodeStream, StreamError, StreamPoll, QUEUE_CAPACITY};
pub use wake::WakeRegister;
