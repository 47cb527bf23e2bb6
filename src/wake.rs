use vstd::prelude::*;
use core::task::Waker;
use futures::task::AtomicWaker;

verus! {

#[verifier::external_type_specification]
#[verifier::external_body]
pub struct ExWaker(Waker);

#[verifier::external_type_specification]
#[verifier::external_body]
pub struct ExAtomicWaker(AtomicWaker);

/// Whether a wake cell holds a registered wake target.
pub uninterp spec fn holds_target(w: AtomicWaker) -> bool;

/// Relies on `AtomicWaker::new`: a cell with no target.
#[verifier::external_body]
fn atomic_waker_new() -> (w: AtomicWaker)
    ensures
        !holds_target(w),
{
    AtomicWaker::new()
}

/// Relies on `AtomicWaker::register`: the cell keeps (a clone of) `target`,
/// in place of any earlier one.
#[verifier::external_body]
fn atomic_waker_register(w: &mut AtomicWaker, target: &Waker)
    ensures
        holds_target(*final(w)),
{
    w.register(target)
}

/// Relies on `AtomicWaker::take`: hands out the registered target, if any,
/// and leaves the cell empty.
#[verifier::external_body]
fn atomic_waker_take(w: &mut AtomicWaker) -> (r: Option<Waker>)
    ensures
        r is Some == holds_target(*old(w)),
        !holds_target(*final(w)),
{
    w.take()
}

/// Relies on `Waker::wake`: resumes the task behind the waker.
#[verifier::external_body]
fn resume(target: Waker) {
    target.wake()
}

/// Holds at most one wake target; a later registration replaces an earlier
/// one.
pub struct WakeRegister {
    cell: AtomicWaker,
}

impl WakeRegister {
    /// Whether a target is registered.
    pub closed spec fn view(&self) -> bool {
        holds_target(self.cell)
    }

    /// A register with no target.
    pub fn new() -> (w: WakeRegister)
        ensures
            !w@,
    {
        WakeRegister { cell: atomic_waker_new() }
    }

    /// Registers `target`, replacing any earlier registration.
    pub fn register(&mut self, target: &Waker)
        ensures
            final(self)@,
    {
        atomic_waker_register(&mut self.cell, target)
    }

    /// Removes the registration, if any, without resuming it. Returns whether
    /// there was one.
    pub fn clear(&mut self) -> (had: bool)
        ensures
            had == old(self)@,
            !final(self)@,
    {
        match atomic_waker_take(&mut self.cell) {
            Some(_) => true,
            None => false,
        }
    }

    /// Resumes the registered target, if any, and empties the register.
    /// Returns whether a target was resumed: with none registered nothing
    /// happens, and a registered one is resumed exactly once.
    pub fn wake(&mut self) -> (woken: bool)
        ensures
            woken == old(self)@,
            !final(self)@,
    {
        match atomic_waker_take(&mut self.cell) {
            Some(target) => {
                resume(target);
                true
            },
            None => false,
        }
    }
}

} // verus!
