use vstd::prelude::*;
use std::collections::VecDeque;

verus! {

/// The outcome of polling one task once.
#[derive(Debug, Clone, Copy, PartialEq, Eq, Structural)]
pub enum TaskPoll {
    /// The task ran to completion.
    Ready,
    /// The task stopped at a suspension point.
    Pending,
}

/// The run queue of a cooperative executor: the ids of the tasks that are
/// not finished, in the order they will be polled. Each poll takes the task
/// at the front; a task that suspends goes to the back and a finished one
/// leaves.
pub struct RunQueue {
    ids: VecDeque<u64>,
}

impl RunQueue {
    /// The ids waiting to be polled, next first.
    pub closed spec fn view(&self) -> Seq<u64> {
        self.ids@
    }

    /// A run queue with no tasks.
    pub fn new() -> (r: RunQueue)
        ensures
            r@ == Seq::<u64>::empty(),
    {
        RunQueue { ids: VecDeque::new() }
    }

    /// Adds task `id` behind those already waiting.
    pub fn spawn(&mut self, id: u64)
        ensures
            final(self)@ == old(self)@.push(id),
    {
        self.ids.push_back(id);
    }

    /// Whether no task is left.
    pub fn is_empty(&self) -> (r: bool)
        ensures
            r == (self@.len() == 0),
    {
        self.ids.len() == 0
    }

    /// Takes the task to poll next, or `None` when every task has finished.
    pub fn next(&mut self) -> (r: Option<u64>)
        ensures
            old(self)@.len() == 0 ==> r == None::<u64> && final(self)@ == old(self)@,
            old(self)@.len() > 0 ==> r == Some(old(self)@[0])
                && final(self)@ == old(self)@.drop_first(),
    {
        self.ids.pop_front()
    }

    /// Records how polling task `id` ended: a suspended task waits again
    /// behind the others, a finished one is dropped.
    pub fn settle(&mut self, id: u64, outcome: TaskPoll)
        ensures
            outcome == TaskPoll::Pending ==> final(self)@ == old(self)@.push(id),
            outcome == TaskPoll::Ready ==> final(self)@ == old(self)@,
    {
        match outcome {
            TaskPoll::Pending => self.ids.push_back(id),
            TaskPoll::Ready => {},
        }
    }
}

} // verus!
