//! The bounded first-in, first-out queue of pending tasks.

use vstd::prelude::*;
use std::collections::VecDeque;
use crate::error::SchedulerError;
use crate::task::ComputeTask;

verus! {

/// Pending tasks, oldest first. The queue never holds more tasks than its
/// capacity.
#[derive(Debug)]
pub struct TaskQueue {
    tasks: VecDeque<ComputeTask>,
    capacity: usize,
    closed: bool,
}

impl View for TaskQueue {
    type V = Seq<ComputeTask>;

    closed spec fn view(&self) -> Seq<ComputeTask> {
        self.tasks@
    }
}

impl TaskQueue {
    #[verifier::type_invariant]
    spec fn within_capacity(self) -> bool {
        self.tasks@.len() <= self.capacity
    }

    /// The most tasks that the queue holds at once.
    pub closed spec fn spec_capacity(&self) -> usize {
        self.capacity
    }

    /// Whether the queue has stopped taking submissions.
    pub closed spec fn spec_is_closed(&self) -> bool {
        self.closed
    }

    /// An empty, open queue for at most `capacity` tasks.
    pub fn new(capacity: usize) -> (queue: TaskQueue)
        ensures
            queue@ == Seq::<ComputeTask>::empty(),
            queue.spec_capacity() == capacity,
            !queue.spec_is_closed(),
    {
        TaskQueue { tasks: VecDeque::new(), capacity, closed: false }
    }

    /// The most tasks that the queue holds at once.
    #[verifier::when_used_as_spec(spec_capacity)]
    pub fn capacity(&self) -> (capacity: usize)
        ensures
            capacity == self.spec_capacity(),
            self@.len() <= capacity,
    {
        proof {
            use_type_invariant(self);
        }
        self.capacity
    }

    /// Whether the queue has stopped taking submissions.
    #[verifier::when_used_as_spec(spec_is_closed)]
    pub fn is_closed(&self) -> (closed: bool)
        ensures
            closed == self.spec_is_closed(),
    {
        self.closed
    }

    /// The number of pending tasks.
    pub fn length(&self) -> (length: usize)
        ensures
            length == self@.len(),
            length <= self.spec_capacity(),
    {
        proof {
            use_type_invariant(self);
        }
        self.tasks.len()
    }

    /// Whether a submission would find a free slot.
    pub fn has_room(&self) -> (room: bool)
        ensures
            room == (self@.len() < self.spec_capacity()),
    {
        self.tasks.len() < self.capacity
    }

    /// Appends `task` at the tail. A closed queue refuses with
    /// `QueueClosed`, an open one at capacity with `QueueFull`; a refusal
    /// leaves the queue as it was.
    pub fn submit(&mut self, task: ComputeTask) -> (taken: Result<(), SchedulerError>)
        ensures
            final(self).spec_capacity() == old(self).spec_capacity(),
            final(self).spec_is_closed() == old(self).spec_is_closed(),
            match taken {
                Ok(_) => {
                    &&& !old(self).spec_is_closed()
                    &&& old(self)@.len() < old(self).spec_capacity()
                    &&& final(self)@ == old(self)@.push(task)
                },
                Err(e) => {
                    &&& final(self)@ == old(self)@
                    &&& old(self).spec_is_closed() ==> e == SchedulerError::QueueClosed
                    &&& !old(self).spec_is_closed() ==> {
                        &&& e == SchedulerError::QueueFull
                        &&& old(self)@.len() == old(self).spec_capacity()
                    }
                },
            },
    {
        proof {
            use_type_invariant(&*self);
        }
        if self.closed {
            Err(SchedulerError::QueueClosed)
        } else if self.tasks.len() >= self.capacity {
            Err(SchedulerError::QueueFull)
        } else {
            let mut tasks: VecDeque<ComputeTask> = VecDeque::new();
            std::mem::swap(&mut self.tasks, &mut tasks);
            tasks.push_back(task);
            std::mem::swap(&mut self.tasks, &mut tasks);
            Ok(())
        }
    }

    /// Removes and returns the oldest task; `None`, at once, exactly when
    /// the queue is empty.
    pub fn try_dequeue(&mut self) -> (head: Option<ComputeTask>)
        ensures
            old(self)@.len() <= old(self).spec_capacity(),
            final(self).spec_capacity() == old(self).spec_capacity(),
            final(self).spec_is_closed() == old(self).spec_is_closed(),
            match head {
                Some(task) => {
                    &&& old(self)@.len() > 0
                    &&& task == old(self)@[0]
                    &&& final(self)@ == old(self)@.skip(1)
                },
                None => old(self)@.len() == 0 && final(self)@ == old(self)@,
            },
    {
        proof {
            use_type_invariant(&*self);
        }
        let mut tasks: VecDeque<ComputeTask> = VecDeque::new();
        std::mem::swap(&mut self.tasks, &mut tasks);
        let head = tasks.pop_front();
        std::mem::swap(&mut self.tasks, &mut tasks);
        proof {
            if head.is_some() {
                assert(self.tasks@ == old(self)@.skip(1));
            }
        }
        head
    }

    /// Puts a task that was just taken out back at the head, so that it is
    /// the next one to leave and the order of the others is kept. Needs a
    /// free slot.
    pub fn requeue(&mut self, task: ComputeTask)
        requires
            old(self)@.len() < old(self).spec_capacity(),
        ensures
            final(self).spec_capacity() == old(self).spec_capacity(),
            final(self).spec_is_closed() == old(self).spec_is_closed(),
            final(self)@ == seq![task] + old(self)@,
    {
        let mut tasks: VecDeque<ComputeTask> = VecDeque::new();
        std::mem::swap(&mut self.tasks, &mut tasks);
        tasks.push_front(task);
        std::mem::swap(&mut self.tasks, &mut tasks);
    }

    /// Stops the queue from taking submissions. Pending tasks stay and can
    /// still be taken out.
    pub fn close(&mut self)
        ensures
            final(self).spec_capacity() == old(self).spec_capacity(),
            final(self).spec_is_closed(),
            final(self)@ == old(self)@,
    {
        proof {
            use_type_invariant(&*self);
        }
        self.closed = true;
    }
}

} // verus!
