//! The work queue: jobs leave in the order in which they arrived, each
//! handed out once.

use vstd::prelude::*;
use std::collections::VecDeque;
use crate::errors::{ZkpError, ZkpErrorView};
use crate::types::{QueuedProofTask, TaskView};

verus! {

/// An unbounded first-in, first-out queue of jobs that can be closed.
/// A closed queue accepts no job but still hands out those it holds.
pub struct WorkQueue {
    items: VecDeque<QueuedProofTask>,
    closed: bool,
}

/// The mathematical value of a [`WorkQueue`]: the waiting jobs, oldest
/// first, and whether the queue is closed.
pub struct QueueView {
    pub items: Seq<TaskView>,
    pub closed: bool,
}

/// What a worker gets when it asks the queue for work.
#[derive(Debug, PartialEq, Eq)]
pub enum Dequeued {
    /// The oldest waiting job.
    Task(QueuedProofTask),
    /// Nothing waits, but jobs may still arrive.
    Empty,
    /// Nothing waits and nothing will arrive: the worker may exit.
    Closed,
}

impl View for WorkQueue {
    type V = QueueView;

    closed spec fn view(&self) -> QueueView {
        QueueView {
            items: self.items@.map_values(|task: QueuedProofTask| task@),
            closed: self.closed,
        }
    }
}

impl WorkQueue {
    /// An open, empty queue.
    pub fn new() -> (queue: WorkQueue)
        ensures
            queue@ == (QueueView { items: Seq::empty(), closed: false }),
    {
        let queue = WorkQueue { items: VecDeque::new(), closed: false };
        assert(queue@.items =~= Seq::empty());
        queue
    }

    /// The number of waiting jobs.
    pub fn len(&self) -> (count: usize)
        ensures
            count == self@.items.len(),
    {
        self.items.len()
    }

    /// Whether the queue has been closed.
    pub fn is_closed(&self) -> (closed: bool)
        ensures
            closed == self@.closed,
    {
        self.closed
    }

    /// Appends `task` behind every waiting job; `QueueClosed` if and only
    /// if the queue is closed, and then the queue is unchanged.
    pub fn send(&mut self, task: QueuedProofTask) -> (sent: Result<(), ZkpError>)
        ensures
            sent is Ok <==> !old(self)@.closed,
            sent is Ok ==> final(self)@ == (QueueView {
                items: old(self)@.items.push(task@),
                closed: false,
            }),
            sent matches Err(e) ==> e@ == ZkpErrorView::QueueClosed && final(self)@ == old(self)@,
    {
        if self.closed {
            return Err(ZkpError::QueueClosed);
        }
        let ghost added = task@;
        self.items.push_back(task);
        assert(self@.items =~= old(self)@.items.push(added));
        Ok(())
    }

    /// Hands out the oldest waiting job, if there is one. Otherwise says
    /// whether more may arrive (`Empty`) or not (`Closed`).
    pub fn receive(&mut self) -> (got: Dequeued)
        ensures
            match got {
                Dequeued::Task(task) => {
                    &&& old(self)@.items.len() > 0
                    &&& task@ == old(self)@.items[0]
                    &&& final(self)@ == (QueueView {
                        items: old(self)@.items.skip(1),
                        closed: old(self)@.closed,
                    })
                },
                Dequeued::Empty => {
                    &&& old(self)@.items.len() == 0
                    &&& !old(self)@.closed
                    &&& final(self)@ == old(self)@
                },
                Dequeued::Closed => {
                    &&& old(self)@.items.len() == 0
                    &&& old(self)@.closed
                    &&& final(self)@ == old(self)@
                },
            },
    {
        match self.items.pop_front() {
            Some(task) => {
                assert(self@.items =~= old(self)@.items.skip(1));
                Dequeued::Task(task)
            },
            None => {
                assert(self@.items =~= old(self)@.items);
                if self.closed {
                    Dequeued::Closed
                } else {
                    Dequeued::Empty
                }
            },
        }
    }

    /// Closes the queue: no job is accepted from now on. The waiting jobs
    /// stay.
    pub fn close(&mut self)
        ensures
            final(self)@ == (QueueView { items: old(self)@.items, closed: true }),
    {
        self.closed = true;
    }
}

} // verus!
