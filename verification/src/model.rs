//! The service as a state machine over mathematical values: what each
//! operation does to the job states and to the queue.

use vstd::prelude::*;
use crate::errors::ZkpErrorView;
use crate::json::json_well_formed;
use crate::types::{StatusView, TaskView};

verus! {

/// The mathematical value of the service.
pub struct ServiceView {
    /// The status store: the current state of every known job.
    pub statuses: Map<Seq<char>, StatusView>,
    /// The work queue, oldest job first.
    pub queue: Seq<TaskView>,
    /// Whether the queue has stopped accepting jobs.
    pub closed: bool,
    /// The process-wide mock switch.
    pub mock_mode: bool,
    /// The key/value state.
    pub state: Map<Seq<char>, Seq<char>>,
}

/// What can happen to the service.
pub enum Event {
    /// A caller submits a job.
    Submit { task: TaskView },
    /// A worker asks for the next job.
    Dispatch,
    /// A worker reports what the backend returned for a job.
    Finish { task_id: Seq<char>, outcome: Result<Seq<char>, ZkpErrorView> },
    /// The queue is closed.
    Close,
    /// A caller writes a key of the key/value state.
    WriteState { key: Seq<char>, value: Seq<char> },
}

impl ServiceView {
    /// A service that knows no job.
    pub open spec fn initial(mock_mode: bool) -> ServiceView {
        ServiceView {
            statuses: Map::empty(),
            queue: Seq::empty(),
            closed: false,
            mock_mode,
            state: Map::empty(),
        }
    }

    /// Whether job `id` is known to the status store.
    pub open spec fn knows(self, id: Seq<char>) -> bool {
        self.statuses.contains_key(id)
    }

    /// Whether job `id` waits in the queue.
    pub open spec fn queued(self, id: Seq<char>) -> bool {
        exists|i: int| 0 <= i < self.queue.len() && (#[trigger] self.queue[i]).task_id == id
    }

    /// Whether job `id` has left the queue: a worker took it.
    pub open spec fn dequeued(self, id: Seq<char>) -> bool {
        self.knows(id) && !(self.statuses[id] is Pending)
    }

    /// The invariant that ties the queue to the status store: the waiting
    /// jobs are exactly the pending ones, none waits twice, each has a
    /// well-formed input document, and finitely many jobs are known.
    pub open spec fn wf(self) -> bool {
        &&& self.statuses.dom().finite()
        &&& forall|i: int|
            0 <= i < self.queue.len() ==> json_well_formed((#[trigger] self.queue[i]).input)
        &&& forall|i: int|
            0 <= i < self.queue.len() ==> self.statuses.contains_key(
                (#[trigger] self.queue[i]).task_id,
            ) && self.statuses[self.queue[i].task_id] is Pending
        &&& forall|i: int, j: int|
            0 <= i < j < self.queue.len() ==> (#[trigger] self.queue[i]).task_id != (
            #[trigger] self.queue[j]).task_id
        &&& forall|id: Seq<char>|
            #[trigger] self.statuses.contains_key(id) && self.statuses[id] is Pending
                ==> self.queued(id)
    }

    /// Whether a submission of `task` is accepted: the queue is open, the
    /// circuit reference is not empty, the input is a well-formed JSON
    /// document and the identifier is new.
    pub open spec fn admits(self, task: TaskView) -> bool {
        &&& !self.closed
        &&& task.circuit_path.len() > 0
        &&& json_well_formed(task.input)
        &&& !self.knows(task.task_id)
    }

    /// The job that a request becomes: it runs on the mock backend if the
    /// process-wide switch or the request asks for it.
    pub open spec fn task_for(
        self,
        task_id: Seq<char>,
        circuit_path: Seq<char>,
        input: Seq<char>,
        mock: bool,
    ) -> TaskView {
        TaskView { task_id, circuit_path, input, mock_mode: self.mock_mode || mock }
    }

    /// Registers `task` as pending and appends it to the queue.
    pub open spec fn enqueue(self, task: TaskView) -> ServiceView {
        ServiceView {
            statuses: self.statuses.insert(task.task_id, StatusView::Pending),
            queue: self.queue.push(task),
            ..self
        }
    }

    /// A submission: `enqueue` where the job is admitted, no change
    /// otherwise.
    pub open spec fn submit(self, task: TaskView) -> ServiceView {
        if self.admits(task) {
            self.enqueue(task)
        } else {
            self
        }
    }

    /// A worker takes the oldest waiting job, which becomes `InProgress`.
    /// No change where nothing waits.
    pub open spec fn dispatch(self) -> ServiceView {
        if self.queue.len() > 0 {
            ServiceView {
                statuses: self.statuses.insert(self.queue[0].task_id, StatusView::InProgress),
                queue: self.queue.skip(1),
                ..self
            }
        } else {
            self
        }
    }

    /// Whether a report for job `id` is taken: the job is in progress.
    pub open spec fn running(self, id: Seq<char>) -> bool {
        self.knows(id) && self.statuses[id] is InProgress
    }

    /// A worker reports the outcome of job `id`, which becomes terminal.
    /// No change unless the job is in progress.
    pub open spec fn finish(self, id: Seq<char>, outcome: Result<Seq<char>, ZkpErrorView>)
        -> ServiceView {
        if self.running(id) {
            ServiceView { statuses: self.statuses.insert(id, StatusView::of_outcome(outcome)), ..self }
        } else {
            self
        }
    }

    /// The queue stops accepting jobs.
    pub open spec fn close(self) -> ServiceView {
        ServiceView { closed: true, ..self }
    }

    /// A key of the key/value state is written.
    pub open spec fn write(self, key: Seq<char>, value: Seq<char>) -> ServiceView {
        ServiceView { state: self.state.insert(key, value), ..self }
    }

    /// The state after one event.
    pub open spec fn step(self, event: Event) -> ServiceView {
        match event {
            Event::Submit { task } => self.submit(task),
            Event::Dispatch => self.dispatch(),
            Event::Finish { task_id, outcome } => self.finish(task_id, outcome),
            Event::Close => self.close(),
            Event::WriteState { key, value } => self.write(key, value),
        }
    }

    /// The state after a sequence of events, first to last.
    pub open spec fn run(self, events: Seq<Event>) -> ServiceView
        decreases events.len(),
    {
        if events.len() == 0 {
            self
        } else {
            self.run(events.drop_last()).step(events.last())
        }
    }

    /// The job that an event hands to a worker, if it hands one out.
    pub open spec fn handed_out(self, event: Event) -> Option<TaskView> {
        if event is Dispatch && self.queue.len() > 0 {
            Some(self.queue[0])
        } else {
            None
        }
    }
}

/// An accepted submission keeps the invariant.
pub proof fn lemma_enqueue_keeps_wf(s: ServiceView, task: TaskView)
    requires
        s.wf(),
        !s.knows(task.task_id),
        json_well_formed(task.input),
    ensures
        s.enqueue(task).wf(),
{
    let t = s.enqueue(task);
    assert forall|i: int| 0 <= i < t.queue.len() implies json_well_formed(
        (#[trigger] t.queue[i]).input,
    ) by {
        if i < s.queue.len() {
            assert(t.queue[i] == s.queue[i]);
        }
    }
    assert forall|i: int| 0 <= i < t.queue.len() implies t.statuses.contains_key(
        (#[trigger] t.queue[i]).task_id,
    ) && t.statuses[t.queue[i].task_id] is Pending by {
        if i < s.queue.len() {
            assert(t.queue[i] == s.queue[i]);
        }
    }
    assert forall|i: int, j: int| 0 <= i < j < t.queue.len() implies (#[trigger] t.queue[i]).task_id
        != (#[trigger] t.queue[j]).task_id by {
        assert(t.queue[i] == s.queue[i]);
        if j < s.queue.len() {
            assert(t.queue[j] == s.queue[j]);
        }
    }
    assert forall|id: Seq<char>| #[trigger]
        t.statuses.contains_key(id) && t.statuses[id] is Pending implies t.queued(id) by {
        if id == task.task_id {
            assert(t.queue[s.queue.len() as int].task_id == id);
        } else {
            assert(s.queued(id));
            let k = choose|k: int| 0 <= k < s.queue.len() && (#[trigger] s.queue[k]).task_id == id;
            assert(t.queue[k].task_id == id);
        }
    }
}

/// Handing out the oldest job keeps the invariant.
pub proof fn lemma_dispatch_keeps_wf(s: ServiceView)
    requires
        s.wf(),
    ensures
        s.dispatch().wf(),
{
    if s.queue.len() > 0 {
        let t = s.dispatch();
        let head = s.queue[0].task_id;
        assert forall|i: int| 0 <= i < t.queue.len() implies json_well_formed(
            (#[trigger] t.queue[i]).input,
        ) by {
            assert(t.queue[i] == s.queue[i + 1]);
        }
        assert forall|i: int| 0 <= i < t.queue.len() implies t.statuses.contains_key(
            (#[trigger] t.queue[i]).task_id,
        ) && t.statuses[t.queue[i].task_id] is Pending by {
            assert(t.queue[i] == s.queue[i + 1]);
            assert(s.queue[0].task_id != s.queue[i + 1].task_id);
        }
        assert forall|i: int, j: int| 0 <= i < j < t.queue.len() implies (
        #[trigger] t.queue[i]).task_id != (#[trigger] t.queue[j]).task_id by {
            assert(t.queue[i] == s.queue[i + 1]);
            assert(t.queue[j] == s.queue[j + 1]);
        }
        assert forall|id: Seq<char>| #[trigger]
            t.statuses.contains_key(id) && t.statuses[id] is Pending implies t.queued(id) by {
            assert(id != head);
            assert(s.queued(id));
            let k = choose|k: int| 0 <= k < s.queue.len() && (#[trigger] s.queue[k]).task_id == id;
            assert(k > 0);
            assert(t.queue[k - 1] == s.queue[k]);
        }
    }
}

/// Recording an outcome keeps the invariant.
pub proof fn lemma_finish_keeps_wf(
    s: ServiceView,
    id: Seq<char>,
    outcome: Result<Seq<char>, ZkpErrorView>,
)
    requires
        s.wf(),
    ensures
        s.finish(id, outcome).wf(),
{
    if s.running(id) {
        let t = s.finish(id, outcome);
        assert forall|i: int| 0 <= i < t.queue.len() implies t.statuses.contains_key(
            (#[trigger] t.queue[i]).task_id,
        ) && t.statuses[t.queue[i].task_id] is Pending by {
            assert(s.statuses[s.queue[i].task_id] is Pending);
        }
        assert forall|id2: Seq<char>| #[trigger]
            t.statuses.contains_key(id2) && t.statuses[id2] is Pending implies t.queued(id2) by {
            assert(id2 != id);
            assert(s.queued(id2));
        }
    }
}

/// Every event keeps the invariant.
pub proof fn lemma_step_keeps_wf(s: ServiceView, event: Event)
    requires
        s.wf(),
    ensures
        s.step(event).wf(),
{
    match event {
        Event::Submit { task } => {
            if s.admits(task) {
                lemma_enqueue_keeps_wf(s, task);
            }
        },
        Event::Dispatch => {
            lemma_dispatch_keeps_wf(s);
        },
        Event::Finish { task_id, outcome } => {
            lemma_finish_keeps_wf(s, task_id, outcome);
        },
        Event::Close => {
            assert(s.close().queue == s.queue);
            assert forall|id: Seq<char>| #[trigger]
                s.close().statuses.contains_key(id) && s.close().statuses[id] is Pending implies s.close().queued(
                id,
            ) by {
                assert(s.queued(id));
            }
        },
        Event::WriteState { key, value } => {
            let t = s.write(key, value);
            assert(t.queue == s.queue);
            assert forall|id: Seq<char>| #[trigger]
                t.statuses.contains_key(id) && t.statuses[id] is Pending implies t.queued(id) by {
                assert(s.queued(id));
            }
        },
    }
}

/// Every sequence of events keeps the invariant.
pub proof fn lemma_run_keeps_wf(s: ServiceView, events: Seq<Event>)
    requires
        s.wf(),
    ensures
        s.run(events).wf(),
    decreases events.len(),
{
    if events.len() > 0 {
        lemma_run_keeps_wf(s, events.drop_last());
        lemma_step_keeps_wf(s.run(events.drop_last()), events.last());
    }
}

/// A service that knows no job satisfies the invariant.
pub proof fn lemma_initial_wf(mock_mode: bool)
    ensures
        ServiceView::initial(mock_mode).wf(),
{
}

} // verus!
