//! The service itself: job submission, the status store, the work queue and
//! the worker-facing operations, held together by one invariant.

use vstd::prelude::*;
use vstd::hash_map::StringHashMap;
use crate::errors::{ZkpError, ZkpErrorView};
use crate::ident::{id_shaped, random_id};
use crate::json::{json_check, json_defect};
use crate::model::{
    lemma_dispatch_keeps_wf,
    lemma_enqueue_keeps_wf,
    lemma_finish_keeps_wf,
    lemma_step_keeps_wf,
    Event,
    ServiceView,
};
use crate::queue::{Dequeued, WorkQueue};
use crate::status::{advanced, outcome_view};
use crate::store::{unknown_task_detail, StatusStore};
use crate::types::{
    text_of,
    ProofRequest,
    ProofResponse,
    ProofStatus,
    QueuedProofTask,
    StatusView,
};

verus! {

/// The detail of the error for a request without a circuit reference.
pub open spec fn empty_circuit_detail() -> Seq<char> {
    "circuit_path must not be empty"@
}

/// The detail of the error for a job identifier that is already known.
pub open spec fn duplicate_task_detail() -> Seq<char> {
    "Task already exists"@
}

impl ServiceView {
    /// The error with which a submission is refused, by the first of its
    /// defects: `QueueClosed` where the queue is closed; `InvalidInput` for
    /// an empty circuit reference; `JsonError` with the parser's message for
    /// an input that is no JSON document; `InvalidInput` for an identifier
    /// that is already known.
    pub open spec fn refusal(self, circuit_path: Seq<char>, input: Seq<char>) -> ZkpErrorView {
        if self.closed {
            ZkpErrorView::QueueClosed
        } else if circuit_path.len() == 0 {
            ZkpErrorView::InvalidInput(empty_circuit_detail())
        } else if json_defect(input) is Some {
            ZkpErrorView::JsonError(json_defect(input)->0)
        } else {
            ZkpErrorView::InvalidInput(duplicate_task_detail())
        }
    }
}

/// The size of the worker pool: the configured number where one is
/// configured, else the number of processing units of the host; never
/// less than one, so that queued jobs are always worked on.
pub open spec fn pool_size(configured: Option<usize>, available: usize) -> usize {
    match configured {
        Some(n) => if n > 0 {
            n
        } else if available > 0 {
            available
        } else {
            1
        },
        None => if available > 0 {
            available
        } else {
            1
        },
    }
}

/// How many workers to start, given the configured number, if any, and
/// the number of processing units of the host.
pub fn worker_count(configured: Option<usize>, available: usize) -> (workers: usize)
    ensures
        workers == pool_size(configured, available),
        workers >= 1,
{
    let fallback: usize = if available > 0 {
        available
    } else {
        1
    };
    match configured {
        Some(n) => if n > 0 {
            n
        } else {
            fallback
        },
        None => fallback,
    }
}

/// The job service. Submitters register a job as pending and queue it;
/// workers take jobs from the queue, run them on a backend and report the
/// outcome; anyone may look up a job's state at any time.
pub struct ZkpService {
    state: StringHashMap<String>,
    active_proofs: StatusStore,
    queue: WorkQueue,
    mock_mode: bool,
}

impl View for ZkpService {
    type V = ServiceView;

    closed spec fn view(&self) -> ServiceView {
        ServiceView {
            statuses: self.active_proofs@,
            queue: self.queue@.items,
            closed: self.queue@.closed,
            mock_mode: self.mock_mode,
            state: self.state@.map_values(|value: String| value@),
        }
    }
}

impl ZkpService {
    /// The service's invariant, stated over its mathematical value.
    pub open spec fn wf(&self) -> bool {
        self@.wf()
    }

    /// A service that knows no job, with an open queue.
    pub fn new(mock_mode: bool) -> (service: ZkpService)
        ensures
            service.wf(),
            service@ == ServiceView::initial(mock_mode),
    {
        let service = ZkpService {
            state: StringHashMap::new(),
            active_proofs: StatusStore::new(),
            queue: WorkQueue::new(),
            mock_mode,
        };
        assert(service@.state =~= Map::empty());
        service
    }

    /// The process-wide mock switch.
    pub fn mock_mode(&self) -> (mock: bool)
        ensures
            mock == self@.mock_mode,
    {
        self.mock_mode
    }

    /// Whether the queue has stopped accepting jobs.
    pub fn is_closed(&self) -> (closed: bool)
        ensures
            closed == self@.closed,
    {
        self.queue.is_closed()
    }

    /// The number of jobs that wait for a worker.
    pub fn waiting(&self) -> (count: usize)
        ensures
            count == self@.queue.len(),
    {
        self.queue.len()
    }

    /// Submits `request` under the identifier `task_id`. The job is
    /// registered as `Pending` and then queued, and the reply reports it as
    /// pending. A refused submission changes nothing and fails by the first
    /// of its defects: `QueueClosed` where the queue is closed;
    /// `InvalidInput` for an empty circuit reference; `JsonError` for an
    /// input that is no JSON document; `InvalidInput` for an identifier that
    /// is already known.
    pub fn submit(&mut self, task_id: String, request: ProofRequest) -> (reply: Result<
        ProofResponse,
        ZkpError,
    >)
        requires
            old(self).wf(),
        ensures
            final(self).wf(),
            advanced(old(self)@.statuses, final(self)@.statuses),
            ({
                let task = old(self)@.task_for(
                    task_id@,
                    request.circuit_path@,
                    request.input@,
                    request.mock,
                );
                &&& final(self)@ == old(self)@.step(Event::Submit { task })
                &&& match reply {
                    Ok(response) => {
                        &&& old(self)@.admits(task)
                        &&& final(self)@ == old(self)@.enqueue(task)
                        &&& response@ == StatusView::Pending.response(task_id@)
                    },
                    Err(e) => {
                        &&& !old(self)@.admits(task)
                        &&& final(self)@ == old(self)@
                        &&& e@ == old(self)@.refusal(request.circuit_path@, request.input@)
                    },
                }
            }),
    {
        if self.queue.is_closed() {
            return Err(ZkpError::QueueClosed);
        }
        if request.circuit_path.as_str().is_empty() {
            return Err(
                ZkpError::InvalidInput(String::from_str("circuit_path must not be empty")),
            );
        }
        match json_check(request.input.as_str()) {
            Ok(()) => {},
            Err(e) => {
                return Err(e);
            },
        }
        if self.active_proofs.contains(task_id.as_str()) {
            return Err(ZkpError::InvalidInput(String::from_str("Task already exists")));
        }
        let reply = ProofStatus::Pending.response(task_id.as_str());
        let task = QueuedProofTask {
            task_id: task_id.clone(),
            circuit_path: request.circuit_path,
            input: request.input,
            mock_mode: self.mock_mode || request.mock,
        };
        proof {
            lemma_enqueue_keeps_wf(old(self)@, task@);
        }
        let fresh = self.active_proofs.register(task_id);
        let sent = self.queue.send(task);
        assert(fresh && sent is Ok);
        assert(self@ == old(self)@.enqueue(task@));
        Ok(reply)
    }

    /// Submits `request` under a fresh random identifier, which the reply
    /// carries. A refused submission changes nothing and fails as `submit`
    /// does. Where the queue is open, the circuit reference is not empty
    /// and the input is a JSON document, only an identifier that is already
    /// known can make the call fail.
    pub fn execute_zkp(&mut self, request: ProofRequest) -> (reply: Result<
        ProofResponse,
        ZkpError,
    >)
        requires
            old(self).wf(),
        ensures
            final(self).wf(),
            advanced(old(self)@.statuses, final(self)@.statuses),
            match reply {
                Ok(response) => {
                    let task = old(self)@.task_for(
                        response.task_id@,
                        request.circuit_path@,
                        request.input@,
                        request.mock,
                    );
                    &&& id_shaped(response.task_id@)
                    &&& old(self)@.admits(task)
                    &&& final(self)@ == old(self)@.enqueue(task)
                    &&& response@ == StatusView::Pending.response(response.task_id@)
                },
                Err(e) => {
                    &&& final(self)@ == old(self)@
                    &&& e@ == old(self)@.refusal(request.circuit_path@, request.input@)
                    &&& old(self)@.closed || request.circuit_path@.len() == 0 || json_defect(
                        request.input@,
                    ) is Some || exists|id: Seq<char>|
                        id_shaped(id) && #[trigger] old(self)@.knows(id)
                },
            },
    {
        let task_id = random_id();
        let ghost id = task_id@;
        let reply = self.submit(task_id, request);
        proof {
            if reply is Err && !old(self)@.closed && request.circuit_path@.len() > 0
                && json_defect(request.input@) is None {
                assert(id_shaped(id) && old(self)@.knows(id));
            }
        }
        reply
    }

    /// Looks up job `task_id`: its identifier, the name of its current
    /// state, the proof if completed, the error if failed. `InvalidInput` if
    /// and only if the identifier is unknown.
    pub fn retrieve_output(&self, task_id: &str) -> (reply: Result<ProofResponse, ZkpError>)
        ensures
            match reply {
                Ok(response) => {
                    &&& self@.knows(task_id@)
                    &&& response@ == self@.statuses[task_id@].response(task_id@)
                },
                Err(e) => {
                    &&& !self@.knows(task_id@)
                    &&& e@ == ZkpErrorView::InvalidInput(unknown_task_detail())
                },
            },
    {
        match self.active_proofs.get(task_id) {
            Ok(status) => Ok(status.response(task_id)),
            Err(e) => Err(e),
        }
    }

    /// A worker asks for work. Where a job waits, the oldest one is handed
    /// out and becomes `InProgress`. Where none waits, the reply says
    /// whether more may arrive (`Empty`) or the worker may exit (`Closed`),
    /// and nothing changes.
    pub fn next_task(&mut self) -> (got: Dequeued)
        requires
            old(self).wf(),
        ensures
            final(self).wf(),
            final(self)@ == old(self)@.step(Event::Dispatch),
            advanced(old(self)@.statuses, final(self)@.statuses),
            match got {
                Dequeued::Task(task) => {
                    &&& old(self)@.handed_out(Event::Dispatch) == Some(task@)
                    &&& old(self)@.queue.len() > 0
                    &&& task@ == old(self)@.queue[0]
                    &&& final(self)@.running(task.task_id@)
                },
                Dequeued::Empty => old(self)@.queue.len() == 0 && !old(self)@.closed,
                Dequeued::Closed => old(self)@.queue.len() == 0 && old(self)@.closed,
            },
    {
        proof {
            lemma_dispatch_keeps_wf(old(self)@);
        }
        let got = self.queue.receive();
        match got {
            Dequeued::Task(task) => {
                assert(old(self)@.statuses[old(self)@.queue[0].task_id] is Pending);
                let moved = self.active_proofs.advance(
                    task.task_id.as_str(),
                    ProofStatus::InProgress,
                );
                assert(moved);
                assert(self@ == old(self)@.dispatch());
                Dequeued::Task(task)
            },
            Dequeued::Empty => {
                assert(self@ == old(self)@);
                Dequeued::Empty
            },
            Dequeued::Closed => {
                assert(self@ == old(self)@);
                Dequeued::Closed
            },
        }
    }

    /// A worker reports what the backend returned for job `task_id`. A job
    /// in progress becomes `Completed` with the proof or `Failed` with the
    /// detail of the failure, and the call returns `true`. Any other job,
    /// known or not, is left as it is, and the call returns `false`.
    pub fn complete_task(&mut self, task_id: &str, outcome: Result<String, ZkpError>) -> (recorded:
        bool)
        requires
            old(self).wf(),
        ensures
            final(self).wf(),
            recorded == old(self)@.running(task_id@),
            final(self)@ == old(self)@.step(
                Event::Finish { task_id: task_id@, outcome: outcome_view(outcome) },
            ),
            advanced(old(self)@.statuses, final(self)@.statuses),
    {
        proof {
            lemma_finish_keeps_wf(old(self)@, task_id@, outcome_view(outcome));
        }
        let status = ProofStatus::from_outcome(outcome);
        let recorded = self.active_proofs.advance(task_id, status);
        assert(self@ == old(self)@.finish(task_id@, outcome_view(outcome)));
        recorded
    }

    /// Stops accepting jobs. The jobs that wait are still handed out.
    pub fn shutdown(&mut self)
        requires
            old(self).wf(),
        ensures
            final(self).wf(),
            final(self)@ == old(self)@.step(Event::Close),
    {
        self.queue.close();
        proof {
            assert(self@ == old(self)@.close());
            lemma_step_keeps_wf(old(self)@, Event::Close);
        }
    }

    /// Writes `value` under `key` in the key/value state, over what was
    /// there.
    pub fn write_state(&mut self, key: String, value: String)
        requires
            old(self).wf(),
        ensures
            final(self).wf(),
            final(self)@ == old(self)@.step(Event::WriteState { key: key@, value: value@ }),
    {
        let ghost event = Event::WriteState { key: key@, value: value@ };
        self.state.insert(key, value);
        proof {
            assert(self@.state =~= old(self)@.state.insert(key@, value@));
            assert(self@ == old(self)@.write(key@, value@));
            lemma_step_keeps_wf(old(self)@, event);
        }
    }

    /// The value last written under `key`, if any.
    pub fn query_state(&self, key: &str) -> (value: Option<String>)
        ensures
            text_of(value) == (if self@.state.contains_key(key@) {
                Some(self@.state[key@])
            } else {
                None
            }),
    {
        match self.state.get(key) {
            Some(value) => Some(value.clone()),
            None => None,
        }
    }
}

} // verus!
