//! One worker of the pool as a state machine. The worker decides; its
//! host waits, sleeps, runs the prover and reads files, and tells the
//! worker how each of these ended.

use vstd::prelude::*;
use crate::backend::{
    after_read,
    after_run,
    command_for,
    generate_mock_proof,
    mock_outcome,
    proof_path_of,
    prover_command,
    read_outcome,
    report_failure,
    Backend,
    CommandView,
    ProverCommand,
    ProverNext,
    ProverReport,
    MOCK_DELAY_MS,
};
use crate::errors::{ZkpError, ZkpErrorView};
use crate::model::ServiceView;
use crate::queue::Dequeued;
use crate::service::ZkpService;
use crate::types::{QueuedProofTask, TaskView};

verus! {

/// What a worker asks its host to do next.
#[derive(Debug, PartialEq, Eq)]
pub enum WorkerAction {
    /// No job waits: block until one is queued or the queue is closed,
    /// then report `Wake`.
    Wait,
    /// Let `millis` milliseconds pass, then report `Elapsed`.
    Delay { millis: u64 },
    /// Run the prover, then report how the run ended.
    RunProver(ProverCommand),
    /// Read the file at `path`, then report what was read.
    ReadProof { path: String },
    /// The queue is closed and empty: the worker is done.
    Exit,
}

/// What the host tells a worker.
#[derive(Debug, PartialEq, Eq)]
pub enum WorkerEvent {
    /// The worker starts, or was woken from its wait.
    Wake,
    /// The delay is over.
    Elapsed,
    /// The prover was run; this is how the run ended.
    ProverEnded(ProverReport),
    /// The proof file was read, or could not be, for the reason given.
    ProofRead(Result<String, String>),
}

/// The mathematical value of a [`WorkerAction`].
pub enum ActionView {
    Wait,
    Delay { millis: u64 },
    RunProver(CommandView),
    ReadProof { path: Seq<char> },
    Exit,
}

impl View for WorkerAction {
    type V = ActionView;

    open spec fn view(&self) -> ActionView {
        match self {
            WorkerAction::Wait => ActionView::Wait,
            WorkerAction::Delay { millis } => ActionView::Delay { millis: *millis },
            WorkerAction::RunProver(command) => ActionView::RunProver(command@),
            WorkerAction::ReadProof { path } => ActionView::ReadProof { path: path@ },
            WorkerAction::Exit => ActionView::Exit,
        }
    }
}

/// Where a worker stands: idle, or busy with the one job it holds, or
/// stopped.
pub enum StageView {
    /// The worker holds no job.
    Idle,
    /// The worker holds a mock job and waits for the delay to pass.
    Delaying(TaskView),
    /// The worker holds a prover job and waits for the run to end.
    Proving(TaskView),
    /// The prover succeeded and the worker waits for the proof file.
    Reading(TaskView),
    /// The worker has exited.
    Stopped,
}

/// The mathematical value of a [`Worker`].
pub struct WorkerView {
    /// The prover executable that this worker runs.
    pub prover: Seq<char>,
    pub stage: StageView,
}

enum Stage {
    Idle,
    Delaying(QueuedProofTask),
    Proving(QueuedProofTask),
    Reading(QueuedProofTask),
    Stopped,
}

/// A worker of the pool. It holds at most one job, reports only on the
/// job it holds, and takes the next job as soon as it has reported.
pub struct Worker {
    prover: String,
    stage: Stage,
}

impl View for Worker {
    type V = WorkerView;

    closed spec fn view(&self) -> WorkerView {
        WorkerView {
            prover: self.prover@,
            stage: match self.stage {
                Stage::Idle => StageView::Idle,
                Stage::Delaying(task) => StageView::Delaying(task@),
                Stage::Proving(task) => StageView::Proving(task@),
                Stage::Reading(task) => StageView::Reading(task@),
                Stage::Stopped => StageView::Stopped,
            },
        }
    }
}

impl WorkerView {
    /// The job that the worker holds, if it holds one.
    pub open spec fn holding(self) -> Option<TaskView> {
        match self.stage {
            StageView::Idle => None,
            StageView::Delaying(task) => Some(task),
            StageView::Proving(task) => Some(task),
            StageView::Reading(task) => Some(task),
            StageView::Stopped => None,
        }
    }

    /// What the worker waits for in its stage: the action that it asked
    /// for last.
    pub open spec fn awaits(self) -> ActionView {
        match self.stage {
            StageView::Idle => ActionView::Wait,
            StageView::Delaying(_) => ActionView::Delay { millis: MOCK_DELAY_MS },
            StageView::Proving(task) => ActionView::RunProver(command_for(self.prover, task)),
            StageView::Reading(task) => ActionView::ReadProof {
                path: proof_path_of(task.circuit_path),
            },
            StageView::Stopped => ActionView::Exit,
        }
    }

    /// The worker turns to the queue. It takes the oldest waiting job,
    /// which becomes `InProgress`, and starts on the backend that the job's
    /// flag selects: the delay of the mock, or a run of the prover. Where
    /// nothing waits it goes idle, or stops if the queue is closed.
    pub open spec fn take_next(self, service: ServiceView) -> (WorkerView, ServiceView) {
        if service.queue.len() > 0 {
            let task = service.queue[0];
            let stage = if Backend::choice(task.mock_mode, false) == Backend::Mock {
                StageView::Delaying(task)
            } else {
                StageView::Proving(task)
            };
            (WorkerView { stage, ..self }, service.dispatch())
        } else if service.closed {
            (WorkerView { stage: StageView::Stopped, ..self }, service)
        } else {
            (WorkerView { stage: StageView::Idle, ..self }, service)
        }
    }

    /// The worker records `outcome` for the job `task` that it holds, and
    /// turns to the queue again.
    pub open spec fn settle(
        self,
        service: ServiceView,
        task: TaskView,
        outcome: Result<Seq<char>, ZkpErrorView>,
    ) -> (WorkerView, ServiceView) {
        self.take_next(service.finish(task.task_id, outcome))
    }

    /// One step of the worker: where it stands and what the service holds
    /// after `event`. `stamp` is the time at which a mock proof is
    /// generated.
    ///
    /// An idle worker that is woken turns to the queue. When the delay of
    /// a mock job is over, the worker records the mock proof. When the
    /// prover ended, the worker records the failure, if it failed, or goes
    /// on to read the proof file. When the proof file was read, the worker
    /// records its contents, or the failure to read it. An event that the
    /// worker does not wait for changes nothing.
    pub open spec fn step(self, service: ServiceView, event: WorkerEvent, stamp: Seq<char>) -> (
        WorkerView,
        ServiceView,
    ) {
        match (self.stage, event) {
            (StageView::Idle, WorkerEvent::Wake) => self.take_next(service),
            (StageView::Delaying(task), WorkerEvent::Elapsed) => self.settle(
                service,
                task,
                mock_outcome(task, stamp),
            ),
            (StageView::Proving(task), WorkerEvent::ProverEnded(report)) => match report_failure(
                report,
            ) {
                Some(e) => self.settle(service, task, Err(e)),
                None => (WorkerView { stage: StageView::Reading(task), ..self }, service),
            },
            (StageView::Reading(task), WorkerEvent::ProofRead(read)) => self.settle(
                service,
                task,
                read_outcome(read),
            ),
            _ => (self, service),
        }
    }
}

impl Worker {
    /// An idle worker that runs `prover` for the jobs of the prover
    /// backend.
    pub fn new(prover: &str) -> (worker: Worker)
        ensures
            worker@ == (WorkerView { prover: prover@, stage: StageView::Idle }),
    {
        Worker { prover: String::from_str(prover), stage: Stage::Idle }
    }

    /// Whether the worker has exited.
    pub fn is_stopped(&self) -> (stopped: bool)
        ensures
            stopped == (self@.stage is Stopped),
    {
        match self.stage {
            Stage::Stopped => true,
            _ => false,
        }
    }

    /// The identifier of the job that the worker holds, if it holds one.
    pub fn holding(&self) -> (held: Option<String>)
        ensures
            crate::types::text_of(held) == match self@.holding() {
                Some(task) => Some(task.task_id),
                None => None,
            },
    {
        match &self.stage {
            Stage::Delaying(task) => Some(task.task_id.clone()),
            Stage::Proving(task) => Some(task.task_id.clone()),
            Stage::Reading(task) => Some(task.task_id.clone()),
            _ => None,
        }
    }

    /// The action for the stage that the worker is in.
    fn action(&self) -> (action: WorkerAction)
        ensures
            action@ == self@.awaits(),
    {
        match &self.stage {
            Stage::Idle => WorkerAction::Wait,
            Stage::Delaying(_) => WorkerAction::Delay { millis: MOCK_DELAY_MS },
            Stage::Proving(task) => WorkerAction::RunProver(
                prover_command(self.prover.as_str(), task),
            ),
            Stage::Reading(task) => WorkerAction::ReadProof {
                path: prover_command(self.prover.as_str(), task).proof_path,
            },
            Stage::Stopped => WorkerAction::Exit,
        }
    }

    /// Turns to the queue for the next job.
    fn take_next(&mut self, service: &mut ZkpService)
        requires
            old(service).wf(),
        ensures
            final(service).wf(),
            (final(self)@, final(service)@) == old(self)@.take_next(old(service)@),
    {
        match service.next_task() {
            Dequeued::Task(task) => {
                match Backend::of_task(&task) {
                    Backend::Mock => {
                        self.stage = Stage::Delaying(task);
                    },
                    Backend::External => {
                        self.stage = Stage::Proving(task);
                    },
                }
            },
            Dequeued::Empty => {
                self.stage = Stage::Idle;
            },
            Dequeued::Closed => {
                self.stage = Stage::Stopped;
            },
        }
    }

    /// Records `outcome` for `task` and turns to the queue again.
    fn settle(
        &mut self,
        service: &mut ZkpService,
        task: QueuedProofTask,
        outcome: Result<String, ZkpError>,
    )
        requires
            old(service).wf(),
        ensures
            final(service).wf(),
            (final(self)@, final(service)@) == old(self)@.settle(
                old(service)@,
                task@,
                crate::status::outcome_view(outcome),
            ),
    {
        service.complete_task(task.task_id.as_str(), outcome);
        self.take_next(service);
    }

    /// One step of the worker. It takes what the host reports, does what
    /// follows from it on `service`, and returns what the host is to do
    /// next: the action that the worker's new stage waits for.
    pub fn step(&mut self, service: &mut ZkpService, event: WorkerEvent) -> (action: WorkerAction)
        requires
            old(service).wf(),
        ensures
            final(service).wf(),
            exists|stamp: Seq<char>|
                (final(self)@, final(service)@) == #[trigger] old(self)@.step(
                    old(service)@,
                    event,
                    stamp,
                ),
            action@ == final(self)@.awaits(),
    {
        let mut stage = Stage::Idle;
        core::mem::swap(&mut self.stage, &mut stage);
        let ghost before = old(self)@;
        match stage {
            Stage::Idle => {
                match event {
                    WorkerEvent::Wake => {
                        self.take_next(service);
                        assert((self@, service@) == before.step(old(service)@, event, Seq::empty()));
                    },
                    _ => {
                        assert((self@, service@) == before.step(old(service)@, event, Seq::empty()));
                    },
                }
            },
            Stage::Delaying(task) => {
                match event {
                    WorkerEvent::Elapsed => {
                        let outcome = generate_mock_proof(&task);
                        let ghost stamp = choose|stamp: Seq<char>|
                            crate::status::outcome_view(outcome) == #[trigger] mock_outcome(
                                task@,
                                stamp,
                            );
                        self.settle(service, task, outcome);
                        assert((self@, service@) == before.step(old(service)@, event, stamp));
                    },
                    _ => {
                        self.stage = Stage::Delaying(task);
                        assert((self@, service@) == before.step(old(service)@, event, Seq::empty()));
                    },
                }
            },
            Stage::Proving(task) => {
                match event {
                    WorkerEvent::ProverEnded(report) => {
                        let command = prover_command(self.prover.as_str(), &task);
                        match after_run(&command, report) {
                            ProverNext::ReadProof { path } => {
                                self.stage = Stage::Reading(task);
                            },
                            ProverNext::Fail(e) => {
                                self.settle(service, task, Err(e));
                            },
                        }
                        assert((self@, service@) == before.step(old(service)@, event, Seq::empty()));
                    },
                    _ => {
                        self.stage = Stage::Proving(task);
                        assert((self@, service@) == before.step(old(service)@, event, Seq::empty()));
                    },
                }
            },
            Stage::Reading(task) => {
                match event {
                    WorkerEvent::ProofRead(read) => {
                        let outcome = after_read(read);
                        self.settle(service, task, outcome);
                        assert((self@, service@) == before.step(old(service)@, event, Seq::empty()));
                    },
                    _ => {
                        self.stage = Stage::Reading(task);
                        assert((self@, service@) == before.step(old(service)@, event, Seq::empty()));
                    },
                }
            },
            Stage::Stopped => {
                self.stage = Stage::Stopped;
                assert((self@, service@) == before.step(old(service)@, event, Seq::empty()));
            },
        }
        self.action()
    }
}

} // verus!
