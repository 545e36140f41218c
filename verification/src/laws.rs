//! What holds of the service in every state and over every sequence of
//! events: the lifecycle is one-directional, every job is handed out once,
//! work left never grows by working, and the queue is first-in, first-out.

use vstd::prelude::*;
use crate::backend::{
    exit_ok,
    mock_document,
    mock_marker,
    mock_outcome,
    read_outcome,
    report_failure,
    Backend,
    ProverReport,
};
use crate::errors::ZkpErrorView;
use crate::ident::id_shaped;
use crate::json::{json_plain, json_string_text};
use crate::model::{lemma_run_keeps_wf, lemma_step_keeps_wf, Event, ServiceView};
use crate::status::lemma_reaches_transitive;
use crate::types::{StatusView, TaskView};
use crate::worker::{StageView, WorkerEvent, WorkerView};

verus! {

/// The state after the first `k` of `events`.
pub open spec fn state_after(s: ServiceView, events: Seq<Event>, k: int) -> ServiceView {
    s.run(events.take(k))
}

/// Running one more event is one more step.
pub proof fn lemma_state_after_next(s: ServiceView, events: Seq<Event>, k: int)
    requires
        0 <= k < events.len(),
    ensures
        state_after(s, events, k + 1) == state_after(s, events, k).step(events[k]),
        state_after(s, events, 0) == s,
{
    assert(events.take(k + 1).drop_last() =~= events.take(k));
    assert(events.take(k + 1).last() == events[k]);
    assert(events.take(0).len() == 0);
}

/// A job is pending right after its submission was accepted, and a lookup
/// then reports it as pending.
pub proof fn law_submitted_job_is_pending(s: ServiceView, task: TaskView)
    requires
        s.admits(task),
    ensures
        s.submit(task).knows(task.task_id),
        s.submit(task).statuses[task.task_id] == StatusView::Pending,
        s.submit(task).statuses[task.task_id].response(task.task_id)
            == StatusView::Pending.response(task.task_id),
{
}

/// No event moves a known job backwards: after any event the job is still
/// known, and its state is the one before or the next one of the
/// lifecycle. In particular a terminal state never changes.
pub proof fn law_step_advances(s: ServiceView, event: Event, id: Seq<char>)
    requires
        s.wf(),
        s.knows(id),
    ensures
        s.step(event).knows(id),
        s.step(event).statuses[id] == s.statuses[id] || s.statuses[id].steps_to(
            s.step(event).statuses[id],
        ),
        s.statuses[id].reaches(s.step(event).statuses[id]),
        s.statuses[id].is_terminal() ==> s.step(event).statuses[id] == s.statuses[id],
{
    match event {
        Event::Dispatch => {
            if s.queue.len() > 0 {
                assert(s.statuses[s.queue[0].task_id] is Pending);
            }
        },
        _ => {},
    }
}

/// A job enters the status store as `Pending`: no job is first seen in
/// any other state.
pub proof fn law_new_job_is_pending(s: ServiceView, event: Event, id: Seq<char>)
    requires
        s.wf(),
        !s.knows(id),
        s.step(event).knows(id),
    ensures
        s.step(event).statuses[id] == StatusView::Pending,
        event matches Event::Submit { task } && task.task_id == id,
{
    match event {
        Event::Dispatch => {
            if s.queue.len() > 0 {
                assert(s.knows(s.queue[0].task_id));
            }
        },
        _ => {},
    }
}

/// Over any sequence of events, what is seen of a job at a later time is
/// the state seen earlier or one that comes after it in the lifecycle:
/// the states observed form a subsequence of `Pending, InProgress,
/// Completed` or of `Pending, InProgress, Failed`.
pub proof fn law_observations_advance(
    s: ServiceView,
    events: Seq<Event>,
    i: int,
    j: int,
    id: Seq<char>,
)
    requires
        s.wf(),
        0 <= i <= j <= events.len(),
        state_after(s, events, i).knows(id),
    ensures
        state_after(s, events, j).knows(id),
        state_after(s, events, i).statuses[id].reaches(state_after(s, events, j).statuses[id]),
    decreases j - i,
{
    if i < j {
        law_observations_advance(s, events, i, j - 1, id);
        lemma_state_after_next(s, events, j - 1);
        lemma_run_keeps_wf(s, events.take(j - 1));
        law_step_advances(state_after(s, events, j - 1), events[j - 1], id);
        lemma_reaches_transitive(
            state_after(s, events, i).statuses[id],
            state_after(s, events, j - 1).statuses[id],
            state_after(s, events, j).statuses[id],
        );
    }
}

/// No worker sees a job that the status store does not know: whatever
/// happened since the service started, a job that is handed out was
/// registered and pending until then, and is in progress from then on.
pub proof fn law_handed_out_job_was_pending(mock_mode: bool, events: Seq<Event>, event: Event)
    requires
        ServiceView::initial(mock_mode).run(events).handed_out(event) is Some,
    ensures
        ({
            let s = ServiceView::initial(mock_mode).run(events);
            let id = s.handed_out(event)->0.task_id;
            &&& s.wf()
            &&& s.knows(id)
            &&& s.statuses[id] == StatusView::Pending
            &&& s.step(event).statuses[id] == StatusView::InProgress
        }),
{
    lemma_run_keeps_wf(ServiceView::initial(mock_mode), events);
    let s = ServiceView::initial(mock_mode).run(events);
    assert(s.statuses[s.queue[0].task_id] is Pending);
}

/// Exactly-once delivery: over any sequence of events, a job that was
/// handed to a worker is never handed out again.
pub proof fn law_job_handed_out_once(s: ServiceView, events: Seq<Event>, i: int, j: int)
    requires
        s.wf(),
        0 <= i < j < events.len(),
        state_after(s, events, i).handed_out(events[i]) is Some,
        state_after(s, events, j).handed_out(events[j]) is Some,
    ensures
        state_after(s, events, i).handed_out(events[i])->0.task_id != state_after(
            s,
            events,
            j,
        ).handed_out(events[j])->0.task_id,
{
    let si = state_after(s, events, i);
    let sj = state_after(s, events, j);
    let id = si.queue[0].task_id;
    lemma_run_keeps_wf(s, events.take(i));
    lemma_run_keeps_wf(s, events.take(j));
    lemma_state_after_next(s, events, i);
    assert(state_after(s, events, i + 1).statuses[id] is InProgress);
    law_observations_advance(s, events, i + 1, j, id);
    assert(!(sj.statuses[id] is Pending));
    assert(sj.statuses[sj.queue[0].task_id] is Pending);
}

/// Exactly-once execution: over any sequence of events, once an outcome
/// was recorded for a job, no later report for it is taken.
pub proof fn law_outcome_recorded_once(
    s: ServiceView,
    events: Seq<Event>,
    i: int,
    j: int,
    id: Seq<char>,
)
    requires
        s.wf(),
        0 <= i < j <= events.len(),
        events[i] matches Event::Finish { task_id, .. } && task_id == id,
        state_after(s, events, i).running(id),
    ensures
        state_after(s, events, j).knows(id),
        state_after(s, events, j).statuses[id] == state_after(s, events, i + 1).statuses[id],
        state_after(s, events, j).statuses[id].is_terminal(),
        !state_after(s, events, j).running(id),
{
    lemma_state_after_next(s, events, i);
    law_observations_advance(s, events, i + 1, j, id);
}

/// The jobs that some worker holds.
pub open spec fn in_progress(s: ServiceView) -> Set<Seq<char>> {
    Set::new(|id: Seq<char>| s.running(id))
}

/// The work left: two steps for every job that waits, to take it and to
/// finish it, and one for every job in progress.
pub open spec fn backlog(s: ServiceView) -> nat {
    2 * s.queue.len() + in_progress(s).len()
}

/// Whether `event` is a worker's step that does something in state `s`:
/// taking a job that waits, or reporting on a job in progress.
pub open spec fn is_work(s: ServiceView, event: Event) -> bool {
    match event {
        Event::Dispatch => s.queue.len() > 0,
        Event::Finish { task_id, .. } => s.running(task_id),
        _ => false,
    }
}

/// Finitely many jobs are in progress.
pub proof fn lemma_in_progress_finite(s: ServiceView)
    requires
        s.wf(),
    ensures
        in_progress(s).finite(),
{
    assert(in_progress(s).subset_of(s.statuses.dom()));
    vstd::set_lib::lemma_set_subset_finite(s.statuses.dom(), in_progress(s));
}

/// Every step of a worker takes one off the work left.
pub proof fn law_work_shrinks_backlog(s: ServiceView, event: Event)
    requires
        s.wf(),
        is_work(s, event),
    ensures
        backlog(s.step(event)) + 1 == backlog(s),
{
    lemma_in_progress_finite(s);
    let t = s.step(event);
    match event {
        Event::Dispatch => {
            let head = s.queue[0].task_id;
            assert(s.statuses[head] is Pending);
            assert(in_progress(t) =~= in_progress(s).insert(head));
        },
        Event::Finish { task_id, outcome } => {
            assert(in_progress(t) =~= in_progress(s).remove(task_id));
        },
        _ => {},
    }
}

/// An accepted submission adds two to the work left, and no other event
/// adds any.
pub proof fn law_only_submission_grows_backlog(s: ServiceView, event: Event)
    requires
        s.wf(),
    ensures
        backlog(s.step(event)) == backlog(s) + (if is_work(s, event) {
            -1int
        } else if event matches Event::Submit { task } && s.admits(task) {
            2int
        } else {
            0int
        }),
{
    lemma_in_progress_finite(s);
    let t = s.step(event);
    if is_work(s, event) {
        law_work_shrinks_backlog(s, event);
    } else {
        match event {
            Event::Submit { task } => {
                if s.admits(task) {
                    assert(in_progress(t) =~= in_progress(s));
                }
            },
            Event::Close => {
                assert(in_progress(t) =~= in_progress(s));
            },
            Event::WriteState { key, value } => {
                assert(in_progress(t) =~= in_progress(s));
            },
            _ => {},
        }
    }
}

/// While work is left, some worker step is possible: a job waits and can
/// be taken, or a job is in progress and its outcome can be recorded.
pub proof fn law_work_left_can_be_done(s: ServiceView)
    requires
        s.wf(),
        backlog(s) > 0,
    ensures
        s.queue.len() > 0 || exists|id: Seq<char>| #[trigger] s.running(id),
{
    if s.queue.len() == 0 {
        lemma_in_progress_finite(s);
        assert(in_progress(s).len() > 0);
        let id = in_progress(s).choose();
        assert(in_progress(s).contains(id));
        assert(s.running(id));
    }
}

/// Once no work is left, every known job is in a terminal state.
pub proof fn law_no_work_left_means_all_terminal(s: ServiceView, id: Seq<char>)
    requires
        s.wf(),
        backlog(s) == 0,
        s.knows(id),
    ensures
        s.statuses[id].is_terminal(),
{
    lemma_in_progress_finite(s);
    if s.statuses[id] is Pending {
        assert(s.queued(id));
    }
    if s.statuses[id] is InProgress {
        assert(in_progress(s).contains(id));
    }
}

/// Liveness, as a count: over any sequence of worker steps the work left
/// goes down by one with every step. So from a state with `n` units of
/// work left, workers can take exactly `n` steps, whatever the backends
/// return and however the workers take turns, and after them every known
/// job is terminal.
pub proof fn law_workers_drain_backlog(s: ServiceView, events: Seq<Event>)
    requires
        s.wf(),
        forall|k: int|
            0 <= k < events.len() ==> is_work(#[trigger] state_after(s, events, k), events[k]),
    ensures
        backlog(s.run(events)) + events.len() == backlog(s),
        events.len() <= backlog(s),
    decreases events.len(),
{
    if events.len() > 0 {
        let shorter = events.drop_last();
        let n = shorter.len() as int;
        assert forall|k: int| 0 <= k < shorter.len() implies is_work(
            #[trigger] state_after(s, shorter, k),
            shorter[k],
        ) by {
            assert(shorter.take(k) =~= events.take(k));
            assert(is_work(state_after(s, events, k), events[k]));
        }
        law_workers_drain_backlog(s, shorter);
        assert(events.take(n) =~= shorter);
        assert(is_work(state_after(s, events, n), events[n]));
        lemma_run_keeps_wf(s, shorter);
        law_work_shrinks_backlog(s.run(shorter), events.last());
    }
}

/// What a worker's step does to the service, as events: the report on
/// the job it holds, if the step ends that job, and then a turn to the
/// queue; or only a turn to the queue, for an idle worker that is woken;
/// or nothing.
pub open spec fn worker_events(worker: WorkerView, event: WorkerEvent, stamp: Seq<char>) -> Seq<
    Event,
> {
    match (worker.stage, event) {
        (StageView::Idle, WorkerEvent::Wake) => seq![Event::Dispatch],
        (StageView::Delaying(task), WorkerEvent::Elapsed) => seq![
            Event::Finish { task_id: task.task_id, outcome: mock_outcome(task, stamp) },
            Event::Dispatch,
        ],
        (StageView::Proving(task), WorkerEvent::ProverEnded(report)) => match report_failure(
            report,
        ) {
            Some(e) => seq![
                Event::Finish { task_id: task.task_id, outcome: Err(e) },
                Event::Dispatch,
            ],
            None => Seq::empty(),
        },
        (StageView::Reading(task), WorkerEvent::ProofRead(read)) => seq![
            Event::Finish { task_id: task.task_id, outcome: read_outcome(read) },
            Event::Dispatch,
        ],
        _ => Seq::empty(),
    }
}

/// The service after no event, after one and after two.
pub proof fn lemma_run_short(s: ServiceView, a: Event, b: Event)
    ensures
        s.run(Seq::empty()) == s,
        s.run(seq![a]) == s.step(a),
        s.run(seq![a, b]) == s.step(a).step(b),
{
    let none = Seq::<Event>::empty();
    assert(s.run(none) == s);
    assert(seq![a].drop_last() =~= none);
    assert(seq![a].last() == a);
    assert(s.run(seq![a]) == s.run(none).step(a));
    assert(seq![a, b].drop_last() =~= seq![a]);
    assert(seq![a, b].last() == b);
    assert(s.run(seq![a, b]) == s.run(seq![a]).step(b));
}

/// A worker acts on the service through the service's own events only:
/// every step of a worker is at most a report on the job it holds and a
/// turn to the queue. So whatever holds over every sequence of events
/// holds however many workers run, in whatever order they take their
/// steps.
pub proof fn law_worker_step_is_events(
    worker: WorkerView,
    s: ServiceView,
    event: WorkerEvent,
    stamp: Seq<char>,
)
    requires
        s.wf(),
    ensures
        worker.step(s, event, stamp).1 == s.run(worker_events(worker, event, stamp)),
        worker.step(s, event, stamp).1.wf(),
        worker_events(worker, event, stamp).len() <= 2,
{
    let events = worker_events(worker, event, stamp);
    lemma_run_keeps_wf(s, events);
    if events.len() == 1 {
        lemma_run_short(s, events[0], events[0]);
        assert(events =~= seq![events[0]]);
    } else if events.len() == 2 {
        lemma_run_short(s, events[0], events[1]);
        assert(events =~= seq![events[0], events[1]]);
    } else {
        assert(events =~= Seq::empty());
        lemma_run_short(s, Event::Dispatch, Event::Dispatch);
    }
}

/// A worker touches no job but its own: a step changes the state of the
/// job that the worker holds and of the job that it takes from the head
/// of the queue, and of no other.
pub proof fn law_worker_touches_only_its_job(
    worker: WorkerView,
    s: ServiceView,
    event: WorkerEvent,
    stamp: Seq<char>,
    id: Seq<char>,
)
    requires
        s.wf(),
        s.knows(id),
        worker.holding() matches Some(task) ==> task.task_id != id,
        s.queue.len() > 0 ==> s.queue[0].task_id != id,
    ensures
        worker.step(s, event, stamp).1.knows(id),
        worker.step(s, event, stamp).1.statuses[id] == s.statuses[id],
{
}

/// A worker holds one job at a time, and lets go of it only by recording
/// its outcome: after a step the worker holds the job it held before, or
/// that job's outcome was recorded and the worker holds the job it took
/// from the head of the queue, or none.
pub proof fn law_worker_holds_one_job(
    worker: WorkerView,
    s: ServiceView,
    event: WorkerEvent,
    stamp: Seq<char>,
)
    requires
        s.wf(),
        worker.holding() matches Some(task) ==> s.running(task.task_id),
    ensures
        ({
            let (after, t) = worker.step(s, event, stamp);
            &&& after.holding() matches Some(task) ==> t.running(task.task_id)
            &&& after.holding() != worker.holding() ==> {
                &&& worker.holding() matches Some(task) ==> t.statuses[task.task_id].is_terminal()
                &&& after.holding() matches Some(task) ==> s.queue.len() > 0 && task == s.queue[0]
            }
        }),
{
    if s.queue.len() > 0 {
        assert(s.statuses[s.queue[0].task_id] is Pending);
    }
}

/// Whether `needle` occurs in `text` as a run of consecutive characters.
pub open spec fn occurs_in(needle: Seq<char>, text: Seq<char>) -> bool {
    exists|k: int|
        0 <= k && k + needle.len() <= text.len() && #[trigger] text.subrange(
            k,
            k + needle.len(),
        ) == needle
}

/// A generated identifier needs no escaping in a JSON string.
pub proof fn lemma_generated_id_is_plain(id: Seq<char>)
    requires
        id_shaped(id),
    ensures
        json_plain(id),
{
}

/// The marker of a job whose identifier needs no escaping needs none
/// either.
pub proof fn lemma_marker_is_plain(task_id: Seq<char>)
    requires
        json_plain(task_id),
    ensures
        json_plain(mock_marker(task_id)),
{
    reveal_strlit("mock_proof_");
    let prefix = "mock_proof_"@;
    assert forall|i: int| 0 <= i < mock_marker(task_id).len() implies crate::json::json_plain_char(
        #[trigger] mock_marker(task_id)[i],
    ) by {
        if i < prefix.len() {
            assert(mock_marker(task_id)[i] == prefix[i]);
        } else {
            assert(mock_marker(task_id)[i] == task_id[i - prefix.len()]);
        }
    }
}

/// A job that asks for the mock backend runs on it, whatever the
/// process-wide switch says, and so does every job while the switch is
/// on.
pub proof fn law_mock_flag_selects_mock(s: ServiceView, task: TaskView, requested: bool)
    requires
        task == s.task_for(task.task_id, task.circuit_path, task.input, requested),
        s.mock_mode || requested,
    ensures
        task.mock_mode,
        Backend::choice(task.mock_mode, false) == Backend::Mock,
        Backend::choice(s.mock_mode, requested) == Backend::Mock,
{
}

/// The mock backend's proof carries `mock_proof_` followed by the job's
/// identifier, for every identifier that needs no escaping in a JSON
/// string, a generated one among them.
pub proof fn law_mock_proof_carries_marker(task: TaskView, timestamp: Seq<char>)
    requires
        json_plain(task.task_id) || id_shaped(task.task_id),
    ensures
        occurs_in(mock_marker(task.task_id), mock_document(task, timestamp)),
{
    lemma_marker_is_plain(task.task_id);
    let marker = mock_marker(task.task_id);
    let before = "{\"circuit_path\":"@ + json_string_text(task.circuit_path) + ",\"input\":"@
        + task.input + ",\"proof\":"@;
    let after = ",\"task_id\":"@ + json_string_text(task.task_id) + ",\"timestamp\":"@
        + json_string_text(timestamp) + "}"@;
    let document = mock_document(task, timestamp);
    assert(json_string_text(marker) == seq!['"'] + marker + seq!['"']);
    assert(document =~= before + seq!['"'] + marker + seq!['"'] + after);
    let k = before.len() as int + 1;
    assert(document.subrange(k, k + marker.len()) =~= marker);
}

/// A job in progress whose backend returned `proof` ends as `Completed`
/// with exactly that proof.
pub proof fn law_returned_proof_completes_job(s: ServiceView, id: Seq<char>, proof: Seq<char>)
    requires
        s.running(id),
    ensures
        s.finish(id, Ok(proof)).statuses[id] == (StatusView::Completed { proof }),
{
}

/// The mock backend never fails a job that the service accepted: once a
/// worker took the oldest waiting job and ran the mock backend on it, at
/// whatever time, the job is `Completed`, its proof is the mock document,
/// and that document carries `mock_proof_` followed by the job's
/// identifier wherever the identifier needs no escaping.
pub proof fn law_mock_job_completes(s: ServiceView, timestamp: Seq<char>)
    requires
        s.wf(),
        s.queue.len() > 0,
    ensures
        ({
            let task = s.queue[0];
            let t = s.dispatch().finish(task.task_id, mock_outcome(task, timestamp));
            &&& t.statuses[task.task_id] == (StatusView::Completed {
                proof: mock_document(task, timestamp),
            })
            &&& json_plain(task.task_id) || id_shaped(task.task_id) ==> occurs_in(
                mock_marker(task.task_id),
                t.statuses[task.task_id]->proof,
            )
        }),
{
    let task = s.queue[0];
    assert(crate::json::json_well_formed(task.input));
    if json_plain(task.task_id) || id_shaped(task.task_id) {
        law_mock_proof_carries_marker(task, timestamp);
    }
}

/// A prover that exits with anything but code zero fails its job, and the
/// job's error is the captured error stream, character for character.
pub proof fn law_failed_exit_fails_job(s: ServiceView, id: Seq<char>, report: ProverReport)
    requires
        s.running(id),
        report matches ProverReport::Exited { code, .. } && !exit_ok(code),
    ensures
        report_failure(report) == Some(ZkpErrorView::ProofGenerationError(report->stderr@)),
        s.finish(id, Err(report_failure(report)->0)).statuses[id] == (StatusView::Failed {
            error: report->stderr@,
        }),
{
}

/// A prover that exits with code zero and leaves a readable proof
/// completes its job with the file's contents, and one that leaves no
/// readable proof fails it with the reason.
pub proof fn law_proof_file_decides_job(s: ServiceView, id: Seq<char>, read: Result<String, String>)
    requires
        s.running(id),
    ensures
        s.finish(id, read_outcome(read)).statuses[id] == match read {
            Ok(contents) => StatusView::Completed { proof: contents@ },
            Err(reason) => StatusView::Failed { error: reason@ },
        },
{
}

/// Job `a` is served no later than job `b`: both are known, `b` has left
/// the queue only if `a` has, and while both wait `a` stands before `b`.
pub open spec fn served_before(s: ServiceView, a: Seq<char>, b: Seq<char>) -> bool {
    &&& s.knows(a)
    &&& s.knows(b)
    &&& s.dequeued(b) ==> s.dequeued(a)
    &&& forall|i: int, j: int|
        0 <= i < s.queue.len() && 0 <= j < s.queue.len() && (#[trigger] s.queue[i]).task_id == a
            && (#[trigger] s.queue[j]).task_id == b ==> i < j
}

/// A job that was accepted before job `b` was submitted is served no
/// later than `b`.
pub proof fn law_earlier_submission_is_served_first(s: ServiceView, a: Seq<char>, b: TaskView)
    requires
        s.wf(),
        s.knows(a),
        s.admits(b),
    ensures
        served_before(s.submit(b), a, b.task_id),
{
    let t = s.submit(b);
    assert forall|i: int, j: int|
        0 <= i < t.queue.len() && 0 <= j < t.queue.len() && (#[trigger] t.queue[i]).task_id == a
            && (#[trigger] t.queue[j]).task_id == b.task_id implies i < j by {
        if j < s.queue.len() {
            assert(t.queue[j] == s.queue[j]);
            assert(s.knows(s.queue[j].task_id));
        }
    }
}

/// First in, first out: no event lets a later job overtake an earlier one
/// on its way out of the queue.
pub proof fn law_step_keeps_order(s: ServiceView, event: Event, a: Seq<char>, b: Seq<char>)
    requires
        s.wf(),
        served_before(s, a, b),
    ensures
        served_before(s.step(event), a, b),
{
    let t = s.step(event);
    law_step_advances(s, event, a);
    law_step_advances(s, event, b);
    lemma_step_keeps_wf(s, event);
    match event {
        Event::Submit { task } => {
            if s.admits(task) {
                assert forall|i: int, j: int|
                    0 <= i < t.queue.len() && 0 <= j < t.queue.len() && (
                    #[trigger] t.queue[i]).task_id == a && (#[trigger] t.queue[j]).task_id
                        == b implies i < j by {
                    assert(t.queue[i] == s.queue[i]);
                    assert(t.queue[j] == s.queue[j]);
                }
            }
        },
        Event::Dispatch => {
            if s.queue.len() > 0 {
                let head = s.queue[0].task_id;
                assert(s.statuses[head] is Pending);
                if head == b && !s.dequeued(a) {
                    assert(s.statuses[a] is Pending);
                    assert(s.queued(a));
                    let k = choose|k: int|
                        0 <= k < s.queue.len() && (#[trigger] s.queue[k]).task_id == a;
                    assert(k < 0);
                }
                assert forall|i: int, j: int|
                    0 <= i < t.queue.len() && 0 <= j < t.queue.len() && (
                    #[trigger] t.queue[i]).task_id == a && (#[trigger] t.queue[j]).task_id
                        == b implies i < j by {
                    assert(t.queue[i] == s.queue[i + 1]);
                    assert(t.queue[j] == s.queue[j + 1]);
                }
            }
        },
        Event::Finish { task_id, outcome } => {
            assert(t.queue == s.queue);
        },
        Event::Close => {
            assert(t.queue == s.queue);
        },
        Event::WriteState { key, value } => {
            assert(t.queue == s.queue);
        },
    }
}

/// First in, first out, over time: if job `a` was accepted before job `b`
/// was submitted, then after any sequence of events `b` has been taken by
/// a worker only if `a` has.
pub proof fn law_dequeued_in_submission_order(
    s: ServiceView,
    a: Seq<char>,
    b: TaskView,
    events: Seq<Event>,
)
    requires
        s.wf(),
        s.knows(a),
        s.admits(b),
    ensures
        served_before(s.submit(b).run(events), a, b.task_id),
        s.submit(b).run(events).dequeued(b.task_id) ==> s.submit(b).run(events).dequeued(a),
    decreases events.len(),
{
    law_earlier_submission_is_served_first(s, a, b);
    lemma_step_keeps_wf(s, Event::Submit { task: b });
    if events.len() > 0 {
        law_dequeued_in_submission_order(s, a, b, events.drop_last());
        lemma_run_keeps_wf(s.submit(b), events.drop_last());
        law_step_keeps_order(s.submit(b).run(events.drop_last()), events.last(), a, b.task_id);
    }
}

/// Completion order is free: with `a` first and `b` second in the queue,
/// two workers can take both, and `b` can finish while `a` is still in
/// progress.
pub proof fn law_completion_order_is_free(
    s: ServiceView,
    outcome: Result<Seq<char>, ZkpErrorView>,
)
    requires
        s.wf(),
        s.queue.len() >= 2,
    ensures
        ({
            let a = s.queue[0].task_id;
            let b = s.queue[1].task_id;
            let t = s.dispatch().dispatch().finish(b, outcome);
            &&& served_before(s, a, b)
            &&& t.statuses[b].is_terminal()
            &&& t.statuses[a] is InProgress
        }),
{
    let a = s.queue[0].task_id;
    let b = s.queue[1].task_id;
    assert(a != b);
    assert(s.statuses[a] is Pending && s.statuses[b] is Pending);
    assert(s.dispatch().queue[0] == s.queue[1]);
    assert forall|i: int, j: int|
        0 <= i < s.queue.len() && 0 <= j < s.queue.len() && (#[trigger] s.queue[i]).task_id == a
            && (#[trigger] s.queue[j]).task_id == b implies i < j by {
        if i != 0 {
            assert(s.queue[0].task_id != s.queue[i].task_id);
        }
        if j == 0 {
            assert(false);
        }
    }
}

} // verus!
