//! The job lifecycle: `Pending`, then `InProgress`, then `Completed` or
//! `Failed`. No state is revisited and the last two are final.

use vstd::prelude::*;
use crate::errors::{ZkpError, ZkpErrorView};
use crate::types::{ProofResponse, ProofStatus, ResponseView, StatusView};

verus! {

/// The mathematical value of a job's outcome: the proof text, or the
/// failure.
pub open spec fn outcome_view(outcome: Result<String, ZkpError>) -> Result<
    Seq<char>,
    ZkpErrorView,
> {
    match outcome {
        Ok(proof) => Ok(proof@),
        Err(e) => Err(e@),
    }
}

impl StatusView {
    /// `Completed` and `Failed` are terminal.
    pub open spec fn is_terminal(self) -> bool {
        self is Completed || self is Failed
    }

    /// How far along the lifecycle a state is.
    pub open spec fn stage(self) -> nat {
        match self {
            StatusView::Pending => 0,
            StatusView::InProgress => 1,
            StatusView::Completed { .. } => 2,
            StatusView::Failed { .. } => 2,
        }
    }

    /// One transition of the lifecycle: from `Pending` to `InProgress`, or
    /// from `InProgress` to a terminal state.
    pub open spec fn steps_to(self, next: StatusView) -> bool {
        (self is Pending && next is InProgress) || (self is InProgress && next.is_terminal())
    }

    /// `later` is `self` or comes after it in the lifecycle: what an
    /// observer may see at a later time.
    pub open spec fn reaches(self, later: StatusView) -> bool {
        self == later || self.stage() < later.stage()
    }

    /// The name under which a state is reported.
    pub open spec fn label(self) -> Seq<char> {
        match self {
            StatusView::Pending => "pending"@,
            StatusView::InProgress => "in_progress"@,
            StatusView::Completed { .. } => "completed"@,
            StatusView::Failed { .. } => "failed"@,
        }
    }

    /// The terminal state that records an outcome: `Completed` with the
    /// proof, or `Failed` with the detail of the failure.
    pub open spec fn of_outcome(outcome: Result<Seq<char>, ZkpErrorView>) -> StatusView {
        match outcome {
            Ok(proof) => StatusView::Completed { proof },
            Err(e) => StatusView::Failed { error: e.detail() },
        }
    }

    /// What a caller is told about job `task_id` in this state.
    pub open spec fn response(self, task_id: Seq<char>) -> ResponseView {
        ResponseView {
            task_id,
            status: self.label(),
            proof: match self {
                StatusView::Completed { proof } => Some(proof),
                _ => None,
            },
            error: match self {
                StatusView::Failed { error } => Some(error),
                _ => None,
            },
        }
    }
}

impl ProofStatus {
    /// Whether no further transition can follow this state.
    pub fn is_terminal(&self) -> (terminal: bool)
        ensures
            terminal == self@.is_terminal(),
    {
        match self {
            ProofStatus::Completed { .. } => true,
            ProofStatus::Failed { .. } => true,
            _ => false,
        }
    }

    /// Whether the lifecycle allows `next` directly after this state.
    pub fn can_become(&self, next: &ProofStatus) -> (allowed: bool)
        ensures
            allowed == self@.steps_to(next@),
    {
        match self {
            ProofStatus::Pending => match next {
                ProofStatus::InProgress => true,
                _ => false,
            },
            ProofStatus::InProgress => next.is_terminal(),
            _ => false,
        }
    }

    /// The name under which this state is reported.
    pub fn label(&self) -> (name: &'static str)
        ensures
            name@ == self@.label(),
    {
        match self {
            ProofStatus::Pending => "pending",
            ProofStatus::InProgress => "in_progress",
            ProofStatus::Completed { .. } => "completed",
            ProofStatus::Failed { .. } => "failed",
        }
    }

    /// The terminal state that records what a backend returned: `Completed`
    /// with the proof, or `Failed` with the detail of the failure.
    pub fn from_outcome(outcome: Result<String, ZkpError>) -> (status: ProofStatus)
        ensures
            status@ == StatusView::of_outcome(outcome_view(outcome)),
            status@.is_terminal(),
    {
        match outcome {
            Ok(proof) => ProofStatus::Completed { proof },
            Err(e) => ProofStatus::Failed { error: e.detail() },
        }
    }

    /// What a caller is told about job `task_id` in this state: the state's
    /// name, the proof if completed, the error if failed.
    pub fn response(&self, task_id: &str) -> (reply: ProofResponse)
        ensures
            reply@ == self@.response(task_id@),
    {
        let proof = match self {
            ProofStatus::Completed { proof } => Some(proof.clone()),
            _ => None,
        };
        let error = match self {
            ProofStatus::Failed { error } => Some(error.clone()),
            _ => None,
        };
        ProofResponse {
            task_id: String::from_str(task_id),
            status: String::from_str(self.label()),
            proof,
            error,
        }
    }
}

/// Whether every job known in `before` is still known in `after`, in the
/// state it had or in one that comes after it in the lifecycle: nothing
/// was forgotten and nothing moved backwards.
pub open spec fn advanced(
    before: Map<Seq<char>, StatusView>,
    after: Map<Seq<char>, StatusView>,
) -> bool {
    forall|id: Seq<char>| #[trigger]
        before.contains_key(id) ==> after.contains_key(id) && before[id].reaches(after[id])
}

/// A single transition is an advance.
pub proof fn lemma_step_reaches(from: StatusView, to: StatusView)
    requires
        from.steps_to(to),
    ensures
        from.reaches(to),
        from != to,
{
}

/// Advances compose: what is reachable from a reachable state is reachable.
pub proof fn lemma_reaches_transitive(a: StatusView, b: StatusView, c: StatusView)
    requires
        a.reaches(b),
        b.reaches(c),
    ensures
        a.reaches(c),
{
}

/// A terminal state reaches nothing but itself, and nothing follows it.
pub proof fn lemma_terminal_is_final(from: StatusView, to: StatusView)
    requires
        from.is_terminal(),
    ensures
        !from.steps_to(to),
        from.reaches(to) ==> to == from,
{
}

/// Every advance is made of at most two transitions, `Pending` first:
/// the states an observer sees over time form a subsequence of
/// `Pending, InProgress, Completed` or of `Pending, InProgress, Failed`.
pub proof fn lemma_reaches_unfolds(from: StatusView, to: StatusView)
    ensures
        from.reaches(to) <==> (from == to || from.steps_to(to) || (from is Pending
            && StatusView::Pending.steps_to(StatusView::InProgress)
            && StatusView::InProgress.steps_to(to))),
{
}

} // verus!
