//! The status store: the current lifecycle state of every known job.

use vstd::prelude::*;
use vstd::hash_map::StringHashMap;
use crate::errors::{ZkpError, ZkpErrorView};
use crate::status::advanced;
use crate::types::{ProofStatus, ProofTask, StatusView};

verus! {

/// The detail of the error that a lookup of an unknown job returns.
pub open spec fn unknown_task_detail() -> Seq<char> {
    "Task not found"@
}

/// A mapping from job identifier to current state. Entries are created as
/// `Pending` and only ever move forward along the lifecycle; none is
/// removed.
pub struct StatusStore {
    entries: StringHashMap<ProofTask>,
}

impl View for StatusStore {
    type V = Map<Seq<char>, StatusView>;

    closed spec fn view(&self) -> Map<Seq<char>, StatusView> {
        self.entries@.map_values(|task: ProofTask| task@)
    }
}

impl StatusStore {
    /// The store's invariant: finitely many jobs are known.
    pub open spec fn wf(&self) -> bool {
        self@.dom().finite()
    }

    /// An empty store.
    pub fn new() -> (store: StatusStore)
        ensures
            store@ == Map::<Seq<char>, StatusView>::empty(),
            store.wf(),
    {
        let store = StatusStore { entries: StringHashMap::new() };
        assert(store@ =~= Map::<Seq<char>, StatusView>::empty());
        store
    }

    /// Whether `task_id` is known.
    pub fn contains(&self, task_id: &str) -> (known: bool)
        ensures
            known == self@.contains_key(task_id@),
    {
        self.entries.contains_key(task_id)
    }

    /// The current state of job `task_id`; `InvalidInput` if and only if
    /// the identifier is unknown.
    pub fn get(&self, task_id: &str) -> (found: Result<ProofStatus, ZkpError>)
        ensures
            match found {
                Ok(status) => self@.contains_key(task_id@) && status@ == self@[task_id@],
                Err(e) => !self@.contains_key(task_id@) && e@ == ZkpErrorView::InvalidInput(
                    unknown_task_detail(),
                ),
            },
    {
        match self.entries.get(task_id) {
            Some(task) => Ok(task.status.clone()),
            None => Err(ZkpError::InvalidInput(String::from_str("Task not found"))),
        }
    }

    /// Registers `task_id` as `Pending` if it is not yet known, and says
    /// whether it did. A known identifier keeps its state.
    pub fn register(&mut self, task_id: String) -> (fresh: bool)
        requires
            old(self).wf(),
        ensures
            fresh == !old(self)@.contains_key(task_id@),
            fresh ==> final(self)@ == old(self)@.insert(task_id@, StatusView::Pending),
            !fresh ==> final(self)@ == old(self)@,
            advanced(old(self)@, final(self)@),
            final(self).wf(),
    {
        if self.entries.contains_key(task_id.as_str()) {
            return false;
        }
        let ghost id = task_id@;
        self.entries.insert(task_id, ProofTask { status: ProofStatus::Pending });
        assert(self@ =~= old(self)@.insert(id, StatusView::Pending));
        true
    }

    /// Moves job `task_id` to `next` if the lifecycle allows that
    /// transition from its current state, and says whether it did. An
    /// unknown job, or a transition the lifecycle does not allow, changes
    /// nothing.
    pub fn advance(&mut self, task_id: &str, next: ProofStatus) -> (moved: bool)
        requires
            old(self).wf(),
        ensures
            moved == (old(self)@.contains_key(task_id@) && old(self)@[task_id@].steps_to(next@)),
            moved ==> final(self)@ == old(self)@.insert(task_id@, next@),
            !moved ==> final(self)@ == old(self)@,
            advanced(old(self)@, final(self)@),
            final(self).wf(),
    {
        let allowed = match self.entries.get(task_id) {
            Some(task) => task.status.can_become(&next),
            None => false,
        };
        if !allowed {
            return false;
        }
        let ghost status = next@;
        self.entries.insert(String::from_str(task_id), ProofTask { status: next });
        assert(self@ =~= old(self)@.insert(task_id@, status));
        true
    }
}

} // verus!
