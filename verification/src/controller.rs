//! Which requests have a task. The supervisor starts one task for each
//! unfinished request it finds at startup and one for each new request,
//! and never a second one for a request whose task is still live.

use vstd::prelude::*;
use crate::ids::{RequestId, UserId};
use crate::storage::{first_occurrences, lemma_first_occurrences_are_the_tasks_once, unique_tasks};

verus! {

/// A request of a user: what one task works on.
pub type Task = (UserId, RequestId);

/// The book of live tasks.
pub struct TrackRequestController {
    live: Vec<Task>,
}

impl View for TrackRequestController {
    type V = Set<Task>;

    /// The requests whose task is live.
    closed spec fn view(&self) -> Set<Task> {
        self.live@.to_set()
    }
}

impl TrackRequestController {
    /// The invariant of the book: no request is entered twice.
    pub closed spec fn wf(&self) -> bool {
        self.live@.no_duplicates()
    }

    /// Opens the book at startup. Of the `tasks` found in the store each
    /// request gets one task, however often it was found: `to_spawn` holds
    /// the requests to start a task for, each once, in the order found.
    pub fn create(tasks: &Vec<Task>) -> (opened: (Self, Vec<Task>))
        ensures
            opened.0.wf(),
            opened.0@ == tasks@.to_set(),
            opened.1@ == first_occurrences(tasks@, tasks.len() as int),
            opened.1@.no_duplicates(),
            opened.1@.to_set() == tasks@.to_set(),
    {
        let to_spawn = unique_tasks(tasks);
        let live = unique_tasks(tasks);
        proof {
            lemma_first_occurrences_are_the_tasks_once(tasks@, tasks.len() as int);
        }
        (TrackRequestController { live }, to_spawn)
    }

    /// Whether the request has a live task.
    pub fn is_live(&self, user_id: &UserId, request_id: &RequestId) -> (live: bool)
        requires
            self.wf(),
        ensures
            live == self@.contains((*user_id, *request_id)),
    {
        let mut i: usize = 0;
        while i < self.live.len()
            invariant
                i <= self.live.len(),
                forall|earlier: int|
                    0 <= earlier < i ==> self.live@[earlier] != (*user_id, *request_id),
            decreases self.live.len() - i,
        {
            if self.live[i].0.0 == user_id.0 && self.live[i].1.0 == request_id.0 {
                return true;
            }
            i += 1;
        }
        false
    }

    /// Enters the request as live, unless it is so already. Says whether
    /// a task is to be started for it: `false` means that one is live.
    pub fn spawn_task(&mut self, user_id: UserId, request_id: RequestId) -> (start: bool)
        requires
            old(self).wf(),
        ensures
            final(self).wf(),
            start == !old(self)@.contains((user_id, request_id)),
            final(self)@ == old(self)@.insert((user_id, request_id)),
    {
        if self.is_live(&user_id, &request_id) {
            false
        } else {
            self.live.push((user_id, request_id));
            proof {
                let task = (user_id, request_id);
                assert forall|other: Task|
                    self.live@.contains(other) <==> old(self).live@.contains(other) || other
                        == task by {
                    if old(self).live@.contains(other) {
                        let i = choose|i: int|
                            0 <= i < old(self).live@.len() && old(self).live@[i] == other;
                        assert(self.live@[i] == other);
                    }
                    if other == task {
                        assert(self.live@[self.live@.len() - 1] == other);
                    }
                }
            }
            true
        }
    }

    /// Strikes the request out once its task has ended, however it ended.
    pub fn task_ended(&mut self, user_id: &UserId, request_id: &RequestId)
        requires
            old(self).wf(),
        ensures
            final(self).wf(),
            final(self)@ == old(self)@.remove((*user_id, *request_id)),
    {
        let ghost task = (*user_id, *request_id);
        let mut i: usize = 0;
        while i < self.live.len()
            invariant
                i <= self.live.len(),
                self.live == old(self).live,
                self.wf(),
                task == (*user_id, *request_id),
                forall|earlier: int| 0 <= earlier < i ==> self.live@[earlier] != task,
            decreases self.live.len() - i,
        {
            if self.live[i].0.0 == user_id.0 && self.live[i].1.0 == request_id.0 {
                self.live.remove(i);
                proof {
                    let gone = i as int;
                    let before = old(self).live@;
                    let after = self.live@;
                    assert forall|other: Task|
                        after.contains(other) <==> before.contains(other) && other != task by {
                        if before.contains(other) && other != task {
                            let origin = choose|k: int| 0 <= k < before.len() && before[k] == other;
                            let k = if origin < gone { origin } else { origin - 1 };
                            assert(after[k] == other);
                        }
                    }
                }
                return;
            }
            i += 1;
        }
    }

    /// How many tasks are live.
    pub fn live_count(&self) -> (count: usize)
        requires
            self.wf(),
        ensures
            count == self@.len(),
            self@.finite(),
    {
        proof {
            self.live@.unique_seq_to_set();
        }
        self.live.len()
    }
}

} // verus!
