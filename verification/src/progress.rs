//! Counting the tasks that have to finish before loading is over.

use vstd::prelude::*;
use std::collections::HashMap;

verus! {

broadcast use vstd::std_specs::hash::group_hash_axioms;

/// The ids of the tasks whose latest report said they were done.
pub open spec fn done_ids(tasks: Map<u64, bool>) -> Set<u64> {
    tasks.dom().filter(|id: u64| tasks[id])
}

/// How many tasks are done by their latest report.
pub open spec fn done_of(tasks: Map<u64, bool>) -> nat {
    done_ids(tasks).len()
}

/// How many tasks have reported at all.
pub open spec fn total_of(tasks: Map<u64, bool>) -> nat {
    tasks.dom().len()
}

/// Loading is complete when there is at least one task and all are done.
pub open spec fn complete(tasks: Map<u64, bool>) -> bool {
    total_of(tasks) > 0 && done_of(tasks) == total_of(tasks)
}

/// A snapshot of the counts.
#[derive(Debug, Clone, Copy, PartialEq, Eq, Hash, Structural)]
pub struct Progress {
    /// Tasks that are done.
    pub done: usize,
    /// Tasks that are tracked.
    pub total: usize,
}

/// Tracks tasks by id. Each task reports whether it is done, as often as it
/// likes; its latest report is what counts.
#[derive(Debug)]
pub struct ProgressCounter {
    tasks: HashMap<u64, bool>,
    done: usize,
}

impl View for ProgressCounter {
    type V = Map<u64, bool>;

    closed spec fn view(&self) -> Map<u64, bool> {
        self.tasks@
    }
}

impl ProgressCounter {
    /// The counter's invariant: its count of done tasks is up to date.
    pub closed spec fn wf(&self) -> bool {
        self.done == done_of(self.tasks@)
    }

    /// A counter that tracks no task yet.
    pub fn new() -> (counter: ProgressCounter)
        ensures
            counter.wf(),
            counter@ == Map::<u64, bool>::empty(),
    {
        let counter = ProgressCounter { tasks: HashMap::new(), done: 0 };
        assert(done_ids(counter.tasks@) =~= Set::<u64>::empty());
        counter
    }

    /// Records the latest report of a task: a task not seen before is
    /// tracked from now on, and one seen before has its state replaced,
    /// also from done back to not done.
    pub fn report(&mut self, task_id: u64, done: bool)
        requires
            old(self).wf(),
        ensures
            final(self).wf(),
            final(self)@ == old(self)@.insert(task_id, done),
    {
        let ghost before = self.tasks@;
        let previous = self.tasks.insert(task_id, done);
        let was_done = match previous {
            Some(state) => state,
            None => false,
        };
        proof {
            let after = self.tasks@;
            assert(before.dom().finite());
            before.dom().lemma_len_filter(|id: u64| before[id]);
            after.dom().lemma_len_filter(|id: u64| after[id]);
            assert(was_done == done_ids(before).contains(task_id));
            if done {
                assert(done_ids(after) =~= done_ids(before).insert(task_id));
            } else {
                assert(done_ids(after) =~= done_ids(before).remove(task_id));
            }
            assert(after.dom().len() == self.tasks.len());
        }
        if was_done && !done {
            self.done = self.done - 1;
        } else if !was_done && done {
            self.done = self.done + 1;
        }
    }

    /// How many tasks are done.
    pub fn done_count(&self) -> (done: usize)
        requires
            self.wf(),
        ensures
            done == done_of(self@),
    {
        self.done
    }

    /// How many tasks are tracked.
    pub fn total_count(&self) -> (total: usize)
        ensures
            total == total_of(self@),
    {
        self.tasks.len()
    }

    /// The two counts together.
    pub fn progress(&self) -> (progress: Progress)
        requires
            self.wf(),
        ensures
            progress.done == done_of(self@),
            progress.total == total_of(self@),
    {
        Progress { done: self.done, total: self.tasks.len() }
    }

    /// Whether loading is complete: at least one task is tracked and every
    /// tracked task is done. With no task it is never complete.
    pub fn is_complete(&self) -> (complete: bool)
        requires
            self.wf(),
        ensures
            complete == self::complete(self@),
    {
        let total = self.tasks.len();
        total > 0 && self.done == total
    }
}

/// With no task tracked, loading is not complete, whatever else holds.
pub proof fn lemma_not_complete_without_tasks(tasks: Map<u64, bool>)
    requires
        total_of(tasks) == 0,
    ensures
        !complete(tasks),
{
}

/// There are never more tasks done than tracked.
pub proof fn lemma_done_at_most_total(tasks: Map<u64, bool>)
    requires
        tasks.dom().finite(),
    ensures
        done_of(tasks) <= total_of(tasks),
{
    tasks.dom().lemma_len_filter(|id: u64| tasks[id]);
}

/// The counts follow the latest reports: reporting a task adds it to the
/// total if it is new, and counts it as done exactly if this report says
/// so, whatever it had reported before.
pub proof fn lemma_report_counts(tasks: Map<u64, bool>, task_id: u64, done: bool)
    requires
        tasks.dom().finite(),
    ensures
        total_of(tasks.insert(task_id, done)) == total_of(tasks) + if tasks.contains_key(task_id) {
            0nat
        } else {
            1nat
        },
        done_of(tasks.insert(task_id, done)) + (if tasks.contains_key(task_id) && tasks[task_id] {
            1nat
        } else {
            0nat
        }) == done_of(tasks) + if done {
            1nat
        } else {
            0nat
        },
{
    let after = tasks.insert(task_id, done);
    tasks.dom().lemma_len_filter(|id: u64| tasks[id]);
    after.dom().lemma_len_filter(|id: u64| after[id]);
    if done {
        assert(done_ids(after) =~= done_ids(tasks).insert(task_id));
    } else {
        assert(done_ids(after) =~= done_ids(tasks).remove(task_id));
    }
}

} // verus!
