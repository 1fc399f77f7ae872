use vstd::prelude::*;

verus! {

/// How many fetch or expansion tasks may run at once: chosen to bound
/// memory and socket use while still overlapping latency.
pub const DEFAULT_CONCURRENCY: usize = 2;

/// Where one work item of a fetch or expansion stage stands.
#[derive(Clone, Copy, Debug, PartialEq, Eq, Structural)]
pub enum TaskState {
    Pending,
    Running,
    Done,
    Failed,
}

/// How many of the tasks run at this moment.
pub open spec fn running_count(s: Seq<TaskState>) -> nat
    decreases s.len(),
{
    if s.len() == 0 {
        0
    } else {
        running_count(s.drop_last()) + if s.last() == TaskState::Running {
            1nat
        } else {
            0nat
        }
    }
}

/// How many of the tasks came to an end, well or badly.
pub open spec fn completed_count(s: Seq<TaskState>) -> nat
    decreases s.len(),
{
    if s.len() == 0 {
        0
    } else {
        completed_count(s.drop_last()) + if s.last() == TaskState::Done || s.last()
            == TaskState::Failed {
            1nat
        } else {
            0nat
        }
    }
}

proof fn lemma_count_update(s: Seq<TaskState>, i: int, v: TaskState)
    requires
        0 <= i < s.len(),
    ensures
        running_count(s.update(i, v)) == running_count(s) + (if v == TaskState::Running {
            1int
        } else {
            0int
        }) - (if s[i] == TaskState::Running {
            1int
        } else {
            0int
        }),
        completed_count(s.update(i, v)) == completed_count(s) + (if v == TaskState::Done || v
            == TaskState::Failed {
            1int
        } else {
            0int
        }) - (if s[i] == TaskState::Done || s[i] == TaskState::Failed {
            1int
        } else {
            0int
        }),
    decreases s.len(),
{
    if i + 1 == s.len() {
        assert(s.update(i, v).drop_last() =~= s.drop_last());
    } else {
        lemma_count_update(s.drop_last(), i, v);
        assert(s.update(i, v).drop_last() =~= s.drop_last().update(i, v));
        assert(s.update(i, v).last() == s.last());
    }
}

/// Drives a stage's tasks with a hard cap on how many run at once; the
/// aggregate counter advances only when a task completes.
#[derive(Clone, Debug)]
pub struct BoundedRunner {
    cap: usize,
    states: Vec<TaskState>,
    completed: usize,
}

impl BoundedRunner {
    pub closed spec fn cap_spec(&self) -> nat {
        self.cap as nat
    }

    pub closed spec fn states_view(&self) -> Seq<TaskState> {
        self.states@
    }

    pub closed spec fn completed_spec(&self) -> nat {
        self.completed as nat
    }

    /// What holds of the runner in every reachable state: the cap is
    /// positive, at most `cap` tasks run at once, and the counter equals
    /// the number of completed tasks.
    pub open spec fn wf(&self) -> bool {
        &&& self.cap_spec() >= 1
        &&& running_count(self.states_view()) <= self.cap_spec()
        &&& self.completed_spec() == completed_count(self.states_view())
    }

    pub fn new(task_count: usize, cap: usize) -> (r: BoundedRunner)
        requires
            cap >= 1,
        ensures
            r.wf(),
            r.cap_spec() == cap,
            r.states_view().len() == task_count,
            forall|i: int| 0 <= i < task_count ==> r.states_view()[i] == TaskState::Pending,
            r.completed_spec() == 0,
    {
        let mut states: Vec<TaskState> = Vec::new();
        let mut k: usize = 0;
        while k < task_count
            invariant
                0 <= k <= task_count,
                states@.len() == k,
                forall|i: int| 0 <= i < k ==> states@[i] == TaskState::Pending,
            decreases task_count - k,
        {
            states.push(TaskState::Pending);
            k = k + 1;
        }
        proof {
            lemma_all_pending_counts(states@);
        }
        BoundedRunner { cap, states, completed: 0 }
    }

    pub fn task_count(&self) -> (r: usize)
        ensures
            r == self.states_view().len(),
    {
        self.states.len()
    }

    pub fn state_of(&self, i: usize) -> (r: TaskState)
        requires
            i < self.states_view().len(),
        ensures
            r == self.states_view()[i as int],
    {
        self.states[i]
    }

    /// The aggregate counter: how many tasks completed so far.
    pub fn progress(&self) -> (r: usize)
        ensures
            r == self.completed_spec(),
    {
        self.completed
    }

    /// How many tasks run at this moment.
    pub fn running(&self) -> (r: usize)
        ensures
            r == running_count(self.states_view()),
    {
        let n = self.states.len();
        let mut k: usize = 0;
        let mut count: usize = 0;
        while k < n
            invariant
                0 <= k <= n,
                n == self.states_view().len(),
                count == running_count(self.states_view().subrange(0, k as int)),
                count <= k,
            decreases n - k,
        {
            proof {
                assert(self.states_view().subrange(0, k + 1).drop_last() =~= self.states_view()
                    .subrange(0, k as int));
                assert(self.states_view().subrange(0, k + 1).last() == self.states_view()[
                    k as int]);
            }
            if matches!(self.states[k], TaskState::Running) {
                count = count + 1;
            }
            k = k + 1;
        }
        proof {
            assert(self.states_view().subrange(0, n as int) =~= self.states_view());
        }
        count
    }

    /// How many tasks still wait to be started.
    pub fn pending_tasks(&self) -> (r: usize)
        ensures
            r == pending_count(self.states_view()),
    {
        let n = self.states.len();
        let mut k: usize = 0;
        let mut count: usize = 0;
        while k < n
            invariant
                0 <= k <= n,
                n == self.states_view().len(),
                count == pending_count(self.states_view().subrange(0, k as int)),
                count <= k,
            decreases n - k,
        {
            proof {
                assert(self.states_view().subrange(0, k + 1).drop_last() =~= self.states_view()
                    .subrange(0, k as int));
                assert(self.states_view().subrange(0, k + 1).last() == self.states_view()[
                    k as int]);
            }
            if matches!(self.states[k], TaskState::Pending) {
                count = count + 1;
            }
            k = k + 1;
        }
        proof {
            assert(self.states_view().subrange(0, n as int) =~= self.states_view());
        }
        count
    }

    /// Starts the first task still pending, as long as the cap leaves room;
    /// nothing starts when the stage is saturated or nothing is pending.
    pub fn start_next(&mut self) -> (r: Option<usize>)
        requires
            old(self).wf(),
        ensures
            final(self).wf(),
            final(self).cap_spec() == old(self).cap_spec(),
            final(self).states_view().len() == old(self).states_view().len(),
            final(self).completed_spec() == old(self).completed_spec(),
            match r {
                Some(i) => {
                    &&& i < old(self).states_view().len()
                    &&& old(self).states_view()[i as int] == TaskState::Pending
                    &&& running_count(old(self).states_view()) < old(self).cap_spec()
                    &&& final(self).states_view() == old(self).states_view().update(
                        i as int,
                        TaskState::Running,
                    )
                    &&& running_count(final(self).states_view()) == running_count(
                        old(self).states_view(),
                    ) + 1
                },
                None => {
                    &&& final(self).states_view() == old(self).states_view()
                    &&& (running_count(old(self).states_view()) == old(self).cap_spec() || forall|
                        i: int,
                    |
                        0 <= i < old(self).states_view().len() ==> old(self).states_view()[i]
                            != TaskState::Pending)
                },
            },
    {
        let running_now = self.running();
        if running_now >= self.cap {
            return None;
        }
        let n = self.states.len();
        let mut k: usize = 0;
        while k < n
            invariant
                0 <= k <= n,
                n == self.states_view().len(),
                *self == *old(self),
                self.wf(),
                running_count(self.states_view()) < self.cap_spec(),
                forall|i: int| 0 <= i < k ==> self.states_view()[i] != TaskState::Pending,
            decreases n - k,
        {
            if matches!(self.states[k], TaskState::Pending) {
                proof {
                    lemma_count_update(self.states_view(), k as int, TaskState::Running);
                }
                self.states.set(k, TaskState::Running);
                return Some(k);
            }
            k = k + 1;
        }
        None
    }

    /// Records that a running task came to its end, well or badly; the
    /// aggregate counter advances by one.
    pub fn finish(&mut self, i: usize, success: bool)
        requires
            old(self).wf(),
            i < old(self).states_view().len(),
            old(self).states_view()[i as int] == TaskState::Running,
        ensures
            final(self).wf(),
            final(self).cap_spec() == old(self).cap_spec(),
            final(self).states_view() == old(self).states_view().update(
                i as int,
                if success {
                    TaskState::Done
                } else {
                    TaskState::Failed
                },
            ),
            final(self).completed_spec() == old(self).completed_spec() + 1,
            running_count(final(self).states_view()) == running_count(old(self).states_view()) - 1,
    {
        let n = self.states.len();
        proof {
            lemma_count_update(
                self.states_view(),
                i as int,
                if success {
                    TaskState::Done
                } else {
                    TaskState::Failed
                },
            );
            lemma_completed_lt_len(self.states_view(), i as int);
            assert(self.completed < n);
        }
        self.states.set(
            i,
            if success {
                TaskState::Done
            } else {
                TaskState::Failed
            },
        );
        self.completed = self.completed + 1;
    }

    /// Drives every task to completion, each with the outcome supplied for
    /// it; on an all-success run every task ends `Done` and the counter
    /// stands at the task count.
    pub fn run_to_completion(&mut self, outcomes: &Vec<bool>)
        requires
            old(self).wf(),
            outcomes@.len() == old(self).states_view().len(),
            forall|i: int|
                0 <= i < old(self).states_view().len() ==> old(self).states_view()[i]
                    == TaskState::Pending,
            running_count(old(self).states_view()) == 0,
        ensures
            final(self).wf(),
            final(self).cap_spec() == old(self).cap_spec(),
            final(self).states_view().len() == old(self).states_view().len(),
            final(self).completed_spec() == old(self).states_view().len(),
            forall|i: int|
                0 <= i < final(self).states_view().len() ==> final(self).states_view()[i] == (
                if outcomes@[i] {
                    TaskState::Done
                } else {
                    TaskState::Failed
                }),
    {
        let n = self.states.len();
        proof {
            lemma_all_pending_counts(self.states_view());
        }
        while self.pending_tasks() > 0
            invariant
                self.wf(),
                self.cap_spec() == old(self).cap_spec(),
                outcomes@.len() == n,
                n == self.states_view().len(),
                forall|i: int|
                    0 <= i < n ==> (self.states_view()[i] == TaskState::Pending
                        || self.states_view()[i] == (if outcomes@[i] {
                        TaskState::Done
                    } else {
                        TaskState::Failed
                    })),
                self.completed_spec() + pending_count(self.states_view()) == n,
                running_count(self.states_view()) == 0,
            decreases pending_count(self.states_view()),
        {
            let ghost pre = self.states_view();
            match self.start_next() {
                Some(i) => {
                    proof {
                        lemma_pending_update(pre, i as int, TaskState::Running);
                    }
                    let ghost mid = self.states_view();
                    self.finish(i, outcomes[i]);
                    proof {
                        lemma_pending_update(
                            mid,
                            i as int,
                            if outcomes@[i as int] {
                                TaskState::Done
                            } else {
                                TaskState::Failed
                            },
                        );
                        assert(self.states_view() =~= pre.update(
                            i as int,
                            if outcomes@[i as int] {
                                TaskState::Done
                            } else {
                                TaskState::Failed
                            },
                        ));
                    }
                },
                None => {
                    proof {
                        lemma_no_pending_counts(self.states_view());
                        assert(false);
                    }
                },
            }
        }
        proof {
            assert forall|i: int| 0 <= i < n implies self.states_view()[i] != TaskState::Pending by {
                if self.states_view()[i] == TaskState::Pending {
                    lemma_pending_positive(self.states_view(), i);
                }
            }
        }
    }
}

/// How many of the tasks still wait.
pub open spec fn pending_count(s: Seq<TaskState>) -> nat
    decreases s.len(),
{
    if s.len() == 0 {
        0
    } else {
        pending_count(s.drop_last()) + if s.last() == TaskState::Pending {
            1nat
        } else {
            0nat
        }
    }
}

proof fn lemma_all_pending_counts(s: Seq<TaskState>)
    requires
        forall|i: int| 0 <= i < s.len() ==> s[i] == TaskState::Pending,
    ensures
        running_count(s) == 0,
        completed_count(s) == 0,
        pending_count(s) == s.len(),
    decreases s.len(),
{
    if s.len() > 0 {
        lemma_all_pending_counts(s.drop_last());
    }
}

proof fn lemma_pending_positive(s: Seq<TaskState>, i: int)
    requires
        0 <= i < s.len(),
        s[i] == TaskState::Pending,
    ensures
        pending_count(s) > 0,
    decreases s.len(),
{
    if i + 1 < s.len() {
        lemma_pending_positive(s.drop_last(), i);
    }
}

proof fn lemma_no_pending_counts(s: Seq<TaskState>)
    requires
        forall|i: int| 0 <= i < s.len() ==> s[i] != TaskState::Pending,
    ensures
        pending_count(s) == 0,
    decreases s.len(),
{
    if s.len() > 0 {
        lemma_no_pending_counts(s.drop_last());
        assert(s.last() == s[s.len() - 1]);
    }
}

proof fn lemma_pending_update(s: Seq<TaskState>, i: int, v: TaskState)
    requires
        0 <= i < s.len(),
    ensures
        pending_count(s.update(i, v)) == pending_count(s) + (if v == TaskState::Pending {
            1int
        } else {
            0int
        }) - (if s[i] == TaskState::Pending {
            1int
        } else {
            0int
        }),
    decreases s.len(),
{
    if i + 1 == s.len() {
        assert(s.update(i, v).drop_last() =~= s.drop_last());
    } else {
        lemma_pending_update(s.drop_last(), i, v);
        assert(s.update(i, v).drop_last() =~= s.drop_last().update(i, v));
        assert(s.update(i, v).last() == s.last());
    }
}

proof fn lemma_completed_le_len(s: Seq<TaskState>)
    ensures
        completed_count(s) <= s.len(),
    decreases s.len(),
{
    if s.len() > 0 {
        lemma_completed_le_len(s.drop_last());
    }
}

proof fn lemma_completed_lt_len(s: Seq<TaskState>, i: int)
    requires
        0 <= i < s.len(),
        s[i] == TaskState::Running,
    ensures
        completed_count(s) < s.len(),
    decreases s.len(),
{
    if i + 1 == s.len() {
        lemma_completed_le_len(s.drop_last());
    } else {
        lemma_completed_lt_len(s.drop_last(), i);
    }
}

proof fn lemma_counts_with_no_running(s: Seq<TaskState>)
    requires
        running_count(s) == 0,
    ensures
        completed_count(s) + pending_count(s) == s.len(),
    decreases s.len(),
{
    if s.len() > 0 {
        assert(running_count(s.drop_last()) <= running_count(s));
        lemma_counts_with_no_running(s.drop_last());
    }
}

/// In every reachable state of a runner, no more tasks run at once than its
/// cap allows.
pub proof fn lemma_running_bounded(runner: BoundedRunner)
    requires
        runner.wf(),
    ensures
        running_count(runner.states_view()) <= runner.cap_spec(),
{
}

} // verus!
