//! A fixed set of work units handed out in order, at most `bound` at a time.
use vstd::prelude::*;

verus! {

/// Where one work unit stands.
#[derive(Clone, Copy, Debug, PartialEq, Eq, Structural)]
pub enum TaskState {
    Pending,
    Running,
    Succeeded,
    Failed,
}

/// How many units of `s` stand in state `k`.
pub open spec fn count(s: Seq<TaskState>, k: TaskState) -> nat
    decreases s.len(),
{
    if s.len() == 0 {
        0
    } else {
        count(s.drop_last(), k) + if s.last() == k { 1nat } else { 0nat }
    }
}

/// Changing one unit's state moves it from one count to another.
pub proof fn lemma_count_update(s: Seq<TaskState>, i: int, v: TaskState, k: TaskState)
    requires
        0 <= i < s.len(),
    ensures
        count(s.update(i, v), k) + (if s[i] == k { 1nat } else { 0nat })
            == count(s, k) + (if v == k { 1nat } else { 0nat }),
    decreases s.len(),
{
    let t = s.update(i, v);
    if i == s.len() - 1 {
        assert(t.drop_last() =~= s.drop_last());
    } else {
        assert(t.drop_last() =~= s.drop_last().update(i, v));
        lemma_count_update(s.drop_last(), i, v, k);
    }
}

/// The four counts of a sequence add up to its length.
pub proof fn lemma_count_total(s: Seq<TaskState>)
    ensures
        count(s, TaskState::Pending) + count(s, TaskState::Running) + count(s, TaskState::Succeeded)
            + count(s, TaskState::Failed) == s.len(),
    decreases s.len(),
{
    if s.len() > 0 {
        lemma_count_total(s.drop_last());
    }
}

/// A state that no unit stands in has count zero.
pub proof fn lemma_count_absent(s: Seq<TaskState>, k: TaskState)
    requires
        forall|i: int| 0 <= i < s.len() ==> s[i] != k,
    ensures
        count(s, k) == 0,
    decreases s.len(),
{
    if s.len() > 0 {
        lemma_count_absent(s.drop_last(), k);
    }
}

/// A sequence of `n` pending units.
pub open spec fn all_pending(n: nat) -> Seq<TaskState> {
    Seq::new(n, |i: int| TaskState::Pending)
}

/// The abstract state of a pool.
pub struct PoolView {
    pub bound: nat,
    pub states: Seq<TaskState>,
    pub next: nat,
    pub in_flight: nat,
    pub succeeded: nat,
    pub failed: nat,
}

impl PoolView {
    /// Units before `next` were handed out, the others were not; the counters
    /// agree with the states, and no more than `bound` units run at once.
    pub open spec fn wf(self) -> bool {
        &&& self.bound > 0
        &&& self.next <= self.states.len()
        &&& forall|i: int| 0 <= i < self.next ==> self.states[i] != TaskState::Pending
        &&& forall|i: int| self.next <= i < self.states.len() ==> self.states[i] == TaskState::Pending
        &&& self.in_flight == count(self.states, TaskState::Running)
        &&& self.succeeded == count(self.states, TaskState::Succeeded)
        &&& self.failed == count(self.states, TaskState::Failed)
        &&& self.in_flight <= self.bound
    }

    /// Every unit was handed out and has finished.
    pub open spec fn done(self) -> bool {
        self.next == self.states.len() && self.in_flight == 0
    }
}

/// Hands out the units `0..n` in order while fewer than `bound` run, and
/// records how each finished.
pub struct TaskPool {
    bound: usize,
    states: Vec<TaskState>,
    next: usize,
    in_flight: usize,
    succeeded: usize,
    failed: usize,
}

impl View for TaskPool {
    type V = PoolView;

    closed spec fn view(&self) -> PoolView {
        PoolView {
            bound: self.bound as nat,
            states: self.states@,
            next: self.next as nat,
            in_flight: self.in_flight as nat,
            succeeded: self.succeeded as nat,
            failed: self.failed as nat,
        }
    }
}

impl TaskPool {
    /// A pool of `n` pending units that runs at most `bound` of them at once.
    pub fn new(n: usize, bound: usize) -> (r: TaskPool)
        requires
            bound > 0,
        ensures
            r@.wf(),
            r@.bound == bound,
            r@.states == all_pending(n as nat),
            r@.next == 0,
            r@.in_flight == 0,
            r@.succeeded == 0,
            r@.failed == 0,
    {
        let mut states: Vec<TaskState> = Vec::new();
        let mut i: usize = 0;
        while i < n
            invariant
                i <= n,
                states@ == all_pending(i as nat),
            decreases n - i,
        {
            states.push(TaskState::Pending);
            i = i + 1;
            assert(states@ =~= all_pending(i as nat));
        }
        let r = TaskPool { bound, states, next: 0, in_flight: 0, succeeded: 0, failed: 0 };
        proof {
            lemma_count_absent(states@, TaskState::Running);
            lemma_count_absent(states@, TaskState::Succeeded);
            lemma_count_absent(states@, TaskState::Failed);
        }
        r
    }

    /// Number of units in the pool.
    pub fn len(&self) -> (r: usize)
        ensures
            r == self@.states.len(),
    {
        self.states.len()
    }

    /// Number of units running now.
    pub fn in_flight(&self) -> (r: usize)
        ensures
            r == self@.in_flight,
    {
        self.in_flight
    }

    /// Number of units that finished with success.
    pub fn succeeded(&self) -> (r: usize)
        ensures
            r == self@.succeeded,
    {
        self.succeeded
    }

    /// Number of units that finished with failure.
    pub fn failed(&self) -> (r: usize)
        ensures
            r == self@.failed,
    {
        self.failed
    }

    /// Whether every unit was handed out and has finished; then each one
    /// either succeeded or failed.
    pub fn is_done(&self) -> (r: bool)
        requires
            self@.wf(),
        ensures
            r == self@.done(),
            r ==> self@.succeeded + self@.failed == self@.states.len(),
    {
        proof {
            if self@.done() {
                lemma_count_absent(self@.states, TaskState::Pending);
                lemma_count_total(self@.states);
            }
        }
        self.next == self.states.len() && self.in_flight == 0
    }

    /// Hands out the next pending unit, unless none is left or `bound` units
    /// already run.
    pub fn launch(&mut self) -> (r: Option<usize>)
        requires
            old(self)@.wf(),
        ensures
            final(self)@.wf(),
            final(self)@.bound == old(self)@.bound,
            final(self)@.succeeded == old(self)@.succeeded,
            final(self)@.failed == old(self)@.failed,
            r is Some <==> (old(self)@.next < old(self)@.states.len() && old(self)@.in_flight < old(self)@.bound),
            r is Some ==> {
                &&& r->0 == old(self)@.next
                &&& final(self)@.states == old(self)@.states.update(r->0 as int, TaskState::Running)
                &&& final(self)@.next == old(self)@.next + 1
                &&& final(self)@.in_flight == old(self)@.in_flight + 1
            },
            r is None ==> final(self)@ == old(self)@,
    {
        if self.next < self.states.len() && self.in_flight < self.bound {
            let i = self.next;
            proof {
                lemma_count_update(self.states@, i as int, TaskState::Running, TaskState::Running);
                lemma_count_update(self.states@, i as int, TaskState::Running, TaskState::Succeeded);
                lemma_count_update(self.states@, i as int, TaskState::Running, TaskState::Failed);
            }
            self.states.set(i, TaskState::Running);
            self.next = i + 1;
            self.in_flight = self.in_flight + 1;
            Some(i)
        } else {
            None
        }
    }

    /// Records that the running unit `index` finished, with success when `ok`.
    pub fn finish(&mut self, index: usize, ok: bool)
        requires
            old(self)@.wf(),
            index < old(self)@.states.len(),
            old(self)@.states[index as int] == TaskState::Running,
        ensures
            final(self)@.wf(),
            final(self)@.bound == old(self)@.bound,
            final(self)@.next == old(self)@.next,
            final(self)@.states == old(self)@.states.update(
                index as int,
                if ok { TaskState::Succeeded } else { TaskState::Failed },
            ),
            final(self)@.in_flight == old(self)@.in_flight - 1,
            final(self)@.succeeded == old(self)@.succeeded + if ok { 1nat } else { 0nat },
            final(self)@.failed == old(self)@.failed + if ok { 0nat } else { 1nat },
    {
        let v = if ok { TaskState::Succeeded } else { TaskState::Failed };
        let n = self.states.len();
        proof {
            lemma_count_update(self.states@, index as int, v, TaskState::Running);
            lemma_count_update(self.states@, index as int, v, TaskState::Succeeded);
            lemma_count_update(self.states@, index as int, v, TaskState::Failed);
            lemma_count_total(self.states@);
        }
        self.states.set(index, v);
        self.in_flight = self.in_flight - 1;
        if ok {
            self.succeeded = self.succeeded + 1;
        } else {
            self.failed = self.failed + 1;
        }
    }
}

} // verus!
