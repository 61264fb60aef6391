use vstd::prelude::*;

use crate::requests::{
    expansion, lemma_expansion_index, lemma_expansion_len, lemma_sum_reps_nonneg,
    lemma_sum_reps_take_all, lemma_sum_reps_take_mono, lemma_sum_reps_take_step, sum_reps, task_of,
    RequestSpec, Task, TaskView,
};

verus! {

/// The bounded dispatcher: it walks the expansion of the specs lazily —
/// one cursor over the specs, one over the repetitions of the current spec
/// — and hands out tasks while never letting more than its window size be
/// in flight at once. Completions are reported back to it one by one, in
/// whatever order they happen.
pub struct Dispatcher {
    specs: Vec<RequestSpec>,
    spec_at: usize,
    rep_at: usize,
    limit: usize,
    flying: usize,
    finished: usize,
}

impl Dispatcher {
    /// The number of tasks the whole run submits: the sum of the
    /// repetitions of the specs.
    pub closed spec fn total(self) -> int {
        sum_reps(self.specs@)
    }

    /// The expansion the dispatcher walks: every task of the run, in
    /// submission order.
    pub closed spec fn task_seq(self) -> Seq<TaskView> {
        expansion(self.specs@)
    }

    /// How many tasks have been handed out so far.
    pub closed spec fn submitted(self) -> int {
        sum_reps(self.specs@.take(self.spec_at as int)) + self.rep_at
    }

    /// How many handed-out tasks have not yet been reported complete.
    pub closed spec fn in_flight(self) -> int {
        self.flying as int
    }

    /// How many tasks have been reported complete, successfully or not.
    pub closed spec fn completed(self) -> int {
        self.finished as int
    }

    /// The window size: the hard ceiling on concurrently in-flight tasks.
    pub closed spec fn window(self) -> int {
        self.limit as int
    }

    /// Well-formedness: the cursor rests on a spec with repetitions still
    /// to give (or past the end), the in-flight count never exceeds the
    /// window, and the counters tally with the cursor.
    pub closed spec fn wf(self) -> bool {
        &&& 1 <= self.limit
        &&& self.flying <= self.limit
        &&& self.spec_at <= self.specs@.len()
        &&& (self.spec_at < self.specs@.len() ==> self.rep_at < self.specs@[self.spec_at as int].repetition)
        &&& (self.spec_at == self.specs@.len() ==> self.rep_at == 0)
        &&& self.finished + self.flying == self.submitted()
        &&& self.submitted() <= self.total()
        &&& self.total() <= usize::MAX
    }

    /// Moves the spec cursor past exhausted specs — those whose
    /// repetitions have all been handed out, and those with repetition 0 —
    /// without changing what has been submitted.
    fn settle_cursor(&mut self)
        requires
            old(self).spec_at <= old(self).specs@.len(),
            old(self).spec_at < old(self).specs@.len() ==> old(self).rep_at <= old(
                self,
            ).specs@[old(self).spec_at as int].repetition,
            old(self).spec_at == old(self).specs@.len() ==> old(self).rep_at == 0,
        ensures
            final(self).specs@ == old(self).specs@,
            final(self).limit == old(self).limit,
            final(self).flying == old(self).flying,
            final(self).finished == old(self).finished,
            final(self).submitted() == old(self).submitted(),
            final(self).spec_at <= final(self).specs@.len(),
            final(self).spec_at < final(self).specs@.len() ==> final(self).rep_at < final(
                self).specs@[final(self).spec_at as int].repetition,
            final(self).spec_at == final(self).specs@.len() ==> final(self).rep_at == 0,
    {
        let ghost specs0 = self.specs@;
        let ghost limit0 = self.limit;
        let ghost flying0 = self.flying;
        let ghost finished0 = self.finished;
        let ghost sub0 = self.submitted();
        while self.spec_at < self.specs.len() && self.rep_at == self.specs[self.spec_at].repetition
            invariant
                self.specs@ == specs0,
                self.limit == limit0,
                self.flying == flying0,
                self.finished == finished0,
                self.spec_at <= self.specs@.len(),
                self.spec_at < self.specs@.len() ==> self.rep_at <= self.specs@[self.spec_at as int].repetition,
                self.spec_at == self.specs@.len() ==> self.rep_at == 0,
                sum_reps(self.specs@.take(self.spec_at as int)) + self.rep_at == sub0,
            decreases self.specs@.len() - self.spec_at,
        {
            proof {
                lemma_sum_reps_take_step(self.specs@, self.spec_at as int);
            }
            self.spec_at = self.spec_at + 1;
            self.rep_at = 0;
        }
    }

    /// A dispatcher over the given specs with the given window size:
    /// nothing submitted, nothing in flight, nothing completed.
    pub fn new(specs: Vec<RequestSpec>, limit: usize) -> (r: Dispatcher)
        requires
            1 <= limit,
            sum_reps(specs@) <= usize::MAX,
        ensures
            r.wf(),
            r.window() == limit,
            r.total() == sum_reps(specs@),
            r.task_seq() == expansion(specs@),
            r.submitted() == 0,
            r.in_flight() == 0,
            r.completed() == 0,
    {
        let mut d = Dispatcher { specs, spec_at: 0, rep_at: 0, limit, flying: 0, finished: 0 };
        proof {
            assert(d.specs@.take(0) =~= Seq::<RequestSpec>::empty());
            lemma_sum_reps_nonneg(d.specs@);
        }
        d.settle_cursor();
        d
    }

    /// Starts the next task when the window has room and tasks remain: the
    /// task handed out is the next element of the expansion, in submission
    /// order. `None` means the window is full or every task has been
    /// started, and changes nothing.
    pub fn try_start(&mut self) -> (r: Option<Task>)
        requires
            old(self).wf(),
        ensures
            final(self).wf(),
            final(self).window() == old(self).window(),
            final(self).total() == old(self).total(),
            final(self).task_seq() == old(self).task_seq(),
            final(self).completed() == old(self).completed(),
            r matches Some(t) ==> {
                &&& old(self).in_flight() < old(self).window()
                &&& old(self).submitted() < old(self).total()
                &&& final(self).submitted() == old(self).submitted() + 1
                &&& final(self).in_flight() == old(self).in_flight() + 1
                &&& t@ == old(self).task_seq()[old(self).submitted()]
            },
            r is None ==> {
                &&& (old(self).in_flight() == old(self).window() || old(self).submitted() == old(
                    self,
                ).total())
                &&& final(self).submitted() == old(self).submitted()
                &&& final(self).in_flight() == old(self).in_flight()
            },
    {
        if self.flying == self.limit {
            return None;
        }
        if self.spec_at == self.specs.len() {
            proof {
                lemma_sum_reps_take_all(self.specs@);
            }
            return None;
        }
        proof {
            lemma_expansion_index(self.specs@, self.spec_at as int, self.rep_at as int);
            lemma_sum_reps_take_step(self.specs@, self.spec_at as int);
            lemma_sum_reps_take_mono(self.specs@, self.spec_at as int + 1, self.specs@.len() as int);
            lemma_sum_reps_take_all(self.specs@);
        }
        let t = Task {
            endpoint: self.specs[self.spec_at].endpoint.clone(),
            method: self.specs[self.spec_at].method.clone(),
            body: self.specs[self.spec_at].body.clone(),
        };
        proof {
            assert(t@ == task_of(self.specs@[self.spec_at as int]));
        }
        self.rep_at = self.rep_at + 1;
        self.settle_cursor();
        self.flying = self.flying + 1;
        Some(t)
    }

    /// Records that one in-flight task finished — successfully or not; the
    /// dispatcher does not care which — freeing one window slot.
    pub fn note_completion(&mut self)
        requires
            old(self).wf(),
            old(self).in_flight() >= 1,
        ensures
            final(self).wf(),
            final(self).window() == old(self).window(),
            final(self).total() == old(self).total(),
            final(self).task_seq() == old(self).task_seq(),
            final(self).submitted() == old(self).submitted(),
            final(self).in_flight() == old(self).in_flight() - 1,
            final(self).completed() == old(self).completed() + 1,
    {
        self.flying = self.flying - 1;
        self.finished = self.finished + 1;
    }

    /// True exactly when every task has been started and none is still in
    /// flight: the dispatcher terminates, and produces no further output.
    pub fn is_done(&self) -> (r: bool)
        requires
            self.wf(),
        ensures
            r <==> (self.submitted() == self.total() && self.in_flight() == 0),
    {
        proof {
            lemma_sum_reps_take_all(self.specs@);
            if self.spec_at < self.specs@.len() {
                lemma_sum_reps_take_step(self.specs@, self.spec_at as int);
                lemma_sum_reps_take_mono(
                    self.specs@,
                    self.spec_at as int + 1,
                    self.specs@.len() as int,
                );
            }
        }
        self.spec_at == self.specs.len() && self.flying == 0
    }

    /// How many tasks are in flight right now.
    pub fn in_flight_count(&self) -> (r: usize)
        ensures
            r == self.in_flight(),
    {
        self.flying
    }

    /// The window size the dispatcher was built with.
    pub fn window_size(&self) -> (r: usize)
        ensures
            r == self.window(),
    {
        self.limit
    }
}

/// The window bound: a well-formed dispatcher never has more tasks in
/// flight than its window allows, and its counters tally — what was
/// completed and what is in flight together make up exactly what was
/// submitted, which never exceeds the total.
pub proof fn lemma_window_bound(d: Dispatcher)
    requires
        d.wf(),
    ensures
        0 <= d.in_flight() <= d.window(),
        d.completed() + d.in_flight() == d.submitted(),
        d.submitted() <= d.total(),
{
}

/// The expansion is as long as the reported total: the dispatcher submits
/// exactly `total` tasks before `try_start` runs dry.
pub proof fn lemma_task_seq_len(d: Dispatcher)
    ensures
        d.task_seq().len() == d.total(),
{
    lemma_expansion_len(d.specs@);
}

} // verus!
