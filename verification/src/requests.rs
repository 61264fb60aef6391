use vstd::prelude::*;

verus! {

/// One request template as read from the input: a target endpoint, an HTTP
/// method, a request body, and how many times the request is to be issued.
#[derive(Debug)]
pub struct RequestSpec {
    pub endpoint: String,
    pub method: String,
    pub body: String,
    pub repetition: usize,
}

/// One unit of dispatch work: a single HTTP call to make.
#[derive(Debug)]
pub struct Task {
    pub endpoint: String,
    pub method: String,
    pub body: String,
}

/// The mathematical content of a task: its three fields as character
/// sequences.
pub struct TaskView {
    pub endpoint: Seq<char>,
    pub method: Seq<char>,
    pub body: Seq<char>,
}

impl View for Task {
    type V = TaskView;

    open spec fn view(&self) -> TaskView {
        TaskView { endpoint: self.endpoint@, method: self.method@, body: self.body@ }
    }
}

/// The task a spec expands to: endpoint, method and body carried over
/// unchanged.
pub open spec fn task_of(s: RequestSpec) -> TaskView {
    TaskView { endpoint: s.endpoint@, method: s.method@, body: s.body@ }
}

/// The sum of the repetition counts of a sequence of specs; a spec with
/// repetition 0 contributes nothing.
pub open spec fn sum_reps(ss: Seq<RequestSpec>) -> int
    decreases ss.len(),
{
    if ss.len() == 0 {
        0
    } else {
        sum_reps(ss.drop_last()) + ss.last().repetition
    }
}

/// The tasks one spec expands to: its repetition count of copies of its
/// task.
pub open spec fn block_of(s: RequestSpec) -> Seq<TaskView> {
    Seq::new(s.repetition as nat, |i: int| task_of(s))
}

/// The full expansion of a sequence of specs: the blocks of the specs, in
/// order.
pub open spec fn expansion(ss: Seq<RequestSpec>) -> Seq<TaskView>
    decreases ss.len(),
{
    if ss.len() == 0 {
        Seq::<TaskView>::empty()
    } else {
        expansion(ss.drop_last()) + block_of(ss.last())
    }
}

pub proof fn lemma_sum_reps_nonneg(ss: Seq<RequestSpec>)
    ensures
        sum_reps(ss) >= 0,
    decreases ss.len(),
{
    if ss.len() > 0 {
        lemma_sum_reps_nonneg(ss.drop_last());
    }
}

pub proof fn lemma_sum_reps_take_step(ss: Seq<RequestSpec>, j: int)
    requires
        0 <= j < ss.len(),
    ensures
        sum_reps(ss.take(j + 1)) == sum_reps(ss.take(j)) + ss[j].repetition,
{
    assert(ss.take(j + 1).drop_last() =~= ss.take(j));
    assert(ss.take(j + 1).last() == ss[j]);
}

pub proof fn lemma_sum_reps_take_all(ss: Seq<RequestSpec>)
    ensures
        sum_reps(ss.take(ss.len() as int)) == sum_reps(ss),
{
    assert(ss.take(ss.len() as int) =~= ss);
}

pub proof fn lemma_sum_reps_take_mono(ss: Seq<RequestSpec>, i: int, j: int)
    requires
        0 <= i <= j <= ss.len(),
    ensures
        sum_reps(ss.take(i)) <= sum_reps(ss.take(j)),
    decreases j - i,
{
    if i < j {
        lemma_sum_reps_take_mono(ss, i, j - 1);
        lemma_sum_reps_take_step(ss, j - 1);
    }
}

/// A spec expands to exactly its repetition count of tasks, every one of
/// them carrying the spec's endpoint, method and body.
pub proof fn lemma_block_tasks(s: RequestSpec)
    ensures
        block_of(s).len() == s.repetition,
        forall|i: int| 0 <= i < block_of(s).len() ==> #[trigger] block_of(s)[i] == task_of(s),
{
}

/// An expansion is exactly as long as the sum of the repetitions says.
pub proof fn lemma_expansion_len(ss: Seq<RequestSpec>)
    ensures
        expansion(ss).len() == sum_reps(ss),
    decreases ss.len(),
{
    if ss.len() > 0 {
        lemma_expansion_len(ss.drop_last());
    }
}

/// Where each task of an expansion comes from: position `ri` within the
/// block of spec `si` holds that spec's task.
pub proof fn lemma_expansion_index(ss: Seq<RequestSpec>, si: int, ri: int)
    requires
        0 <= si < ss.len(),
        0 <= ri < ss[si].repetition,
    ensures
        0 <= sum_reps(ss.take(si)) + ri < expansion(ss).len(),
        expansion(ss)[sum_reps(ss.take(si)) + ri] == task_of(ss[si]),
    decreases ss.len(),
{
    lemma_expansion_len(ss);
    lemma_sum_reps_nonneg(ss.take(si));
    lemma_expansion_len(ss.drop_last());
    if si == ss.len() - 1 {
        assert(ss.take(si) =~= ss.drop_last());
        lemma_sum_reps_take_all(ss.drop_last());
        assert(ss.drop_last().take(ss.drop_last().len() as int) =~= ss.drop_last());
        assert(expansion(ss)[sum_reps(ss.take(si)) + ri] == block_of(ss.last())[ri]);
    } else {
        lemma_expansion_index(ss.drop_last(), si, ri);
        assert(ss.take(si) =~= ss.drop_last().take(si));
        assert(ss.drop_last()[si] == ss[si]);
        lemma_sum_reps_take_step(ss.drop_last(), si);
        lemma_sum_reps_take_mono(ss.drop_last(), si + 1, ss.drop_last().len() as int);
        lemma_sum_reps_take_all(ss.drop_last());
    }
}

/// The number of tasks the specs expand to: the sum of every repetition
/// field, specs with repetition 0 contributing 0. `None` exactly when that
/// sum does not fit in `usize`.
pub fn total_tasks(specs: &Vec<RequestSpec>) -> (r: Option<usize>)
    ensures
        match r {
            Some(t) => t == sum_reps(specs@),
            None => sum_reps(specs@) > usize::MAX,
        },
{
    let mut total: usize = 0;
    let mut i: usize = 0;
    while i < specs.len()
        invariant
            i <= specs@.len(),
            total == sum_reps(specs@.take(i as int)),
        decreases specs@.len() - i,
    {
        let rep = specs[i].repetition;
        proof {
            lemma_sum_reps_take_step(specs@, i as int);
        }
        if rep > usize::MAX - total {
            proof {
                lemma_sum_reps_take_mono(specs@, i as int + 1, specs@.len() as int);
                lemma_sum_reps_take_all(specs@);
            }
            return None;
        }
        total = total + rep;
        i = i + 1;
    }
    proof {
        lemma_sum_reps_take_all(specs@);
    }
    Some(total)
}

} // verus!
