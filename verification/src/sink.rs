use vstd::prelude::*;

use crate::executor::{ExecutionFailure, ExecutionFailureView, ResultRecord, ResultRecordView};
use crate::requests::RequestSpec;

verus! {

/// What one task execution came to: a result record on success, a failure
/// report otherwise. A response with any status code — a 500 as much as a
/// 200 — is a success; only unsupported methods and transport faults fail.
#[derive(Debug)]
pub enum TaskOutcome {
    Success(ResultRecord),
    Failure(ExecutionFailure),
}

/// The mathematical content of a task outcome.
pub enum TaskOutcomeView {
    Success(ResultRecordView),
    Failure(ExecutionFailureView),
}

impl View for TaskOutcome {
    type V = TaskOutcomeView;

    open spec fn view(&self) -> TaskOutcomeView {
        match self {
            TaskOutcome::Success(rec) => TaskOutcomeView::Success(rec@),
            TaskOutcome::Failure(f) => TaskOutcomeView::Failure(f@),
        }
    }
}

/// What the sink asks of its caller for one outcome: write this row to the
/// output, or emit this diagnostic and write nothing.
#[derive(Debug)]
pub enum SinkAction {
    WriteRow(ResultRecord),
    Diagnose(ExecutionFailure),
}

/// The mathematical content of a sink action.
pub enum SinkActionView {
    WriteRow(ResultRecordView),
    Diagnose(ExecutionFailureView),
}

impl View for SinkAction {
    type V = SinkActionView;

    open spec fn view(&self) -> SinkActionView {
        match self {
            SinkAction::WriteRow(rec) => SinkActionView::WriteRow(rec@),
            SinkAction::Diagnose(f) => SinkActionView::Diagnose(f@),
        }
    }
}

/// The rows among a stream of outcomes: the records of the successes, in
/// delivery order; failures leave no row.
pub open spec fn oks_of(d: Seq<TaskOutcomeView>) -> Seq<ResultRecordView>
    decreases d.len(),
{
    if d.len() == 0 {
        Seq::<ResultRecordView>::empty()
    } else {
        oks_of(d.drop_last()) + (match d.last() {
            TaskOutcomeView::Success(rec) => seq![rec],
            TaskOutcomeView::Failure(_) => Seq::<ResultRecordView>::empty(),
        })
    }
}

/// The row position an outcome writes to: how many successes were
/// delivered before it.
pub open spec fn row_index(d: Seq<TaskOutcomeView>, i: int) -> int {
    oks_of(d.take(i)).len() as int
}

pub proof fn lemma_oks_of_push(d: Seq<TaskOutcomeView>, o: TaskOutcomeView)
    ensures
        oks_of(d.push(o)) == oks_of(d) + (match o {
            TaskOutcomeView::Success(rec) => seq![rec],
            TaskOutcomeView::Failure(_) => Seq::<ResultRecordView>::empty(),
        }),
{
    assert(d.push(o).drop_last() =~= d);
    assert(d.push(o).last() == o);
}

pub proof fn lemma_oks_len_le(d: Seq<TaskOutcomeView>)
    ensures
        oks_of(d).len() <= d.len(),
    decreases d.len(),
{
    if d.len() > 0 {
        lemma_oks_len_le(d.drop_last());
    }
}

pub proof fn lemma_oks_concat(a: Seq<TaskOutcomeView>, b: Seq<TaskOutcomeView>)
    ensures
        oks_of(a + b) == oks_of(a) + oks_of(b),
    decreases b.len(),
{
    if b.len() == 0 {
        assert(a + b =~= a);
        assert(oks_of(a) + oks_of(b) =~= oks_of(a));
    } else {
        lemma_oks_concat(a, b.drop_last());
        assert((a + b).drop_last() =~= a + b.drop_last());
        assert((a + b).last() == b.last());
        assert(oks_of(a + b) =~= oks_of(a) + oks_of(b));
    }
}

/// One delivery step of the row position: a success advances it by one, a
/// failure leaves it alone.
pub proof fn lemma_row_index_step(d: Seq<TaskOutcomeView>, i: int)
    requires
        0 <= i < d.len(),
    ensures
        row_index(d, i + 1) == row_index(d, i) + (if d[i] is Success {
            1int
        } else {
            0int
        }),
{
    assert(d.take(i + 1).drop_last() =~= d.take(i));
    assert(d.take(i + 1).last() == d[i]);
}

pub proof fn lemma_row_index_mono(d: Seq<TaskOutcomeView>, i: int, j: int)
    requires
        0 <= i <= j <= d.len(),
    ensures
        row_index(d, i) <= row_index(d, j),
    decreases j - i,
{
    if i < j {
        lemma_row_index_mono(d, i, j - 1);
        lemma_row_index_step(d, j - 1);
    }
}

/// Where a successful outcome's row lands: at its row position, holding
/// its record.
pub proof fn lemma_row_of_success(d: Seq<TaskOutcomeView>, i: int)
    requires
        0 <= i < d.len(),
        d[i] is Success,
    ensures
        0 <= row_index(d, i) < oks_of(d).len(),
        oks_of(d)[row_index(d, i)] == d[i]->Success_0,
{
    assert(d =~= d.take(i + 1) + d.skip(i + 1));
    lemma_oks_concat(d.take(i + 1), d.skip(i + 1));
    assert(d.take(i + 1).drop_last() =~= d.take(i));
    assert(d.take(i + 1).last() == d[i]);
    assert(oks_of(d.take(i + 1)) == oks_of(d.take(i)) + seq![d[i]->Success_0]);
}

/// Completion order is row order: of two successful outcomes, the one
/// delivered first yields the earlier output row — wherever the two tasks
/// stood in submission order.
pub proof fn lemma_completion_order(d: Seq<TaskOutcomeView>, i: int, j: int)
    requires
        0 <= i < j < d.len(),
        d[i] is Success,
        d[j] is Success,
    ensures
        0 <= row_index(d, i) < row_index(d, j) < oks_of(d).len(),
        oks_of(d)[row_index(d, i)] == d[i]->Success_0,
        oks_of(d)[row_index(d, j)] == d[j]->Success_0,
{
    lemma_row_of_success(d, i);
    lemma_row_of_success(d, j);
    lemma_row_index_step(d, i);
    lemma_row_index_mono(d, i + 1, j);
}

/// A spec whose tasks all succeed contributes exactly its repetition count
/// of rows, each carrying the spec's endpoint and method.
pub proof fn lemma_rows_for_spec(s: RequestSpec, d: Seq<TaskOutcomeView>)
    requires
        d.len() == s.repetition,
        forall|i: int|
            0 <= i < d.len() ==> d[i] is Success && (#[trigger] d[i])->Success_0.endpoint
                == s.endpoint@ && d[i]->Success_0.method == s.method@,
    ensures
        oks_of(d).len() == s.repetition,
        forall|i: int|
            0 <= i < oks_of(d).len() ==> (#[trigger] oks_of(d)[i]).endpoint == s.endpoint@
                && oks_of(d)[i].method == s.method@,
{
    lemma_rows_all_success(d);
}

/// Every row of an all-success stream is the record of the outcome at the
/// same position.
pub proof fn lemma_rows_all_success(d: Seq<TaskOutcomeView>)
    requires
        forall|i: int| 0 <= i < d.len() ==> (#[trigger] d[i]) is Success,
    ensures
        oks_of(d).len() == d.len(),
        forall|i: int| 0 <= i < d.len() ==> #[trigger] oks_of(d)[i] == d[i]->Success_0,
    decreases d.len(),
{
    if d.len() > 0 {
        lemma_rows_all_success(d.drop_last());
    }
}

/// Rows carry well-formed timing: when every successful outcome delivered
/// is well formed, so is every output row.
pub proof fn lemma_rows_well_formed(d: Seq<TaskOutcomeView>)
    requires
        forall|i: int|
            0 <= i < d.len() && (#[trigger] d[i]) is Success ==> d[i]->Success_0.wf(),
    ensures
        forall|i: int| 0 <= i < oks_of(d).len() ==> (#[trigger] oks_of(d)[i]).wf(),
    decreases d.len(),
{
    if d.len() > 0 {
        assert(forall|i: int| 0 <= i < d.len() - 1 ==> #[trigger] d.drop_last()[i] == d[i]);
        lemma_rows_well_formed(d.drop_last());
        assert(d[d.len() - 1] == d.last());
        assert forall|i: int| 0 <= i < oks_of(d).len() implies (#[trigger] oks_of(d)[i]).wf() by {
            if i < oks_of(d.drop_last()).len() {
                assert(oks_of(d)[i] == oks_of(d.drop_last())[i]);
            }
        }
    }
}

/// The result sink: it takes the dispatcher's outcomes one at a time, in
/// completion order, asks its caller to write each success as one output
/// row at once and to report each failure as a diagnostic, and never halts
/// the run on a failure. Nothing is buffered: the rows it has asked for
/// are kept only as a ghost history.
pub struct Sink {
    rows_written: usize,
    failures_seen: usize,
    log: Ghost<Seq<TaskOutcomeView>>,
}

impl Sink {
    /// Every outcome delivered to the sink so far, in delivery order.
    pub closed spec fn delivered(self) -> Seq<TaskOutcomeView> {
        self.log@
    }

    /// The rows the sink has asked its caller to write, in order: the
    /// records of the successful outcomes, in delivery order.
    pub open spec fn written(self) -> Seq<ResultRecordView> {
        oks_of(self.delivered())
    }

    /// Well-formedness: the counters tally with the ghost history.
    pub closed spec fn wf(self) -> bool {
        &&& self.rows_written == self.written().len()
        &&& self.failures_seen == self.delivered().len() - self.written().len()
        &&& self.delivered().len() <= usize::MAX
    }

    /// A sink that has seen nothing.
    pub fn new() -> (r: Sink)
        ensures
            r.wf(),
            r.delivered() == Seq::<TaskOutcomeView>::empty(),
    {
        Sink { rows_written: 0, failures_seen: 0, log: Ghost(Seq::empty()) }
    }

    /// One step of the sink: a success becomes a request to write its
    /// record as the next output row; a failure becomes a diagnostic and
    /// no row. Either way the run goes on.
    pub fn observe(&mut self, outcome: TaskOutcome) -> (r: SinkAction)
        requires
            old(self).wf(),
            old(self).delivered().len() < usize::MAX,
        ensures
            final(self).wf(),
            final(self).delivered() == old(self).delivered().push(outcome@),
            r@ == (match outcome@ {
                TaskOutcomeView::Success(rec) => SinkActionView::WriteRow(rec),
                TaskOutcomeView::Failure(f) => SinkActionView::Diagnose(f),
            }),
            final(self).written() == (match outcome@ {
                TaskOutcomeView::Success(rec) => old(self).written().push(rec),
                TaskOutcomeView::Failure(_) => old(self).written(),
            }),
    {
        let ghost d0 = self.log@;
        let ghost ov = outcome@;
        proof {
            lemma_oks_of_push(d0, ov);
            lemma_oks_len_le(d0);
            assert(match ov {
                TaskOutcomeView::Success(rec) => oks_of(d0.push(ov)) =~= oks_of(d0).push(rec),
                TaskOutcomeView::Failure(_) => oks_of(d0.push(ov)) =~= oks_of(d0),
            });
        }
        self.log = Ghost(d0.push(ov));
        match outcome {
            TaskOutcome::Success(rec) => {
                self.rows_written = self.rows_written + 1;
                SinkAction::WriteRow(rec)
            },
            TaskOutcome::Failure(f) => {
                self.failures_seen = self.failures_seen + 1;
                SinkAction::Diagnose(f)
            },
        }
    }

    /// How many rows the sink has asked its caller to write.
    pub fn rows_count(&self) -> (r: usize)
        requires
            self.wf(),
        ensures
            r == self.written().len(),
    {
        self.rows_written
    }

    /// How many failures the sink has turned into diagnostics.
    pub fn failures_count(&self) -> (r: usize)
        requires
            self.wf(),
        ensures
            r == self.delivered().len() - self.written().len(),
    {
        self.failures_seen
    }
}

} // verus!
