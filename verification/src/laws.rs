//! What holds of every run.
//!
//! Each statement here is proved for all names, all traces and all causes. A
//! run is spoken of through its trace, as in [`crate::runner`]: the entry at
//! position `i` is what the operation of step `i` returned, steps counted from
//! zero.

use vstd::prelude::*;
use crate::runner::{
    aborts, failed, history_after, in_progress, is_run, result_of, succeeded, RunResultView,
};
use crate::step::StepFailedView;

verus! {

/// The failure that the step at position `i` contributes to a report.
pub open spec fn failure_at<E>(
    names: Seq<Seq<char>>,
    trace: Seq<Result<(), E>>,
    i: int,
) -> StepFailedView<E> {
    StepFailedView { step_name: names[i], cause: trace[i]->Err_0 }
}

/// The successes and the failures among the first `i` steps are the first
/// ones among all steps.
proof fn lemma_earlier_steps_come_first<E>(names: Seq<Seq<char>>, trace: Seq<Result<(), E>>, i: int)
    requires
        0 <= i <= trace.len(),
    ensures
        succeeded(names, trace.take(i)).len() <= succeeded(names, trace).len(),
        succeeded(names, trace).take(succeeded(names, trace.take(i)).len() as int) == succeeded(
            names,
            trace.take(i),
        ),
        failed(names, trace.take(i)).len() <= failed(names, trace).len(),
        failed(names, trace).take(failed(names, trace.take(i)).len() as int) == failed(
            names,
            trace.take(i),
        ),
    decreases trace.len(),
{
    if i == trace.len() {
        assert(trace.take(i) == trace);
        assert(succeeded(names, trace).take(succeeded(names, trace).len() as int) == succeeded(
            names,
            trace,
        ));
        assert(failed(names, trace).take(failed(names, trace).len() as int) == failed(names, trace));
    } else {
        assert(trace.drop_last().take(i) == trace.take(i));
        lemma_earlier_steps_come_first(names, trace.drop_last(), i);
        let some_succeeded = succeeded(names, trace.take(i));
        let some_failed = failed(names, trace.take(i));
        assert(succeeded(names, trace).take(some_succeeded.len() as int) == succeeded(
            names,
            trace.drop_last(),
        ).take(some_succeeded.len() as int));
        assert(failed(names, trace).take(some_failed.len() as int) == failed(
            names,
            trace.drop_last(),
        ).take(some_failed.len() as int));
    }
}

/// While every step succeeds, the completed steps are the steps that ran and
/// there is no failure.
proof fn lemma_only_successes<E>(names: Seq<Seq<char>>, trace: Seq<Result<(), E>>)
    requires
        trace.len() <= names.len(),
        forall|i: int| 0 <= i < trace.len() ==> (#[trigger] trace[i]) is Ok,
    ensures
        succeeded(names, trace) == names.take(trace.len() as int),
        failed(names, trace) == Seq::<StepFailedView<E>>::empty(),
    decreases trace.len(),
{
    if trace.len() > 0 {
        lemma_only_successes(names, trace.drop_last());
        assert(trace.last() is Ok);
        assert(names.take(trace.len() - 1).push(names[trace.len() - 1]) == names.take(
            trace.len() as int,
        ));
    } else {
        assert(names.take(0) == Seq::<Seq<char>>::empty());
    }
}

/// Every step that ran is reported once: as completed or as failed.
pub proof fn law_every_step_is_reported<E>(names: Seq<Seq<char>>, trace: Seq<Result<(), E>>)
    ensures
        succeeded(names, trace).len() + failed(names, trace).len() == trace.len(),
    decreases trace.len(),
{
    if trace.len() > 0 {
        law_every_step_is_reported(names, trace.drop_last());
    }
}

/// When every step of a non-empty list succeeds, all of them run, the
/// completed steps are the names of the steps in order, there is no failure,
/// the run is not aborted, and a progress record that was empty before the run
/// holds the same names in the same order.
pub proof fn law_all_steps_succeed<E>(
    names: Seq<Seq<char>>,
    trace: Seq<Result<(), E>>,
    continue_on_error: bool,
)
    requires
        names.len() > 0,
        is_run(names.len(), trace, continue_on_error),
        forall|i: int| 0 <= i < trace.len() ==> (#[trigger] trace[i]) is Ok,
    ensures
        trace.len() == names.len(),
        result_of(names, trace, continue_on_error) == (RunResultView {
            completed_steps: names,
            failures: Seq::<StepFailedView<E>>::empty(),
            aborted: false,
        }),
        history_after(Seq::empty(), names, trace.len()) == names,
{
    if trace.len() < names.len() {
        assert(trace[trace.len() - 1] is Ok);
    }
    lemma_only_successes(names, trace);
    assert(names.take(names.len() as int) == names);
    assert(Seq::<Seq<char>>::empty() + names == names);
}

/// When a step fails in a run that does not continue on errors, that step is
/// the last one to run: the steps before it are the completed steps, the step
/// itself is not among them, the failures hold one entry, with the name of
/// that step and its cause, the run is aborted, and the progress record gains
/// the names up to that step and no more.
pub proof fn law_failure_ends_run<E>(
    names: Seq<Seq<char>>,
    trace: Seq<Result<(), E>>,
    k: int,
    before: Seq<Seq<char>>,
)
    requires
        is_run(names.len(), trace, false),
        0 <= k < trace.len(),
        trace[k] is Err,
    ensures
        trace.len() == k + 1,
        forall|i: int| 0 <= i < k ==> (#[trigger] trace[i]) is Ok,
        result_of(names, trace, false) == (RunResultView {
            completed_steps: names.take(k),
            failures: seq![failure_at(names, trace, k)],
            aborted: true,
        }),
        history_after(before, names, trace.len()) == before + names.take(k + 1),
{
    assert(trace.len() == k + 1);
    lemma_only_successes(names, trace.drop_last());
    assert(Seq::<StepFailedView<E>>::empty().push(failure_at(names, trace, k))
        == seq![failure_at(names, trace, k)]);
}

/// In a run that continues on errors every step runs, whatever fails, and the
/// run is not aborted.
pub proof fn law_continue_runs_every_step<E>(names: Seq<Seq<char>>, trace: Seq<Result<(), E>>)
    requires
        is_run(names.len(), trace, true),
    ensures
        trace.len() == names.len(),
        !result_of(names, trace, true).aborted,
        result_of(names, trace, true).completed_steps.len() + result_of(
            names,
            trace,
            true,
        ).failures.len() == names.len(),
{
    law_every_step_is_reported(names, trace);
}

/// Every step that failed is among the failures, with its name and its cause,
/// at the position that counts the failures before it.
pub proof fn law_failure_is_listed<E>(names: Seq<Seq<char>>, trace: Seq<Result<(), E>>, i: int)
    requires
        0 <= i < trace.len(),
        trace[i] is Err,
    ensures
        failed(names, trace.take(i)).len() < failed(names, trace).len(),
        failed(names, trace)[failed(names, trace.take(i)).len() as int] == failure_at(names, trace, i),
{
    let through_i = trace.take(i + 1);
    assert(through_i.drop_last() == trace.take(i));
    assert(through_i.last() == trace[i]);
    lemma_earlier_steps_come_first(names, trace, i + 1);
    let position = failed(names, trace.take(i)).len() as int;
    assert(failed(names, through_i)[position] == failure_at(names, trace, i));
    assert(failed(names, trace).take(position + 1)[position] == failed(names, trace)[position]);
}

/// The failures stand in the order in which the steps ran: of two steps that
/// failed, the one that ran first is listed first.
pub proof fn law_failures_in_order<E>(names: Seq<Seq<char>>, trace: Seq<Result<(), E>>, i: int, j: int)
    requires
        0 <= i < j < trace.len(),
        trace[i] is Err,
        trace[j] is Err,
    ensures
        failed(names, trace.take(i)).len() < failed(names, trace.take(j)).len(),
{
    let through_i = trace.take(i + 1);
    assert(through_i.drop_last() == trace.take(i));
    assert(through_i.last() == trace[i]);
    assert(trace.take(j).take(i + 1) == through_i);
    lemma_earlier_steps_come_first(names, trace.take(j), i + 1);
}

/// Every entry of the failures is the failure of a step that failed.
pub proof fn law_failures_come_from_steps<E>(
    names: Seq<Seq<char>>,
    trace: Seq<Result<(), E>>,
    position: int,
) -> (i: int)
    requires
        0 <= position < failed(names, trace).len(),
    ensures
        0 <= i < trace.len(),
        trace[i] is Err,
        failed(names, trace.take(i)).len() == position,
        failed(names, trace)[position] == failure_at(names, trace, i),
    decreases trace.len(),
{
    let earlier = failed(names, trace.drop_last());
    if trace.last() is Err && position == earlier.len() {
        assert(trace.take(trace.len() - 1) == trace.drop_last());
        trace.len() - 1
    } else {
        let i = law_failures_come_from_steps(names, trace.drop_last(), position);
        assert(trace.drop_last().take(i) == trace.take(i));
        i
    }
}

/// Every step that succeeded is among the completed steps, by its name, at
/// the position that counts the successes before it.
pub proof fn law_success_is_listed<E>(names: Seq<Seq<char>>, trace: Seq<Result<(), E>>, i: int)
    requires
        0 <= i < trace.len(),
        trace[i] is Ok,
    ensures
        succeeded(names, trace.take(i)).len() < succeeded(names, trace).len(),
        succeeded(names, trace)[succeeded(names, trace.take(i)).len() as int] == names[i],
{
    let through_i = trace.take(i + 1);
    assert(through_i.drop_last() == trace.take(i));
    assert(through_i.last() == trace[i]);
    lemma_earlier_steps_come_first(names, trace, i + 1);
    let position = succeeded(names, trace.take(i)).len() as int;
    assert(succeeded(names, through_i)[position] == names[i]);
    assert(succeeded(names, trace).take(position + 1)[position] == succeeded(names, trace)[position]);
}

/// The completed steps stand in the order in which the steps ran: of two
/// steps that succeeded, the one that ran first is listed first.
pub proof fn law_completed_in_order<E>(names: Seq<Seq<char>>, trace: Seq<Result<(), E>>, i: int, j: int)
    requires
        0 <= i < j < trace.len(),
        trace[i] is Ok,
        trace[j] is Ok,
    ensures
        succeeded(names, trace.take(i)).len() < succeeded(names, trace.take(j)).len(),
{
    let through_i = trace.take(i + 1);
    assert(through_i.drop_last() == trace.take(i));
    assert(through_i.last() == trace[i]);
    assert(trace.take(j).take(i + 1) == through_i);
    lemma_earlier_steps_come_first(names, trace.take(j), i + 1);
}

/// Every entry of the completed steps is the name of a step that succeeded.
pub proof fn law_completed_come_from_steps<E>(
    names: Seq<Seq<char>>,
    trace: Seq<Result<(), E>>,
    position: int,
) -> (i: int)
    requires
        0 <= position < succeeded(names, trace).len(),
    ensures
        0 <= i < trace.len(),
        trace[i] is Ok,
        succeeded(names, trace.take(i)).len() == position,
        succeeded(names, trace)[position] == names[i],
    decreases trace.len(),
{
    let earlier = succeeded(names, trace.drop_last());
    if trace.last() is Ok && position == earlier.len() {
        assert(trace.take(trace.len() - 1) == trace.drop_last());
        trace.len() - 1
    } else {
        let i = law_completed_come_from_steps(names, trace.drop_last(), position);
        assert(trace.drop_last().take(i) == trace.take(i));
        i
    }
}

/// In a run that does not continue on errors there is at most one failure,
/// and the run is aborted exactly when there is one.
pub proof fn law_at_most_one_failure<E>(names: Seq<Seq<char>>, trace: Seq<Result<(), E>>)
    requires
        is_run(names.len(), trace, false),
    ensures
        result_of(names, trace, false).failures.len() <= 1,
        result_of(names, trace, false).aborted <==> result_of(names, trace, false).failures.len() == 1,
{
    if aborts(trace, false) {
        let k = choose|k: int| 0 <= k < trace.len() && (#[trigger] trace[k]) is Err;
        law_failure_ends_run(names, trace, k, Seq::empty());
    } else {
        lemma_only_successes(names, trace);
    }
}

/// A run is aborted only if it does not continue on errors and a step
/// failed.
pub proof fn law_abort_needs_failure<E>(
    names: Seq<Seq<char>>,
    trace: Seq<Result<(), E>>,
    continue_on_error: bool,
)
    ensures
        result_of(names, trace, continue_on_error).aborted ==> !continue_on_error && result_of(
            names,
            trace,
            continue_on_error,
        ).failures.len() > 0,
{
    if aborts(trace, continue_on_error) {
        let k = choose|k: int| 0 <= k < trace.len() && (#[trigger] trace[k]) is Err;
        law_failure_is_listed(names, trace, k);
    }
}

/// While the step at position `i` is in progress, the progress record holds
/// what it held before the run and the names of the steps up to that one: the
/// number of steps begun has grown by `i + 1`, one more than while the step
/// before was in progress, and the current name is that step's. In a run that
/// began with an empty record the number of steps begun is `i + 1`.
pub proof fn law_progress_counts_begun_steps(
    shown: Seq<Seq<char>>,
    before: Seq<Seq<char>>,
    names: Seq<Seq<char>>,
    i: int,
)
    requires
        in_progress(shown, before, names, i),
    ensures
        shown.len() == before.len() + i + 1,
        shown.last() == names[i],
        shown == history_after(before, names, i as nat).push(names[i]),
        before.len() == 0 ==> shown.len() == i + 1 && shown == names.take(i + 1),
{
    assert(names.take(i + 1) == names.take(i).push(names[i]));
    assert(before + names.take(i + 1) == (before + names.take(i)).push(names[i]));
    if before.len() == 0 {
        assert(before + names.take(i + 1) == names.take(i + 1));
    }
}

/// A run over a single step that fails, not continuing on errors, is
/// aborted, completes no step, and reports that one failure.
pub proof fn law_single_failing_step<E>(names: Seq<Seq<char>>, trace: Seq<Result<(), E>>)
    requires
        names.len() == 1,
        is_run(1, trace, false),
        forall|i: int| 0 <= i < trace.len() ==> (#[trigger] trace[i]) is Err,
    ensures
        trace.len() == 1,
        result_of(names, trace, false) == (RunResultView {
            completed_steps: Seq::<Seq<char>>::empty(),
            failures: seq![failure_at(names, trace, 0)],
            aborted: true,
        }),
{
    assert(trace.len() == 1);
    law_failure_ends_run(names, trace, 0, Seq::empty());
    assert(names.take(0) == Seq::<Seq<char>>::empty());
}

} // verus!
