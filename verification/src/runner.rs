//! Running a registry of steps, and what a run reports.
//!
//! The steps run one at a time, in the order of the registry. Before a step's
//! operation is invoked its name is recorded in the progress record. A step
//! that succeeds is listed as completed. A step that fails is listed among the
//! failures, with its name and its cause; unless the run was asked to continue
//! on errors, it also ends the run there. After every step that does not end
//! the run there is a pause.
//!
//! The runner neither prints nor sleeps. Whoever starts a run hands it two
//! callbacks: one that is shown the progress record each time a step has
//! begun, and one that waits for a given number of milliseconds.
//!
//! What a run reports is fixed by the names of the steps and by what their
//! operations returned, the *trace* of the run: one entry for each step that
//! was invoked, in order. [`result_of`] states the report mathematically, and
//! [`is_run`] states which traces a run can leave behind.

use vstd::prelude::*;
use crate::registry::{names_of, Step, StepRegistry};
use crate::step::{
    outcome_view, wrap_outcome, wrapped, ProgressState, StepFailed, StepFailedView, StepOutcome,
};

verus! {

/// How a run treats failures and how long it pauses between steps.
#[derive(Debug, Clone, Copy, PartialEq, Eq)]
pub struct RunOptions {
    /// Whether the steps after a failed step still run.
    pub continue_on_error: bool,
    /// The pause after a step, in milliseconds.
    pub inter_step_delay_ms: u64,
}

impl Default for RunOptions {
    /// A failure ends the run, and the pause is one second.
    fn default() -> (options: Self)
        ensures
            !options.continue_on_error,
            options.inter_step_delay_ms == 1000,
    {
        RunOptions { continue_on_error: false, inter_step_delay_ms: 1000 }
    }
}

/// What a run reports: the names of the steps that succeeded, the failures,
/// each in the order in which the steps ran, and whether a failure ended the
/// run.
#[derive(Debug, PartialEq, Eq)]
pub struct RunResult<E> {
    pub completed_steps: Vec<String>,
    pub failures: Vec<StepFailed<E>>,
    pub aborted: bool,
}

/// What a [`RunResult`] holds.
pub ghost struct RunResultView<E> {
    pub completed_steps: Seq<Seq<char>>,
    pub failures: Seq<StepFailedView<E>>,
    pub aborted: bool,
}

impl<E> View for RunResult<E> {
    type V = RunResultView<E>;

    open spec fn view(&self) -> RunResultView<E> {
        RunResultView {
            completed_steps: self.completed_steps.deep_view(),
            failures: Seq::new(self.failures.len() as nat, |i: int| self.failures[i]@),
            aborted: self.aborted,
        }
    }
}

/// The three ways in which a run can end.
#[derive(Debug, Clone, Copy, PartialEq, Eq)]
pub enum RunStatus {
    /// Every step ran and none failed.
    Completed,
    /// A failure ended the run.
    Aborted,
    /// Every step ran, and this many of them failed.
    CompletedWithFailures(usize),
}

impl<E> RunResultView<E> {
    /// The report of a run in which no step has run yet.
    pub open spec fn fresh() -> Self {
        RunResultView { completed_steps: Seq::empty(), failures: Seq::empty(), aborted: false }
    }

    /// The report after one more step, called `step_name`, ended with
    /// `outcome`. A success adds the name to the completed steps. A failure is
    /// added to the failures, and marks the run as aborted unless it continues
    /// on errors.
    pub open spec fn recorded(
        self,
        step_name: Seq<char>,
        outcome: Result<(), StepFailedView<E>>,
        continue_on_error: bool,
    ) -> Self {
        match outcome {
            Ok(_) => RunResultView {
                completed_steps: self.completed_steps.push(step_name),
                failures: self.failures,
                aborted: self.aborted,
            },
            Err(failed) => RunResultView {
                completed_steps: self.completed_steps,
                failures: self.failures.push(failed),
                aborted: self.aborted || !continue_on_error,
            },
        }
    }
}

/// The names of the first `trace.len()` steps whose entry in `trace` is a
/// success, in order.
pub open spec fn succeeded<E>(names: Seq<Seq<char>>, trace: Seq<Result<(), E>>) -> Seq<Seq<char>>
    decreases trace.len(),
{
    if trace.len() == 0 {
        Seq::empty()
    } else {
        let earlier = succeeded(names, trace.drop_last());
        match trace.last() {
            Ok(_) => earlier.push(names[trace.len() - 1]),
            Err(_) => earlier,
        }
    }
}

/// The failures among the first `trace.len()` steps, in order: for each entry
/// of `trace` that is a failure, its cause with the name of its step.
pub open spec fn failed<E>(
    names: Seq<Seq<char>>,
    trace: Seq<Result<(), E>>,
) -> Seq<StepFailedView<E>>
    decreases trace.len(),
{
    if trace.len() == 0 {
        Seq::empty()
    } else {
        let earlier = failed(names, trace.drop_last());
        match trace.last() {
            Ok(_) => earlier,
            Err(cause) => earlier.push(StepFailedView { step_name: names[trace.len() - 1], cause }),
        }
    }
}

/// Whether the failure of one of the steps in `trace` ends the run.
pub open spec fn aborts<E>(trace: Seq<Result<(), E>>, continue_on_error: bool) -> bool {
    !continue_on_error && exists|i: int| 0 <= i < trace.len() && (#[trigger] trace[i]) is Err
}

/// The report of a run over steps called `names` whose operations returned
/// `trace`.
pub open spec fn result_of<E>(
    names: Seq<Seq<char>>,
    trace: Seq<Result<(), E>>,
    continue_on_error: bool,
) -> RunResultView<E> {
    RunResultView {
        completed_steps: succeeded(names, trace),
        failures: failed(names, trace),
        aborted: aborts(trace, continue_on_error),
    }
}

/// Whether `trace` can be the trace of a finished run over `count` steps: no
/// step ran after a failure that ends the run, and every step ran unless such
/// a failure came first.
pub open spec fn is_run<E>(count: nat, trace: Seq<Result<(), E>>, continue_on_error: bool) -> bool {
    &&& trace.len() <= count
    &&& forall|i: int|
        0 <= i < trace.len() - 1 ==> continue_on_error || (#[trigger] trace[i]) is Ok
    &&& trace.len() < count ==> trace.len() > 0 && !continue_on_error && trace.last() is Err
}

/// The history of a progress record that held `before` when a run began,
/// once the first `begun` of the steps called `names` have begun.
pub open spec fn history_after(
    before: Seq<Seq<char>>,
    names: Seq<Seq<char>>,
    begun: nat,
) -> Seq<Seq<char>> {
    before + names.take(begun as int)
}

/// Whether `shown` is the history of that progress record while the step at
/// position `i` is in progress: the step has begun, and none after it.
pub open spec fn in_progress(
    shown: Seq<Seq<char>>,
    before: Seq<Seq<char>>,
    names: Seq<Seq<char>>,
    i: int,
) -> bool {
    0 <= i < names.len() && shown == history_after(before, names, (i + 1) as nat)
}

/// Whether `result`, reported by a run over `steps` that found `before` in
/// the progress record and left `after` there, is explained by `trace`: the
/// trace is that of a finished run, each entry is something that the
/// operation of its step can return, the report is the one that the trace
/// gives, and the progress record gained the names of the steps that ran.
pub open spec fn explains<E, F: Fn() -> Result<(), E>>(
    trace: Seq<Result<(), E>>,
    steps: Seq<Step<F>>,
    continue_on_error: bool,
    before: Seq<Seq<char>>,
    after: Seq<Seq<char>>,
    result: RunResultView<E>,
) -> bool {
    &&& is_run(steps.len(), trace, continue_on_error)
    &&& forall|i: int|
        0 <= i < trace.len() ==> call_ensures(steps[i].operation, (), #[trigger] trace[i])
    &&& result == result_of(names_of(steps), trace, continue_on_error)
    &&& after == history_after(before, names_of(steps), trace.len())
}

/// One more step extends the report of a trace by what that step's outcome
/// records.
pub proof fn lemma_result_of_push<E>(
    names: Seq<Seq<char>>,
    trace: Seq<Result<(), E>>,
    raw: Result<(), E>,
    continue_on_error: bool,
)
    ensures
        result_of(names, trace.push(raw), continue_on_error) == result_of(
            names,
            trace,
            continue_on_error,
        ).recorded(
            names[trace.len() as int],
            wrapped(names[trace.len() as int], raw),
            continue_on_error,
        ),
{
    let longer = trace.push(raw);
    assert(longer.drop_last() == trace);
    assert(longer.last() == raw);
    if aborts(trace, continue_on_error) {
        let i = choose|i: int| 0 <= i < trace.len() && (#[trigger] trace[i]) is Err;
        assert(longer[i] is Err);
    }
    if raw is Err {
        assert(longer[trace.len() as int] is Err);
    }
    if aborts(longer, continue_on_error) {
        let i = choose|i: int| 0 <= i < longer.len() && (#[trigger] longer[i]) is Err;
        if i < trace.len() {
            assert(trace[i] is Err);
        }
    }
}

impl<E> RunResult<E> {
    /// The report of a run in which no step has run yet.
    pub fn new() -> (result: Self)
        ensures
            result@ == RunResultView::<E>::fresh(),
    {
        let result = RunResult { completed_steps: Vec::new(), failures: Vec::new(), aborted: false };
        assert(result@.completed_steps =~= Seq::empty());
        assert(result@.failures =~= Seq::empty());
        result
    }

    /// Records that the step called `step_name` ended with `outcome`, and
    /// tells what the run does next: it pauses for the returned number of
    /// milliseconds and goes on, or, where nothing is returned, it ends here.
    pub fn record(
        &mut self,
        step_name: String,
        outcome: StepOutcome<E>,
        options: &RunOptions,
    ) -> (pause: Option<u64>)
        ensures
            final(self)@ == old(self)@.recorded(
                step_name@,
                outcome_view(outcome),
                options.continue_on_error,
            ),
            pause == if final(self)@.aborted {
                None
            } else {
                Some(options.inter_step_delay_ms)
            },
    {
        match outcome {
            Ok(()) => {
                self.completed_steps.push(step_name);
                assert(self@.completed_steps =~= old(self)@.completed_steps.push(step_name@));
                assert(self@.failures =~= old(self)@.failures);
            },
            Err(failed) => {
                self.failures.push(failed);
                if !options.continue_on_error {
                    self.aborted = true;
                }
                assert(self@.completed_steps =~= old(self)@.completed_steps);
                assert(self@.failures =~= old(self)@.failures.push(failed@));
            },
        }
        if self.aborted {
            None
        } else {
            Some(options.inter_step_delay_ms)
        }
    }

    /// Tells apart a run that completed, a run that a failure ended, and a run
    /// that went on past its failures, with their number.
    pub fn status(&self) -> (status: RunStatus)
        ensures
            match status {
                RunStatus::Completed => !self@.aborted && self@.failures.len() == 0,
                RunStatus::Aborted => self@.aborted,
                RunStatus::CompletedWithFailures(count) => !self@.aborted && count > 0 && count
                    == self@.failures.len(),
            },
    {
        if self.aborted {
            RunStatus::Aborted
        } else if self.failures.len() == 0 {
            RunStatus::Completed
        } else {
            RunStatus::CompletedWithFailures(self.failures.len())
        }
    }
}

/// Runs the steps of `registry` in order and reports which succeeded and
/// which failed.
///
/// For each step, its name is first recorded in `progress`; then `observe` is
/// shown the record, in which that step is the current one; then the step's
/// operation is invoked once. A failure is kept with the step's name. If
/// `options.continue_on_error` is not set, the first failure ends the run: no
/// later step is invoked and nothing more is recorded. After every step that
/// does not end the run, `pause` is called once with
/// `options.inter_step_delay_ms`.
///
/// The callbacks need to accept only what a run hands them: `observe` a
/// record in which one of the steps is in progress, `pause` the delay of
/// `options`.
pub fn run<E, F: Fn() -> Result<(), E>, O: Fn(&ProgressState), P: Fn(u64)>(
    registry: &StepRegistry<F>,
    options: &RunOptions,
    progress: &mut ProgressState,
    observe: O,
    pause: P,
) -> (result: RunResult<E>)
    requires
        forall|i: int|
            0 <= i < registry@.len() ==> call_requires(#[trigger] registry@[i].operation, ()),
        forall|shown: &ProgressState, i: int| #[trigger]
            in_progress(shown@, old(progress)@, names_of(registry@), i) ==> call_requires(
                observe,
                (shown,),
            ),
        call_requires(pause, (options.inter_step_delay_ms,)),
    ensures
        exists|trace: Seq<Result<(), E>>| #[trigger]
            explains(
                trace,
                registry@,
                options.continue_on_error,
                old(progress)@,
                final(progress)@,
                result@,
            ),
{
    let steps = registry.steps();
    let count = steps.len();
    let ghost names = names_of(registry@);
    let ghost mut trace: Seq<Result<(), E>> = Seq::empty();
    let mut result: RunResult<E> = RunResult::new();
    let mut index: usize = 0;
    assert(progress@ =~= history_after(old(progress)@, names, 0));
    while index < count
        invariant_except_break
            !result@.aborted,
        invariant
            steps@ == registry@,
            count == steps@.len(),
            count > 0,
            names == names_of(registry@),
            index <= count,
            trace.len() == index,
            forall|i: int|
                0 <= i < registry@.len() ==> call_requires(#[trigger] registry@[i].operation, ()),
            forall|shown: &ProgressState, i: int| #[trigger]
                in_progress(shown@, old(progress)@, names, i) ==> call_requires(observe, (shown,)),
            call_requires(pause, (options.inter_step_delay_ms,)),
            forall|i: int|
                0 <= i < trace.len() ==> call_ensures(registry@[i].operation, (), #[trigger] trace[i]),
            forall|i: int|
                0 <= i < trace.len() - 1 ==> options.continue_on_error || (#[trigger] trace[i]) is Ok,
            result@ == result_of(names, trace, options.continue_on_error),
            progress@ == history_after(old(progress)@, names, trace.len()),
        ensures
            index < count ==> result@.aborted,
            index > 0,
        decreases count - index,
    {
        let step = &steps[index];
        progress.begin(step.name.clone());
        assert(in_progress(progress@, old(progress)@, names, index as int)) by {
            assert(history_after(old(progress)@, names, trace.len()).push(step.name@)
                =~= history_after(old(progress)@, names, (trace.len() + 1) as nat));
        }
        observe(&*progress);
        let raw = (step.operation)();
        proof {
            lemma_result_of_push(names, trace, raw, options.continue_on_error);
            trace = trace.push(raw);
        }
        let outcome = wrap_outcome(step.name.clone(), raw);
        let next = result.record(step.name.clone(), outcome, options);
        index = index + 1;
        match next {
            Some(millis) => {
                pause(millis);
            },
            None => {
                break ;
            },
        }
    }
    assert(explains(trace, registry@, options.continue_on_error, old(progress)@, progress@, result@));
    result
}

} // verus!
