//! Progress tracking for a run, and the execution of a single step.
//!
//! A step is a named operation without arguments that either succeeds or
//! reports a cause of failure. Running a step first records its name in a
//! [`ProgressState`], so that an observer sees the step as in progress, and
//! only then invokes the operation. A failure comes back wrapped together with
//! the name of the step.

use vstd::prelude::*;

verus! {

/// The record of which steps of a run have begun.
///
/// Its view is the sequence of the names of the steps that have begun, in the
/// order in which they began. The number of steps begun is kept beside the
/// names and always equals their count.
pub struct ProgressState {
    current_index: usize,
    history: Vec<String>,
}

impl View for ProgressState {
    type V = Seq<Seq<char>>;

    closed spec fn view(&self) -> Seq<Seq<char>> {
        self.history.deep_view()
    }
}

impl ProgressState {
    #[verifier::type_invariant]
    spec fn coherent(self) -> bool {
        self.current_index == self.history.len()
    }

    /// A record in which no step has begun.
    pub fn new() -> (progress: Self)
        ensures
            progress@ == Seq::<Seq<char>>::empty(),
    {
        ProgressState { current_index: 0, history: Vec::new() }
    }

    /// Records that the step called `step_name` has begun: the name is
    /// appended to the history and the count of steps begun grows by one.
    ///
    /// The record is taken out whole and put back whole, so that it is never
    /// left with only one of the two updated.
    pub fn begin(&mut self, step_name: String)
        ensures
            final(self)@ == old(self)@.push(step_name@),
    {
        let mut before = ProgressState::new();
        core::mem::swap(self, &mut before);
        proof {
            use_type_invariant(&before);
        }
        let ProgressState { current_index, history } = before;
        let mut history = history;
        history.push(step_name);
        assert(history.deep_view() =~= old(self)@.push(step_name@));
        assert(current_index < history.len() <= usize::MAX);
        *self = ProgressState { current_index: current_index + 1, history };
    }

    /// The number of steps that have begun.
    pub fn current_index(&self) -> (index: usize)
        ensures
            index == self@.len(),
    {
        proof {
            use_type_invariant(self);
        }
        self.current_index
    }

    /// The name of the step that began last, if any step has begun.
    pub fn current_name(&self) -> (name: Option<String>)
        ensures
            match name {
                Some(last) => self@.len() > 0 && last@ == self@.last(),
                None => self@.len() == 0,
            },
    {
        let count = self.history.len();
        if count == 0 {
            None
        } else {
            Some(self.history[count - 1].clone())
        }
    }

    /// A copy of the names of the steps that have begun, oldest first.
    pub fn history(&self) -> (names: Vec<String>)
        ensures
            names.deep_view() == self@,
    {
        let names = self.history.clone();
        assert(names.deep_view() =~= self.history.deep_view());
        names
    }

    /// Runs one step against this record; see [`run_step`].
    pub fn run_step<E, F: Fn() -> Result<(), E>>(
        &mut self,
        step_name: String,
        step_fn: F,
    ) -> (outcome: StepOutcome<E>)
        requires
            call_requires(step_fn, ()),
        ensures
            final(self)@ == old(self)@.push(step_name@),
            step_outcome_from(step_fn, step_name@, outcome),
    {
        self.begin(step_name.clone());
        let raw = step_fn();
        assert(raw matches Ok(unit) ==> unit == ());
        wrap_outcome(step_name, raw)
    }
}

/// A failed step: the cause that the operation reported, together with the
/// name of the step it belongs to. The cause is kept as the operation gave it.
#[derive(Debug, PartialEq, Eq)]
pub struct StepFailed<E> {
    pub step_name: String,
    pub cause: E,
}

/// What a [`StepFailed`] holds: the characters of the name, and the cause.
pub ghost struct StepFailedView<E> {
    pub step_name: Seq<char>,
    pub cause: E,
}

impl<E> View for StepFailed<E> {
    type V = StepFailedView<E>;

    open spec fn view(&self) -> StepFailedView<E> {
        StepFailedView { step_name: self.step_name@, cause: self.cause }
    }
}

/// The result of one step: success, or the failure with the step's name.
pub type StepOutcome<E> = Result<(), StepFailed<E>>;

/// What a [`StepOutcome`] holds.
pub open spec fn outcome_view<E>(outcome: StepOutcome<E>) -> Result<(), StepFailedView<E>> {
    match outcome {
        Ok(_) => Ok(()),
        Err(failed) => Err(failed@),
    }
}

/// The outcome of the step called `step_name` whose operation returned `raw`:
/// a success stays a success, and a failure is given the name of the step.
pub open spec fn wrapped<E>(
    step_name: Seq<char>,
    raw: Result<(), E>,
) -> Result<(), StepFailedView<E>> {
    match raw {
        Ok(_) => Ok(()),
        Err(cause) => Err(StepFailedView { step_name, cause }),
    }
}

/// Whether `outcome` is what the step called `step_name` gives when its
/// operation `step_fn` returns: a success, where the operation can succeed;
/// or a failure under the step's name with a cause that the operation can
/// report.
pub open spec fn step_outcome_from<E, F: Fn() -> Result<(), E>>(
    step_fn: F,
    step_name: Seq<char>,
    outcome: StepOutcome<E>,
) -> bool {
    match outcome {
        Ok(_) => call_ensures(step_fn, (), Ok(())),
        Err(failed) => failed.step_name@ == step_name && call_ensures(
            step_fn,
            (),
            Err(failed.cause),
        ),
    }
}

/// Turns what an operation returned into the outcome of the step called
/// `step_name`.
pub fn wrap_outcome<E>(step_name: String, raw: Result<(), E>) -> (outcome: StepOutcome<E>)
    ensures
        outcome_view(outcome) == wrapped(step_name@, raw),
{
    match raw {
        Ok(()) => Ok(()),
        Err(cause) => Err(StepFailed { step_name, cause }),
    }
}

/// Runs one step: records in `progress` that the step called `step_name` has
/// begun, then invokes `step_fn` once and returns its outcome, a failure
/// wrapped with the step's name.
///
/// The progress is recorded before the operation is invoked and stays
/// recorded whatever the operation returns.
pub fn run_step<E, F: Fn() -> Result<(), E>>(
    progress: &mut ProgressState,
    step_name: String,
    step_fn: F,
) -> (outcome: StepOutcome<E>)
    requires
        call_requires(step_fn, ()),
    ensures
        final(progress)@ == old(progress)@.push(step_name@),
        step_outcome_from(step_fn, step_name@, outcome),
{
    progress.run_step(step_name, step_fn)
}

/// The number of steps that have begun.
pub fn get_id(progress: &ProgressState) -> (id: usize)
    ensures
        id == progress@.len(),
{
    progress.current_index()
}

/// A copy of the names of the steps that have begun, oldest first.
pub fn get_names(progress: &ProgressState) -> (names: Vec<String>)
    ensures
        names.deep_view() == progress@,
{
    progress.history()
}

/// The name of the step that began last, if any step has begun.
pub fn get_current_name(progress: &ProgressState) -> (name: Option<String>)
    ensures
        match name {
            Some(last) => progress@.len() > 0 && last@ == progress@.last(),
            None => progress@.len() == 0,
        },
{
    progress.current_name()
}

} // verus!
