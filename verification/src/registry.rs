//! The ordered list of steps of one run.

use vstd::prelude::*;

verus! {

/// One named operation. The operation takes no arguments; what it does is
/// its own affair.
pub struct Step<F> {
    pub name: String,
    pub operation: F,
}

/// Why a list of steps was not accepted as a registry.
#[derive(Debug, Clone, Copy, PartialEq, Eq)]
pub enum ConfigurationError {
    /// The list holds no step.
    EmptyRegistry,
}

/// A fixed, non-empty sequence of steps, read in the order in which it was
/// given. Its view is that sequence.
pub struct StepRegistry<F> {
    steps: Vec<Step<F>>,
}

impl<F> View for StepRegistry<F> {
    type V = Seq<Step<F>>;

    closed spec fn view(&self) -> Seq<Step<F>> {
        self.steps@
    }
}

/// The names of `steps`, in order, each as its characters.
pub open spec fn names_of<F>(steps: Seq<Step<F>>) -> Seq<Seq<char>> {
    Seq::new(steps.len(), |i: int| steps[i].name@)
}

impl<F> StepRegistry<F> {
    #[verifier::type_invariant]
    spec fn populated(self) -> bool {
        self.steps.len() > 0
    }

    /// Makes a registry of `steps`, kept in the given order. An empty list is
    /// refused, and only an empty list.
    pub fn new(steps: Vec<Step<F>>) -> (made: Result<Self, ConfigurationError>)
        ensures
            match made {
                Ok(registry) => steps@.len() > 0 && registry@ == steps@,
                Err(error) => steps@.len() == 0 && error == ConfigurationError::EmptyRegistry,
            },
    {
        if steps.len() == 0 {
            Err(ConfigurationError::EmptyRegistry)
        } else {
            Ok(StepRegistry { steps })
        }
    }

    /// The number of steps, which is never zero.
    pub fn len(&self) -> (count: usize)
        ensures
            count == self@.len(),
            count > 0,
    {
        proof {
            use_type_invariant(self);
        }
        self.steps.len()
    }

    /// The steps, in order, for reading.
    pub fn steps(&self) -> (steps: &[Step<F>])
        ensures
            steps@ == self@,
            steps@.len() > 0,
    {
        proof {
            use_type_invariant(self);
        }
        self.steps.as_slice()
    }
}

} // verus!
