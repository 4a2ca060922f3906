use std::cell::{Cell, RefCell};
use std::rc::Rc;

use step_runner::registry::{Step, StepRegistry};
use step_runner::runner::{run, RunOptions, RunResult, RunStatus};
use step_runner::step::{ProgressState, StepFailed};

type Operation = Box<dyn Fn() -> Result<(), String>>;

/// A step that counts its invocations in `log` under its own name and then
/// succeeds, or fails with `cause`.
fn step(name: &str, cause: Option<&str>, log: &Rc<RefCell<Vec<String>>>) -> Step<Operation> {
    let log = Rc::clone(log);
    let owned = name.to_string();
    let cause = cause.map(|text| text.to_string());
    Step {
        name: name.to_string(),
        operation: Box::new(move || {
            log.borrow_mut().push(owned.clone());
            match &cause {
                None => Ok(()),
                Some(text) => Err(text.clone()),
            }
        }),
    }
}

fn registry_of(steps: Vec<Step<Operation>>) -> StepRegistry<Operation> {
    match StepRegistry::new(steps) {
        Ok(registry) => registry,
        Err(error) => panic!("refused: {:?}", error),
    }
}

fn options(continue_on_error: bool) -> RunOptions {
    RunOptions { continue_on_error, inter_step_delay_ms: 0 }
}

fn strings(names: &[&str]) -> Vec<String> {
    names.iter().map(|name| name.to_string()).collect()
}

fn failure(step_name: &str, cause: &str) -> StepFailed<String> {
    StepFailed { step_name: step_name.to_string(), cause: cause.to_string() }
}

#[test]
fn default_options_abort_and_pause_one_second() {
    let defaults = RunOptions::default();
    assert!(!defaults.continue_on_error);
    assert_eq!(defaults.inter_step_delay_ms, 1000);
}

#[test]
fn all_steps_succeed() {
    let log = Rc::new(RefCell::new(Vec::new()));
    let registry =
        registry_of(vec![step("a", None, &log), step("b", None, &log), step("c", None, &log)]);
    let mut progress = ProgressState::new();
    let result = run(&registry, &options(false), &mut progress, |_| (), |_| ());
    assert_eq!(result.completed_steps, strings(&["a", "b", "c"]));
    assert_eq!(result.failures, Vec::new());
    assert!(!result.aborted);
    assert_eq!(result.status(), RunStatus::Completed);
    assert_eq!(progress.history(), strings(&["a", "b", "c"]));
    assert_eq!(progress.current_index(), 3);
    assert_eq!(*log.borrow(), strings(&["a", "b", "c"]));
}

#[test]
fn all_steps_succeed_when_continuing_on_errors() {
    let log = Rc::new(RefCell::new(Vec::new()));
    let registry = registry_of(vec![step("a", None, &log), step("b", None, &log)]);
    let mut progress = ProgressState::new();
    let result = run(&registry, &options(true), &mut progress, |_| (), |_| ());
    assert_eq!(result.completed_steps, strings(&["a", "b"]));
    assert_eq!(result.failures, Vec::new());
    assert!(!result.aborted);
    assert_eq!(progress.history(), strings(&["a", "b"]));
}

#[test]
fn failure_aborts_by_default() {
    let log = Rc::new(RefCell::new(Vec::new()));
    let registry = registry_of(vec![
        step("a", None, &log),
        step("b", Some("boom"), &log),
        step("c", None, &log),
    ]);
    let mut progress = ProgressState::new();
    let result = run(&registry, &options(false), &mut progress, |_| (), |_| ());
    assert_eq!(result.completed_steps, strings(&["a"]));
    assert_eq!(result.failures, vec![failure("b", "boom")]);
    assert!(result.aborted);
    assert_eq!(result.status(), RunStatus::Aborted);
    assert_eq!(*log.borrow(), strings(&["a", "b"]));
    assert_eq!(progress.history(), strings(&["a", "b"]));
    assert_eq!(progress.current_index(), 2);
    assert_eq!(progress.current_name(), Some("b".to_string()));
}

#[test]
fn failure_is_recorded_when_continuing() {
    let log = Rc::new(RefCell::new(Vec::new()));
    let registry = registry_of(vec![
        step("a", None, &log),
        step("b", Some("boom"), &log),
        step("c", None, &log),
    ]);
    let mut progress = ProgressState::new();
    let result = run(&registry, &options(true), &mut progress, |_| (), |_| ());
    assert_eq!(result.completed_steps, strings(&["a", "c"]));
    assert_eq!(result.failures, vec![failure("b", "boom")]);
    assert!(!result.aborted);
    assert_eq!(result.status(), RunStatus::CompletedWithFailures(1));
    assert_eq!(*log.borrow(), strings(&["a", "b", "c"]));
    assert_eq!(progress.history(), strings(&["a", "b", "c"]));
}

#[test]
fn failure_at_each_position_aborts_there() {
    let names = ["s1", "s2", "s3", "s4", "s5"];
    for failing in 0..names.len() {
        let log = Rc::new(RefCell::new(Vec::new()));
        let steps = names
            .iter()
            .enumerate()
            .map(|(index, name)| {
                step(name, if index >= failing { Some("broken") } else { None }, &log)
            })
            .collect();
        let registry = registry_of(steps);
        let mut progress = ProgressState::new();
        let result = run(&registry, &options(false), &mut progress, |_| (), |_| ());
        assert_eq!(result.completed_steps, strings(&names[..failing]));
        assert_eq!(result.failures, vec![failure(names[failing], "broken")]);
        assert!(result.aborted);
        assert_eq!(*log.borrow(), strings(&names[..=failing]));
        assert_eq!(progress.history(), strings(&names[..=failing]));
    }
}

#[test]
fn several_failures_are_listed_in_order_when_continuing() {
    let log = Rc::new(RefCell::new(Vec::new()));
    let registry = registry_of(vec![
        step("a", Some("first"), &log),
        step("b", None, &log),
        step("c", Some("second"), &log),
        step("d", Some("third"), &log),
        step("e", None, &log),
    ]);
    let mut progress = ProgressState::new();
    let result = run(&registry, &options(true), &mut progress, |_| (), |_| ());
    assert_eq!(result.completed_steps, strings(&["b", "e"]));
    assert_eq!(
        result.failures,
        vec![failure("a", "first"), failure("c", "second"), failure("d", "third")]
    );
    assert!(!result.aborted);
    assert_eq!(result.status(), RunStatus::CompletedWithFailures(3));
    assert_eq!(*log.borrow(), strings(&["a", "b", "c", "d", "e"]));
    assert_eq!(progress.history(), strings(&["a", "b", "c", "d", "e"]));
}

#[test]
fn every_step_fails_when_continuing() {
    let log = Rc::new(RefCell::new(Vec::new()));
    let registry = registry_of(vec![step("a", Some("x"), &log), step("b", Some("y"), &log)]);
    let mut progress = ProgressState::new();
    let result = run(&registry, &options(true), &mut progress, |_| (), |_| ());
    assert_eq!(result.completed_steps, Vec::<String>::new());
    assert_eq!(result.failures, vec![failure("a", "x"), failure("b", "y")]);
    assert!(!result.aborted);
}

#[test]
fn single_failing_step_aborts() {
    let log = Rc::new(RefCell::new(Vec::new()));
    let registry = registry_of(vec![step("only", Some("never works"), &log)]);
    let mut progress = ProgressState::new();
    let result = run(&registry, &options(false), &mut progress, |_| (), |_| ());
    assert!(result.aborted);
    assert_eq!(result.completed_steps, Vec::<String>::new());
    assert_eq!(result.failures, vec![failure("only", "never works")]);
    assert_eq!(*log.borrow(), strings(&["only"]));
}

#[test]
fn single_failing_step_twice_gives_the_same_result() {
    let log = Rc::new(RefCell::new(Vec::new()));
    let registry = registry_of(vec![step("only", Some("never works"), &log)]);
    let mut first_progress = ProgressState::new();
    let first = run(&registry, &options(false), &mut first_progress, |_| (), |_| ());
    let mut second_progress = ProgressState::new();
    let second = run(&registry, &options(false), &mut second_progress, |_| (), |_| ());
    assert_eq!(first, second);
    assert_eq!(first_progress.history(), second_progress.history());
}

#[test]
fn last_step_failing_aborts_too() {
    let log = Rc::new(RefCell::new(Vec::new()));
    let registry = registry_of(vec![step("a", None, &log), step("b", Some("late"), &log)]);
    let mut progress = ProgressState::new();
    let result = run(&registry, &options(false), &mut progress, |_| (), |_| ());
    assert_eq!(result.completed_steps, strings(&["a"]));
    assert_eq!(result.failures, vec![failure("b", "late")]);
    assert!(result.aborted);
    assert_eq!(result.status(), RunStatus::Aborted);
}

#[test]
fn progress_is_recorded_before_the_operation_runs() {
    let log = Rc::new(RefCell::new(Vec::new()));
    let registry =
        registry_of(vec![step("a", None, &log), step("b", None, &log), step("c", None, &log)]);
    let seen = RefCell::new(Vec::new());
    let mut progress = ProgressState::new();
    let result: RunResult<String> = run(
        &registry,
        &options(false),
        &mut progress,
        |shown: &ProgressState| {
            seen.borrow_mut().push((
                shown.current_index(),
                shown.current_name(),
                log.borrow().len(),
            ));
        },
        |_| (),
    );
    assert_eq!(
        *seen.borrow(),
        vec![
            (1, Some("a".to_string()), 0),
            (2, Some("b".to_string()), 1),
            (3, Some("c".to_string()), 2)
        ]
    );
    assert_eq!(result.completed_steps, strings(&["a", "b", "c"]));
}

#[test]
fn progress_of_a_failing_step_is_shown_as_well() {
    let log = Rc::new(RefCell::new(Vec::new()));
    let registry = registry_of(vec![
        step("a", None, &log),
        step("b", Some("boom"), &log),
        step("c", None, &log),
    ]);
    let seen = RefCell::new(Vec::new());
    let mut progress = ProgressState::new();
    let result: RunResult<String> = run(
        &registry,
        &options(false),
        &mut progress,
        |shown: &ProgressState| seen.borrow_mut().push(shown.history()),
        |_| (),
    );
    assert_eq!(*seen.borrow(), vec![strings(&["a"]), strings(&["a", "b"])]);
    assert!(result.aborted);
}

#[test]
fn run_appends_to_earlier_progress() {
    let log = Rc::new(RefCell::new(Vec::new()));
    let registry = registry_of(vec![step("a", None, &log), step("b", None, &log)]);
    let mut progress = ProgressState::new();
    progress.begin("earlier".to_string());
    let result = run(&registry, &options(false), &mut progress, |_| (), |_| ());
    assert_eq!(progress.history(), strings(&["earlier", "a", "b"]));
    assert_eq!(progress.current_index(), 3);
    assert_eq!(result.completed_steps, strings(&["a", "b"]));
}

#[test]
fn pause_follows_every_step_that_does_not_abort() {
    let log = Rc::new(RefCell::new(Vec::new()));
    let registry =
        registry_of(vec![step("a", None, &log), step("b", None, &log), step("c", None, &log)]);
    let pauses = RefCell::new(Vec::new());
    let mut progress = ProgressState::new();
    let chosen = RunOptions { continue_on_error: false, inter_step_delay_ms: 250 };
    let result: RunResult<String> = run(
        &registry,
        &chosen,
        &mut progress,
        |_| (),
        |millis| pauses.borrow_mut().push((millis, log.borrow().len())),
    );
    assert_eq!(*pauses.borrow(), vec![(250, 1), (250, 2), (250, 3)]);
    assert!(!result.aborted);
}

#[test]
fn no_pause_after_the_failure_that_aborts() {
    let log = Rc::new(RefCell::new(Vec::new()));
    let registry = registry_of(vec![
        step("a", None, &log),
        step("b", Some("boom"), &log),
        step("c", None, &log),
    ]);
    let pauses = Cell::new(0u32);
    let mut progress = ProgressState::new();
    let result: RunResult<String> = run(
        &registry,
        &RunOptions::default(),
        &mut progress,
        |_| (),
        |millis| {
            assert_eq!(millis, 1000);
            pauses.set(pauses.get() + 1);
        },
    );
    assert_eq!(pauses.get(), 1);
    assert!(result.aborted);
}

#[test]
fn pause_follows_a_failure_when_continuing() {
    let log = Rc::new(RefCell::new(Vec::new()));
    let registry = registry_of(vec![
        step("a", None, &log),
        step("b", Some("boom"), &log),
        step("c", None, &log),
    ]);
    let pauses = Cell::new(0u32);
    let mut progress = ProgressState::new();
    let chosen = RunOptions { continue_on_error: true, inter_step_delay_ms: 5 };
    let result: RunResult<String> =
        run(&registry, &chosen, &mut progress, |_| (), |_| pauses.set(pauses.get() + 1));
    assert_eq!(pauses.get(), 3);
    assert!(!result.aborted);
}

#[test]
fn record_lists_a_success() {
    let mut result: RunResult<String> = RunResult::new();
    assert_eq!(result.status(), RunStatus::Completed);
    let next = result.record("a".to_string(), Ok(()), &RunOptions::default());
    assert_eq!(next, Some(1000));
    assert_eq!(result.completed_steps, strings(&["a"]));
    assert_eq!(result.failures, Vec::new());
    assert!(!result.aborted);
}

#[test]
fn record_lists_a_failure_and_aborts() {
    let mut result: RunResult<String> = RunResult::new();
    let next = result.record("b".to_string(), Err(failure("b", "boom")), &RunOptions::default());
    assert_eq!(next, None);
    assert_eq!(result.completed_steps, Vec::<String>::new());
    assert_eq!(result.failures, vec![failure("b", "boom")]);
    assert!(result.aborted);
}

#[test]
fn record_lists_a_failure_and_goes_on() {
    let chosen = RunOptions { continue_on_error: true, inter_step_delay_ms: 30 };
    let mut result: RunResult<String> = RunResult::new();
    let next = result.record("b".to_string(), Err(failure("b", "boom")), &chosen);
    assert_eq!(next, Some(30));
    assert_eq!(result.failures, vec![failure("b", "boom")]);
    assert!(!result.aborted);
    let next = result.record("c".to_string(), Ok(()), &chosen);
    assert_eq!(next, Some(30));
    assert_eq!(result.completed_steps, strings(&["c"]));
    assert_eq!(result.status(), RunStatus::CompletedWithFailures(1));
}

#[test]
fn an_aborted_result_stays_aborted() {
    let mut result: RunResult<String> = RunResult::new();
    result.record("b".to_string(), Err(failure("b", "boom")), &options(false));
    let next = result.record("c".to_string(), Ok(()), &options(true));
    assert_eq!(next, None);
    assert!(result.aborted);
    assert_eq!(result.completed_steps, strings(&["c"]));
}

#[test]
fn the_cause_is_handed_back_as_it_was() {
    let registry = match StepRegistry::new(vec![
        Step { name: "numbered".to_string(), operation: || -> Result<(), (u32, &'static str)> {
            Err((42, "exit status"))
        } },
    ]) {
        Ok(registry) => registry,
        Err(error) => panic!("refused: {:?}", error),
    };
    let mut progress = ProgressState::new();
    let result = run(&registry, &RunOptions::default(), &mut progress, |_| (), |_| ());
    assert_eq!(result.failures.len(), 1);
    assert_eq!(result.failures[0].step_name, "numbered");
    assert_eq!(result.failures[0].cause, (42, "exit status"));
}
