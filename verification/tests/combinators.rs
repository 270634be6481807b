use scene_loading::error::{ErrorKind, LoadError};
use scene_loading::task::{Compose, DrawTask, Step, Task};

/// The shared resource of these tests: a record of who ran, in order.
#[derive(Debug, Clone, PartialEq)]
struct Log {
    calls: Vec<&'static str>,
}

fn log() -> Log {
    Log { calls: Vec::new() }
}

fn note(mut log: Log, what: &'static str) -> Log {
    log.calls.push(what);
    log
}

fn succeed(what: &'static str, value: u32) -> Step<impl FnOnce((), Log) -> (Result<u32, LoadError>, Log)> {
    Step::new(move |_: (), l: Log| (Ok::<u32, LoadError>(value), note(l, what)))
}

fn fail(what: &'static str, cause: &'static str) -> Step<impl FnOnce((), Log) -> (Result<u32, LoadError>, Log)> {
    Step::new(move |_: (), l: Log| (Err::<u32, LoadError>(LoadError::step(cause)), note(l, what)))
}

#[test]
fn step_runs_its_function_once_and_forwards_the_result() {
    let task = Step::new(|x: u32, l: Log| (Ok::<u32, LoadError>(x + 1), note(l, "step")));
    let (result, after) = task.execute(41, log());
    assert_eq!(result.unwrap(), 42);
    assert_eq!(after.calls, vec!["step"]);
}

#[test]
fn step_forwards_its_error_unchanged() {
    let task = Step::new(|_: u32, l: Log| {
        (Err::<u32, LoadError>(LoadError::content("bad descriptor")), note(l, "step"))
    });
    let (result, after) = task.execute(1, log());
    let e = result.unwrap_err();
    assert_eq!(e.kind(), ErrorKind::Content);
    assert_eq!(e.message(), "bad descriptor");
    assert_eq!(after.calls, vec!["step"]);
}

#[test]
fn draw_task_resolves_against_the_shared_resources_alone() {
    let (result, after) = succeed("draw", 9).resolve(log());
    assert_eq!(result.unwrap(), 9);
    assert_eq!(after.calls, vec!["draw"]);
}

#[test]
fn sequence_skips_second_when_first_fails() {
    let (result, after) = fail("first", "first failed").sequence(succeed("second", 2)).resolve(log());
    let e = result.unwrap_err();
    assert_eq!(e.kind(), ErrorKind::Step);
    assert_eq!(e.message(), "first failed");
    assert_eq!(after.calls, vec!["first"]);
}

#[test]
fn sequence_runs_both_in_order_and_returns_the_second_output() {
    let (result, after) = succeed("first", 1).sequence(succeed("second", 2)).resolve(log());
    assert_eq!(result.unwrap(), 2);
    assert_eq!(after.calls, vec!["first", "second"]);
}

#[test]
fn sequence_shows_the_first_tasks_writes_to_the_second() {
    let second = Step::new(|_: (), l: Log| {
        let seen = l.calls.clone();
        (Ok::<Vec<&'static str>, LoadError>(seen), note(l, "second"))
    });
    let (result, after) = succeed("first", 1).sequence(second).resolve(log());
    assert_eq!(result.unwrap(), vec!["first"]);
    assert_eq!(after.calls, vec!["first", "second"]);
}

#[test]
fn sequence_returns_the_second_tasks_failure() {
    let (result, after) = succeed("first", 1).sequence(fail("second", "second failed")).resolve(log());
    assert_eq!(result.unwrap_err().message(), "second failed");
    assert_eq!(after.calls, vec!["first", "second"]);
}

#[test]
fn map_does_not_call_the_function_when_the_task_fails() {
    let mapped = fail("task", "task failed").map(|x: u32, l: Log| {
        (Ok::<u32, LoadError>(x * 2), note(l, "f"))
    });
    let (result, after) = mapped.resolve(log());
    let e = result.unwrap_err();
    assert_eq!(e.kind(), ErrorKind::Step);
    assert_eq!(e.message(), "task failed");
    assert_eq!(after.calls, vec!["task"]);
}

#[test]
fn map_calls_the_function_on_the_output_and_the_shared_resources() {
    let mapped = succeed("task", 21).map(|x: u32, l: Log| {
        let seen = l.calls.len() as u32;
        (Ok::<u32, LoadError>(x * 2 + seen), note(l, "f"))
    });
    let (result, after) = mapped.resolve(log());
    assert_eq!(result.unwrap(), 43);
    assert_eq!(after.calls, vec!["task", "f"]);
}

#[test]
fn map_returns_the_functions_failure() {
    let mapped = succeed("task", 21).map(|_: u32, l: Log| {
        (Err::<u32, LoadError>(LoadError::lock("could not lock")), note(l, "f"))
    });
    let (result, after) = mapped.resolve(log());
    let e = result.unwrap_err();
    assert_eq!(e.kind(), ErrorKind::Lock);
    assert_eq!(e.message(), "could not lock");
    assert_eq!(after.calls, vec!["task", "f"]);
}

#[test]
fn join_hands_the_outputs_to_combine_in_order() {
    let joined = succeed("first", 10).join(succeed("second", 3), |pair: (u32, u32)| pair.0 - pair.1);
    let (result, after) = joined.resolve(log());
    assert_eq!(result.unwrap(), 7);
    assert_eq!(after.calls, vec!["first", "second"]);
}

#[test]
fn join_keeps_the_outputs_apart() {
    let left = Step::new(|_: (), l: Log| (Ok::<&'static str, LoadError>("renderer"), note(l, "left")));
    let right = Step::new(|_: (), l: Log| (Ok::<u32, LoadError>(5), note(l, "right")));
    let (result, _) = left.join(right, |pair: (&'static str, u32)| pair).resolve(log());
    assert_eq!(result.unwrap(), ("renderer", 5));
}

#[test]
fn join_stops_at_the_first_failure() {
    let joined = fail("first", "first failed").join(succeed("second", 3), |pair: (u32, u32)| {
        pair.0 + pair.1
    });
    let (result, after) = joined.resolve(log());
    assert_eq!(result.unwrap_err().message(), "first failed");
    assert_eq!(after.calls, vec!["first"]);
}

#[test]
fn join_does_not_combine_when_the_second_fails() {
    let mut combined = false;
    let flag = &mut combined;
    let joined = succeed("first", 1).join(fail("second", "second failed"), move |pair: (u32, u32)| {
        *flag = true;
        pair.0 + pair.1
    });
    let (result, after) = joined.resolve(log());
    assert_eq!(result.unwrap_err().message(), "second failed");
    assert_eq!(after.calls, vec!["first", "second"]);
    assert!(!combined);
}

#[test]
fn serialize_hands_the_step_the_output_and_the_live_resources() {
    let step = Step::new(|x: u32, l: Log| {
        let seen = l.calls.clone();
        (Ok::<(u32, Vec<&'static str>), LoadError>((x, seen)), note(l, "step"))
    });
    let (result, after) = succeed("first", 7).serialize(step).resolve(log());
    assert_eq!(result.unwrap(), (7, vec!["first"]));
    assert_eq!(after.calls, vec!["first", "step"]);
}

#[test]
fn serialize_skips_the_step_when_the_first_fails() {
    let step = Step::new(|x: u32, l: Log| (Ok::<u32, LoadError>(x), note(l, "step")));
    let (result, after) = fail("first", "first failed").serialize(step).resolve(log());
    assert_eq!(result.unwrap_err().message(), "first failed");
    assert_eq!(after.calls, vec!["first"]);
}

#[test]
fn serialize_returns_the_steps_failure() {
    let step = Step::new(|_: u32, l: Log| {
        (Err::<u32, LoadError>(LoadError::dispatch("no loader")), note(l, "step"))
    });
    let (result, after) = succeed("first", 7).serialize(step).resolve(log());
    let e = result.unwrap_err();
    assert_eq!(e.kind(), ErrorKind::Dispatch);
    assert_eq!(e.message(), "no loader");
    assert_eq!(after.calls, vec!["first", "step"]);
}

#[test]
fn composition_runs_depth_first_left_to_right() {
    let left = succeed("a", 1).sequence(succeed("b", 2));
    let right = succeed("c", 3).map(|x: u32, l: Log| (Ok::<u32, LoadError>(x + 1), note(l, "d")));
    let step = Step::new(|x: u32, l: Log| (Ok::<u32, LoadError>(x * 10), note(l, "e")));
    let plan = left.join(right, |pair: (u32, u32)| pair.0 + pair.1).serialize(step);
    let (result, after) = plan.resolve(log());
    assert_eq!(result.unwrap(), 60);
    assert_eq!(after.calls, vec!["a", "b", "c", "d", "e"]);
}

#[test]
fn a_failure_deep_in_the_tree_ends_everything_after_it() {
    let left = succeed("a", 1).sequence(fail("b", "b failed"));
    let right = succeed("c", 3);
    let step = Step::new(|x: u32, l: Log| (Ok::<u32, LoadError>(x), note(l, "e")));
    let plan = left.join(right, |pair: (u32, u32)| pair.0 + pair.1).serialize(step);
    let (result, after) = plan.resolve(log());
    let e = result.unwrap_err();
    assert_eq!(e.kind(), ErrorKind::Step);
    assert_eq!(e.message(), "b failed");
    assert_eq!(after.calls, vec!["a", "b"]);
}

#[test]
fn building_a_task_runs_nothing() {
    let mut ran = false;
    {
        let flag = &mut ran;
        let _plan = Step::new(move |_: (), l: Log| {
            *flag = true;
            (Ok::<u32, LoadError>(1), l)
        })
        .sequence(succeed("second", 2));
    }
    assert!(!ran);
}

/// A task is consumed by its execution, so the same task cannot be run a
/// second time.  A second task built the same way runs again in full: nothing
/// makes a load idempotent.
#[test]
fn a_second_task_built_the_same_way_writes_a_second_time() {
    let build = || succeed("insert", 1).sequence(succeed("finish", 2));
    let (first, after_first) = build().resolve(log());
    assert_eq!(first.unwrap(), 2);
    assert_eq!(after_first.calls, vec!["insert", "finish"]);
    let (second, after_second) = build().resolve(after_first);
    assert_eq!(second.unwrap(), 2);
    assert_eq!(after_second.calls, vec!["insert", "finish", "insert", "finish"]);
}

#[test]
fn error_constructors_set_kind_and_cause() {
    let cases = vec![
        (LoadError::dispatch("a"), ErrorKind::Dispatch, "a"),
        (LoadError::lock("b"), ErrorKind::Lock, "b"),
        (LoadError::content("c"), ErrorKind::Content, "c"),
        (LoadError::step("d"), ErrorKind::Step, "d"),
        (LoadError::new(ErrorKind::Content, "e"), ErrorKind::Content, "e"),
    ];
    for (error, kind, cause) in cases {
        assert_eq!(error.kind(), kind);
        assert_eq!(error.message(), cause);
        assert_eq!(error.kind, kind);
        assert_eq!(error.cause, cause);
    }
}
