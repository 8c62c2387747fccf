use std::cell::Cell;
use std::rc::Rc;

use base::ddd::aggregate::ErrorMessage;
use base::saga::task::{Task, TaskError, TaskState};

#[test]
fn test_simple_task() {}

#[test]
fn successful_task_finishes_without_compensation() {
    let compensated = Rc::new(Cell::new(0u32));
    let seen = compensated.clone();

    let mut task = Task::new(
        || Ok(()),
        move || {
            seen.set(seen.get() + 1);
        },
    );
    assert_eq!(task.state(), TaskState::ScheduledRun);

    let result = task.start();

    assert_eq!(result, Ok(()));
    assert_eq!(task.state(), TaskState::Finished);
    assert_eq!(compensated.get(), 0);
}

#[test]
fn failing_task_compensates_and_aborts() {
    let compensated = Rc::new(Cell::new(0u32));
    let seen = compensated.clone();

    let mut task = Task::new(
        || Err(()),
        move || {
            seen.set(seen.get() + 1);
        },
    );

    let result = task.start();

    // the failure never escalates: the terminal state records it
    assert_eq!(result, Ok(()));
    assert_eq!(task.state(), TaskState::Aborted);
    assert_eq!(compensated.get(), 1);
}

#[test]
fn task_error_describes_itself() {
    assert_eq!(TaskError::Action.message(), "Error executing transaction");
}

#[test]
fn abort_is_unconditional() {
    let mut task = Task::new(|| Ok(()), || ());

    task.abort();

    assert_eq!(task.state(), TaskState::Aborted);
}
