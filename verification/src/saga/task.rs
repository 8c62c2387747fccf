//! A compensating task: one fallible action paired with one infallible
//! compensation that semantically undoes it.

use crate::ddd::aggregate::ErrorMessage;
use vstd::prelude::*;

verus! {

/// Why a task failed.
#[derive(Debug, Clone, PartialEq, Eq, Structural)]
pub enum TaskError {
    Action,
}

impl ErrorMessage for TaskError {
    open spec fn spec_message(&self) -> Seq<char> {
        "Error executing transaction"@
    }

    fn message(&self) -> (r: String) {
        "Error executing transaction".to_owned()
    }
}

/// State of a task's action.
#[derive(Debug, Clone, Copy, PartialEq, Eq, Structural)]
pub enum TaskState {
    ScheduledRun,
    ScheduledAbort,
    Running,
    Aborting,
    Finished,
    Aborted,
}

/// Runs the action once, mapping its failure to a task error.
fn run_function<F: Fn() -> Result<(), ()>>(func: &F) -> (r: Result<(), TaskError>)
    requires
        call_requires(*func, ()),
    ensures
        exists|outcome: Result<(), ()>|
            #[trigger] call_ensures(*func, (), outcome) && ((outcome is Ok) == (r is Ok)),
        r is Ok || r == Err::<(), TaskError>(TaskError::Action),
{
    let result = (*func)();
    match result {
        Ok(_) => Ok(()),
        Err(_) => Err(TaskError::Action),
    }
}

/// Pairs a fallible action with an infallible compensation. If the action
/// runs successfully, the compensation is never run.
pub struct Task<T, C> where T: Fn() -> Result<(), ()>, C: Fn() {
    state: TaskState,
    action: T,
    compensation: C,
}

impl<T, C> Task<T, C> where T: Fn() -> Result<(), ()>, C: Fn() {
    /// The task's current state.
    pub closed spec fn spec_state(&self) -> TaskState {
        self.state
    }

    /// The task's action.
    pub closed spec fn spec_action(&self) -> T {
        self.action
    }

    /// The task's compensation.
    pub closed spec fn spec_compensation(&self) -> C {
        self.compensation
    }

    /// The task's current state.
    pub fn state(&self) -> (r: TaskState)
        ensures
            r == self.spec_state(),
    {
        self.state
    }

    /// Creates a task scheduled to run.
    pub fn new(tx: T, cx: C) -> (r: Self)
        ensures
            r.spec_state() == TaskState::ScheduledRun,
            r.spec_action() == tx,
            r.spec_compensation() == cx,
    {
        Task { state: TaskState::ScheduledRun, action: tx, compensation: cx }
    }

    /// Law: `start` runs the action once and always returns success — an
    /// action failure never escalates. On action success the task ends in
    /// `Finished` without running the compensation; on action failure it
    /// runs the compensation (passing through `Aborting`) and ends in
    /// `Aborted`, so the terminal state records whether compensation ran.
    pub fn start(&mut self) -> (r: Result<(), TaskError>)
        requires
            call_requires(old(self).spec_action(), ()),
            call_requires(old(self).spec_compensation(), ()),
        ensures
            final(self).spec_action() == old(self).spec_action(),
            final(self).spec_compensation() == old(self).spec_compensation(),
            r is Ok,
            final(self).spec_state() == TaskState::Finished || final(self).spec_state()
                == TaskState::Aborted,
            exists|outcome: Result<(), ()>|
                #[trigger] call_ensures(old(self).spec_action(), (), outcome) && ((outcome is Ok)
                    == (final(self).spec_state() == TaskState::Finished)),
            final(self).spec_state() == TaskState::Aborted ==> call_ensures(
                old(self).spec_compensation(),
                (),
                (),
            ),
    {
        self.state = TaskState::Running;
        let result = run_function(&self.action);
        match result {
            Ok(_) => {
                self.state = TaskState::Finished;
            },
            Err(_) => {
                self.state = TaskState::Aborting;
                (self.compensation)();
                self.state = TaskState::Aborted;
            },
        }
        Ok(())
    }

    /// Cooperatively marks the task aborted; it does not interrupt an
    /// action already running.
    pub fn abort(&mut self)
        ensures
            final(self).spec_state() == TaskState::Aborted,
            final(self).spec_action() == old(self).spec_action(),
            final(self).spec_compensation() == old(self).spec_compensation(),
    {
        self.state = TaskState::Aborted;
    }
}

} // verus!
