//! A run through a list of test steps, one per tick of the main thread.

use vstd::prelude::*;

verus! {

/// A run through a list of test steps, one step per tick of the main thread.
#[derive(Clone, Copy, Debug, PartialEq, Eq, Structural)]
pub struct TestRun {
    pub step_count: usize,
    /// Steps that have not been started.
    pub remaining: usize,
}

/// What the runner does next.
#[derive(Clone, Copy, Debug, PartialEq, Eq, Structural)]
pub enum NextStep {
    /// Run the step at this position, counted from 0.
    Run { index: usize },
    /// All steps ran and none failed.
    Finished,
}

/// What the runner does after a step.
#[derive(Clone, Debug, PartialEq, Eq)]
pub enum AfterStep {
    /// Put the next step into the main thread's queue, to run as soon as possible.
    EnqueueNext,
    /// Stop and log the failure.
    Stop { message: String },
}

impl TestRun {
    pub open spec fn wf(&self) -> bool {
        self.remaining <= self.step_count
    }

    pub fn new(step_count: usize) -> (run: TestRun)
        ensures
            run.wf(),
            run.step_count == step_count,
            run.remaining == step_count,
    {
        TestRun { step_count, remaining: step_count }
    }

    /// Takes the next step off the list. The steps run in list order.
    pub fn execute_next_step(&mut self) -> (next: NextStep)
        requires
            old(self).wf(),
        ensures
            final(self).wf(),
            final(self).step_count == old(self).step_count,
            old(self).remaining == 0 ==> next == NextStep::Finished && final(self).remaining == 0,
            old(self).remaining > 0 ==> final(self).remaining == old(self).remaining - 1 && next == (
            NextStep::Run { index: (old(self).step_count - old(self).remaining) as usize }),
    {
        if self.remaining == 0 {
            return NextStep::Finished;
        }
        self.remaining = self.remaining - 1;
        NextStep::Run { index: self.step_count - self.remaining - 1 }
    }

    /// What follows a step: the next step after a success, the end after a failure.
    pub fn after_step(result: Result<(), String>) -> (after: AfterStep)
        ensures
            after == match result {
                Ok(_) => AfterStep::EnqueueNext,
                Err(message) => AfterStep::Stop { message },
            },
    {
        match result {
            Ok(_) => AfterStep::EnqueueNext,
            Err(message) => AfterStep::Stop { message },
        }
    }
}

/// The number under which a step is logged: its position counted from 1.
pub fn step_number(step_index: usize) -> (number: usize)
    requires
        step_index < usize::MAX,
    ensures
        number == step_index + 1,
{
    step_index + 1
}

} // verus!
