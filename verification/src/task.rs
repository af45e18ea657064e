use vstd::prelude::*;

verus! {

/// Why an evaluation was not started.
#[derive(Debug, PartialEq, Eq, Structural)]
pub enum TaskError {
    /// An earlier evaluation has not been collected yet ("task in progress").
    InProgress,
}

/// The bookkeeping of an evaluator that runs one evaluation at a time on a
/// thread of its own: whether an evaluation has been handed to a thread and
/// not yet collected. The thread itself is held by the caller, which reports
/// whether it has finished.
pub struct EvaluatorTask {
    running: bool,
}

impl EvaluatorTask {
    /// An evaluation has been handed to a thread and not yet collected.
    pub closed spec fn is_running(&self) -> bool {
        self.running
    }

    /// The state after a start, accepted or not.
    pub closed spec fn started(self) -> Self {
        EvaluatorTask { running: true }
    }

    /// The state after a collection, given whether the thread had finished.
    pub closed spec fn collected(self, finished: bool) -> Self {
        EvaluatorTask { running: self.running && !finished }
    }

    /// Whether a start is accepted in this state.
    pub open spec fn start_accepted(&self) -> bool {
        !self.is_running()
    }

    /// Whether the evaluation is over and can be collected, given whether its
    /// thread has finished.
    pub open spec fn ready(&self, finished: bool) -> bool {
        self.is_running() && finished
    }

    /// The state with no evaluation under way.
    pub closed spec fn new_state() -> Self {
        EvaluatorTask { running: false }
    }

    /// No evaluation under way.
    pub fn new() -> (r: Self)
        ensures
            r == EvaluatorTask::new_state(),
    {
        EvaluatorTask { running: false }
    }

    /// Starts an evaluation unless one is under way, which is then reported
    /// as an error. The caller spawns the thread exactly when this returns
    /// `Ok`. Either way an evaluation is under way afterwards.
    pub fn try_start(&mut self) -> (r: Result<(), TaskError>)
        ensures
            r is Ok <==> old(self).start_accepted(),
            r is Err ==> r == Err::<(), TaskError>(TaskError::InProgress),
            *final(self) == old(self).started(),
            r is Err ==> *final(self) == *old(self),
    {
        if self.running {
            Err(TaskError::InProgress)
        } else {
            self.running = true;
            Ok(())
        }
    }

    /// Whether the evaluation can be collected: one is under way and its
    /// thread has finished. With nothing under way the answer is `false`.
    pub fn check_eval(&self, finished: bool) -> (r: bool)
        ensures
            r == self.ready(finished),
    {
        self.running && finished
    }

    /// Collects the evaluation when its thread has finished; the returned
    /// flag says whether the caller joins that thread now. The evaluator is
    /// handed to the caller in every case, running or not.
    pub fn collect(&mut self, finished: bool) -> (join: bool)
        ensures
            join == old(self).ready(finished),
            *final(self) == old(self).collected(finished),
            !join ==> *final(self) == *old(self),
    {
        if self.running && finished {
            self.running = false;
            true
        } else {
            false
        }
    }
}

/// A second start before the first evaluation is collected is refused; the
/// evaluation becomes collectable once its thread has finished, and after it
/// is collected the next start is accepted. Collecting before the thread has
/// finished changes nothing.
pub proof fn lemma_one_evaluation_at_a_time(t: EvaluatorTask)
    ensures
        t.started().is_running(),
        !t.started().start_accepted(),
        t.started().ready(true),
        !t.started().ready(false),
        t.started().collected(true).start_accepted(),
        t.collected(true).start_accepted(),
        t.collected(false) == t,
        t.is_running() ==> t.started() == t,
        !t.ready(true) ==> t.collected(true) == t,
        !EvaluatorTask::new_state().ready(true),
{
}

} // verus!
