//! A background job that can be started, asked to stop and awaited, again and
//! again on one instance.
//!
//! The job itself runs elsewhere, and so does every wait. What is decided
//! here is when a start is accepted, when a cancellation is signalled and
//! when a caller has to wait. The task owns the two channels that carry the
//! signals, one for cancellation and one for completion, and empties both
//! before each run, so that a new run never sees a signal of an earlier one.
use vstd::prelude::*;
use workflow_core::channel::Channel;
use workflow_core::channel::Receiver;
use crate::channel::{
    drain_signals,
    send_signal,
    signal_oneshot,
    signal_queue_of,
    signal_receiver,
    waiting_signals,
    Queue,
};
use crate::error::{outcome_view, Error, ErrorView, TrySendFailure};

verus! {

/// What the caller of a task operation has to do next.
#[derive(Clone, Copy, Debug, PartialEq, Eq, Structural)]
pub enum TaskStep {
    /// Nothing: the operation is complete.
    Nothing,
    /// Wait for the completion signal of the running job.
    AwaitCompletion,
}

/// The state of a task as a mathematical value.
#[verifier::ext_equal]
pub struct TaskState {
    /// The job is running.
    pub running: bool,
    /// The cancellation signals that were sent and not taken yet.
    pub cancellation: Queue<()>,
    /// The completion signals that were sent and not taken yet.
    pub completion: Queue<()>,
}

impl TaskState {
    /// A task that never ran.
    pub open spec fn idle() -> TaskState {
        TaskState {
            running: false,
            cancellation: Queue::oneshot(),
            completion: Queue::oneshot(),
        }
    }

    /// Each channel holds one signal at most, and while the job runs no
    /// completion signal waits.
    pub open spec fn wf(self) -> bool {
        &&& self.cancellation.capacity == Some(1nat)
        &&& self.completion.capacity == Some(1nat)
        &&& self.cancellation.items.len() <= 1
        &&& self.completion.items.len() <= 1
        &&& self.running ==> self.completion.items.len() == 0
    }

    /// A start: refused while the job runs; otherwise signals left over from
    /// an earlier run are discarded and the job runs.
    pub open spec fn run(self) -> (TaskState, Result<(), ErrorView>) {
        if self.running {
            (self, Err(ErrorView::AlreadyRunning))
        } else {
            (
                TaskState {
                    running: true,
                    cancellation: self.cancellation.drained(),
                    completion: self.completion.drained(),
                },
                Ok(()),
            )
        }
    }

    /// The job came to its end: it no longer runs, and completion is
    /// signalled.
    pub open spec fn complete(self) -> TaskState {
        if self.running {
            TaskState { running: false, completion: self.completion.send(()).0, ..self }
        } else {
            self
        }
    }

    /// The text of the error for a cancellation that a closed channel
    /// refused.
    pub open spec fn closed_text() -> Seq<char> {
        "sending into a closed channel"@
    }

    /// A request to stop: a cancellation is signalled only while the job
    /// runs. A signal that still waits serves for the new request too; a
    /// closed channel is an error.
    pub open spec fn terminate(self) -> (TaskState, Result<(), ErrorView>) {
        if !self.running {
            (self, Ok(()))
        } else {
            (
                TaskState { cancellation: self.cancellation.send(()).0, ..self },
                if self.cancellation.closed {
                    Err(ErrorView::SendError(TaskState::closed_text()))
                } else {
                    Ok(())
                },
            )
        }
    }

    /// Whether a caller that wants the job's end has to wait for it.
    pub open spec fn wait(self) -> TaskStep {
        if self.running {
            TaskStep::AwaitCompletion
        } else {
            TaskStep::Nothing
        }
    }
}

/// One cancellable background job: its running flag and its two signal
/// channels.
pub struct Task {
    cancellation: Channel<()>,
    completion: Channel<()>,
    running: bool,
}

impl View for Task {
    type V = TaskState;

    closed spec fn view(&self) -> TaskState {
        TaskState {
            running: self.running,
            cancellation: signal_queue_of(self.cancellation),
            completion: signal_queue_of(self.completion),
        }
    }
}

impl Task {
    /// A task that never ran.
    pub fn new() -> (task: Task)
        ensures
            task@ == TaskState::idle(),
            task@.wf(),
    {
        Task { cancellation: signal_oneshot(), completion: signal_oneshot(), running: false }
    }

    /// Whether the job runs.
    pub fn is_running(&self) -> (running: bool)
        ensures
            running == self@.running,
    {
        self.running
    }

    /// A receiving end of the cancellation channel, for the job to look for
    /// a request to stop: the cancellation signals that wait in the task
    /// wait for it.
    pub fn cancellation(&self) -> (receiver: Receiver<()>)
        ensures
            waiting_signals(receiver) == self@.cancellation.items,
    {
        signal_receiver(&self.cancellation)
    }

    /// A receiving end of the completion channel, for a caller to wait on:
    /// the completion signals that wait in the task wait for it.
    pub fn completion(&self) -> (receiver: Receiver<()>)
        ensures
            waiting_signals(receiver) == self@.completion.items,
    {
        signal_receiver(&self.completion)
    }

    /// Starts the job. `Ok` tells the caller to schedule it; while the job
    /// runs the start is refused and nothing changes.
    pub fn run(&mut self) -> (started: Result<(), Error>)
        ensures
            final(self)@ == old(self)@.run().0,
            outcome_view(started) == old(self)@.run().1,
            old(self)@.wf() ==> final(self)@.wf(),
    {
        if self.running {
            return Err(Error::AlreadyRunning);
        }
        match drain_signals(&mut self.completion) {
            Ok(()) => {},
            Err(e) => {
                return Err(e);
            },
        }
        match drain_signals(&mut self.cancellation) {
            Ok(()) => {},
            Err(e) => {
                return Err(e);
            },
        }
        self.running = true;
        Ok(())
    }

    /// Records that the job came to its end, and signals completion.
    pub fn complete(&mut self)
        ensures
            final(self)@ == old(self)@.complete(),
            old(self)@.wf() ==> final(self)@.wf(),
    {
        if self.running {
            self.running = false;
            let _ = send_signal(&mut self.completion);
        }
    }

    /// Asks the job to stop: while it runs a cancellation is signalled,
    /// otherwise nothing happens.
    pub fn terminate(&mut self) -> (sent: Result<(), Error>)
        ensures
            final(self)@ == old(self)@.terminate().0,
            outcome_view(sent) == old(self)@.terminate().1,
            old(self)@.wf() ==> final(self)@.wf(),
    {
        if !self.running {
            return Ok(());
        }
        match send_signal(&mut self.cancellation) {
            Err(TrySendFailure::Closed) => Err(
                Error::SendError(String::from_str("sending into a closed channel")),
            ),
            _ => Ok(()),
        }
    }

    /// Whether the caller has to wait for the job's end: `AwaitCompletion`
    /// while it runs, `Nothing` otherwise.
    pub fn wait(&self) -> (step: TaskStep)
        ensures
            step == self@.wait(),
    {
        if self.running {
            TaskStep::AwaitCompletion
        } else {
            TaskStep::Nothing
        }
    }
}

/// No operation leads from a well-formed state to one that is not.
pub proof fn law_task_stays_well_formed(s: TaskState)
    requires
        s.wf(),
    ensures
        TaskState::idle().wf(),
        s.run().0.wf(),
        s.complete().wf(),
        s.terminate().0.wf(),
{
}

/// One instance never runs twice at a time: whatever the state, a start
/// that follows a start is refused and changes nothing.
pub proof fn law_task_single_instance(s: TaskState)
    ensures
        s.run().0.running,
        s.run().0.run().1 == Err::<(), ErrorView>(ErrorView::AlreadyRunning),
        s.run().0.run().0 == s.run().0,
{
}

/// One instance can be used again: once the job has come to its end, a start
/// is accepted, and the new run begins with both signal channels empty,
/// whatever signals the earlier run left behind.
pub proof fn law_task_is_reusable(s: TaskState)
    requires
        s.running,
    ensures
        s.complete().run().1 == Ok::<(), ErrorView>(()),
        s.complete().run().0.running,
        s.complete().run().0.cancellation.items.len() == 0,
        s.complete().run().0.completion.items.len() == 0,
        s.terminate().0.complete().run().0.cancellation.items.len() == 0,
        s.terminate().0.complete().run().0.completion.items.len() == 0,
{
}

/// The end of a running job is signalled: in a well-formed state whose
/// completion channel is open, exactly one completion signal waits once the
/// job has come to its end, and nobody has to wait any more.
pub proof fn law_task_completion_is_signalled(s: TaskState)
    requires
        s.wf(),
        s.running,
        !s.completion.closed,
    ensures
        s.complete().completion.items == seq![()],
        !s.complete().running,
        s.complete().wait() == TaskStep::Nothing,
{
}

/// A request to stop reaches a running job: in a well-formed state whose
/// cancellation channel is open, a signal waits after the request, and at
/// most one however often it is repeated.
pub proof fn law_task_cancellation_is_signalled(s: TaskState)
    requires
        s.wf(),
        s.running,
        !s.cancellation.closed,
    ensures
        s.terminate().1 == Ok::<(), ErrorView>(()),
        s.terminate().0.cancellation.items.len() == 1,
        s.terminate().0.terminate().0.cancellation.items.len() == 1,
        s.terminate().0.terminate().1 == Ok::<(), ErrorView>(()),
{
}

/// Stopping and waiting are no-ops on a task that is not running.
pub proof fn law_task_idle_operations(s: TaskState)
    requires
        !s.running,
    ensures
        s.terminate() == (s, Ok::<(), ErrorView>(())),
        s.wait() == TaskStep::Nothing,
        s.complete() == s,
{
}

} // verus!
