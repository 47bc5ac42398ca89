use process_supervisor::channel::{drain_signals, send_signal};
use process_supervisor::error::{Error, TrySendFailure};
use process_supervisor::task::{Task, TaskStep};
use workflow_core::channel::{Channel, SendError};

#[test]
fn new_task_is_idle() {
    let mut task = Task::new();
    assert!(!task.is_running());
    assert_eq!(task.wait(), TaskStep::Nothing);
    assert!(matches!(task.terminate(), Ok(())));
    assert!(task.cancellation().try_recv().is_err());
    assert!(task.completion().try_recv().is_err());
    assert_eq!(task.cancellation().capacity(), Some(1));
    assert_eq!(task.completion().capacity(), Some(1));
    assert!(!task.cancellation().is_closed());
}

#[test]
fn task_runs_once_at_a_time() {
    let mut task = Task::new();
    assert!(matches!(task.run(), Ok(())));
    assert!(task.is_running());
    assert!(matches!(task.run(), Err(Error::AlreadyRunning)));
    assert!(task.is_running());
}

#[test]
fn terminate_signals_a_running_task_only() {
    let mut task = Task::new();
    assert!(matches!(task.terminate(), Ok(())));
    assert_eq!(task.cancellation().len(), 0);
    task.run().unwrap();
    assert!(matches!(task.terminate(), Ok(())));
    assert_eq!(task.cancellation().len(), 1);
    assert!(task.cancellation().try_recv().is_ok());
    assert!(task.cancellation().try_recv().is_err());
    task.complete();
    assert!(matches!(task.terminate(), Ok(())));
    assert_eq!(task.cancellation().len(), 0);
}

#[test]
fn repeated_terminate_leaves_one_signal() {
    let mut task = Task::new();
    task.run().unwrap();
    assert!(matches!(task.terminate(), Ok(())));
    assert!(matches!(task.terminate(), Ok(())));
    assert!(matches!(task.terminate(), Ok(())));
    assert_eq!(task.cancellation().len(), 1);
}

#[test]
fn terminate_on_a_closed_channel_is_an_error() {
    let mut task = Task::new();
    task.run().unwrap();
    assert!(task.cancellation().close());
    match task.terminate() {
        Err(Error::SendError(text)) => {
            assert_eq!(text, "sending into a closed channel");
            assert_eq!(text, SendError(()).to_string());
        }
        other => panic!("unexpected result {:?}", other),
    }
    assert!(task.is_running());
    task.complete();
    assert!(matches!(task.terminate(), Ok(())));
}

#[test]
fn wait_is_needed_while_the_task_runs() {
    let mut task = Task::new();
    task.run().unwrap();
    assert_eq!(task.wait(), TaskStep::AwaitCompletion);
    assert_eq!(task.completion().len(), 0);
    task.complete();
    assert!(!task.is_running());
    assert_eq!(task.wait(), TaskStep::Nothing);
    assert_eq!(task.completion().len(), 1);
    assert!(task.completion().try_recv().is_ok());
    assert!(task.completion().try_recv().is_err());
}

#[test]
fn complete_on_an_idle_task_changes_nothing() {
    let mut task = Task::new();
    task.complete();
    assert!(!task.is_running());
    assert_eq!(task.completion().len(), 0);
    task.run().unwrap();
    task.complete();
    task.complete();
    assert_eq!(task.completion().len(), 1);
}

#[test]
fn task_starts_again_without_old_signals() {
    let mut task = Task::new();
    task.run().unwrap();
    assert!(matches!(task.terminate(), Ok(())));
    task.complete();
    assert_eq!(task.cancellation().len(), 1);
    assert_eq!(task.completion().len(), 1);
    assert!(matches!(task.run(), Ok(())));
    assert!(task.is_running());
    assert_eq!(task.cancellation().len(), 0);
    assert_eq!(task.completion().len(), 0);
    task.complete();
    assert!(task.completion().try_recv().is_ok());
    assert!(matches!(task.run(), Ok(())));
    assert!(matches!(task.terminate(), Ok(())));
    assert_eq!(task.wait(), TaskStep::AwaitCompletion);
}

#[test]
fn a_task_through_two_cycles() {
    let mut task = Task::new();
    task.run().unwrap();
    assert_eq!(task.wait(), TaskStep::AwaitCompletion);
    task.complete();
    assert!(task.completion().try_recv().is_ok());
    assert!(matches!(task.terminate(), Ok(())));
    assert_eq!(task.cancellation().len(), 0);

    task.run().unwrap();
    assert!(matches!(task.terminate(), Ok(())));
    assert!(task.cancellation().try_recv().is_ok());
    task.complete();
    assert_eq!(task.wait(), TaskStep::Nothing);
    assert!(task.completion().try_recv().is_ok());
}

#[test]
fn signals_are_sent_and_drained() {
    let mut slot: Channel<()> = Channel::oneshot();
    assert!(matches!(drain_signals(&mut slot), Ok(())));
    assert_eq!(send_signal(&mut slot), Ok(()));
    assert_eq!(send_signal(&mut slot), Err(TrySendFailure::Full));
    assert_eq!(slot.len(), 1);
    assert!(matches!(drain_signals(&mut slot), Ok(())));
    assert_eq!(slot.len(), 0);
    assert_eq!(send_signal(&mut slot), Ok(()));

    let mut many: Channel<()> = Channel::unbounded();
    for _ in 0..5 {
        assert_eq!(send_signal(&mut many), Ok(()));
    }
    assert_eq!(many.len(), 5);
    assert!(many.sender.close());
    assert_eq!(send_signal(&mut many), Err(TrySendFailure::Closed));
    assert!(matches!(drain_signals(&mut many), Ok(())));
    assert_eq!(many.len(), 0);

    let mut full_and_closed: Channel<()> = Channel::oneshot();
    assert_eq!(send_signal(&mut full_and_closed), Ok(()));
    assert!(full_and_closed.receiver.close());
    assert_eq!(send_signal(&mut full_and_closed), Err(TrySendFailure::Closed));
}
