use process_supervisor::child_process::{ChildProcess, KillArgument, KillSignal, OptionValue};
use process_supervisor::error::Error;
use process_supervisor::process::{
    Inner, LoopAction, LoopEvent, Options, Process, RunState, Source, Subscription, DEFAULT_DELAY,
};
use process_supervisor::task::TaskStep;
use process_supervisor::version::Version;

fn options(restart: bool, delay: Option<u64>) -> Options {
    Options::new(&["/bin/prog", "-a", "--b"], Some("/tmp".to_string()), None, restart, delay)
}

fn running(restart: bool, delay: Option<u64>, pid: u64) -> Process {
    let mut process = Process::new(&options(restart, delay));
    process.run().unwrap();
    assert!(matches!(process.drive(LoopEvent::Start), LoopAction::Spawn(_)));
    assert!(matches!(process.drive(LoopEvent::Spawned(ChildProcess::new(pid))), LoopAction::Wait));
    process
}

fn stdout_of(pid: u64) -> Subscription {
    Subscription { child: ChildProcess::new(pid), source: Source::Stdout }
}

fn stderr_of(pid: u64) -> Subscription {
    Subscription { child: ChildProcess::new(pid), source: Source::Stderr }
}

fn close_of(pid: u64) -> Subscription {
    Subscription { child: ChildProcess::new(pid), source: Source::Close }
}

#[test]
fn new_supervisor_is_stopped() {
    let inner = Inner::new(&options(true, None));
    assert!(!inner.is_running());
    assert!(inner.restart());
    assert_eq!(inner.delay(), 3000);
    assert_eq!(DEFAULT_DELAY, 3000);
    assert_eq!(inner.child(), None);
    assert_eq!(inner.subscription_count(), 0);
    assert_eq!(inner.run_state(), RunState::Stopped);
    assert!(inner.has_program());
    assert_eq!(inner.proc(), "/bin/prog");
    assert_eq!(inner.args(), vec!["-a".to_string(), "--b".to_string()]);
    assert_eq!(inner.cwd(), Some("/tmp".to_string()));
}

#[test]
fn options_keep_a_given_delay() {
    let inner = Inner::new(&options(false, Some(250)));
    assert_eq!(inner.delay(), 250);
    assert!(!inner.restart());
    let zero = Inner::new(&options(false, Some(0)));
    assert_eq!(zero.delay(), 0);
}

#[test]
fn options_without_a_program() {
    let inner = Inner::new(&Options::new(&[], None, None, false, None));
    assert!(!inner.has_program());
    assert_eq!(inner.cwd(), None);
    let only = Inner::new(&Options::new(&["prog"], None, None, false, None));
    assert!(only.has_program());
    assert_eq!(only.args(), Vec::<String>::new());
}

#[test]
fn entering_the_loop_asks_for_the_launch() {
    let mut inner = Inner::new(&options(false, None));
    match inner.run(LoopEvent::Start) {
        LoopAction::Spawn(request) => {
            assert_eq!(request.cmd, "/bin/prog");
            assert_eq!(request.args.list, vec!["-a".to_string(), "--b".to_string()]);
            assert_eq!(request.options.entries.len(), 1);
            assert_eq!(request.options.entries[0].0, "cwd");
            assert!(matches!(&request.options.entries[0].1, OptionValue::Text(dir) if dir == "/tmp"));
        }
        other => panic!("unexpected action {:?}", other),
    }
    assert!(!inner.is_running());
    assert_eq!(inner.run_state(), RunState::Stopped);
}

#[test]
fn launch_without_a_directory_sets_no_option() {
    let mut inner = Inner::new(&Options::new(&["prog"], None, None, false, None));
    match inner.run(LoopEvent::Start) {
        LoopAction::Spawn(request) => {
            assert_eq!(request.cmd, "prog");
            assert!(request.args.list.is_empty());
            assert!(request.options.entries.is_empty());
        }
        other => panic!("unexpected action {:?}", other),
    }
}

#[test]
fn launched_child_is_recorded_with_its_subscriptions() {
    let process = running(false, None, 41);
    let inner = process.inner();
    assert!(inner.is_running());
    assert_eq!(inner.child(), Some(ChildProcess::new(41)));
    assert_eq!(inner.run_state(), RunState::Running);
    assert_eq!(inner.subscription_count(), 3);
    assert!(inner.tracks(close_of(41)));
    assert!(inner.tracks(stdout_of(41)));
    assert!(inner.tracks(stderr_of(41)));
    assert!(!inner.tracks(stdout_of(42)));
}

#[test]
fn entering_the_loop_twice_is_refused() {
    let mut process = running(false, None, 1);
    assert!(matches!(
        process.inner_mut().run(LoopEvent::Start),
        LoopAction::Done(Err(Error::AlreadyRunning))
    ));
    assert!(process.inner().is_running());
    assert_eq!(process.inner().child(), Some(ChildProcess::new(1)));
    assert_eq!(process.inner().subscription_count(), 3);
}

#[test]
fn run_twice_is_already_running() {
    let mut process = Process::new(&options(false, None));
    assert!(matches!(process.run(), Ok(())));
    assert!(matches!(process.run(), Err(Error::AlreadyRunning)));
    process.drive(LoopEvent::Start);
    assert!(matches!(process.run(), Err(Error::AlreadyRunning)));
    process.drive(LoopEvent::Spawned(ChildProcess::new(5)));
    assert!(matches!(process.run(), Err(Error::AlreadyRunning)));
    process.drive(LoopEvent::StopSignal);
    assert!(matches!(process.run(), Err(Error::AlreadyRunning)));
    assert!(process.task().is_running());
}

#[test]
fn run_is_accepted_again_after_the_loop_ended() {
    let mut process = running(false, None, 5);
    assert!(matches!(process.drive(LoopEvent::Exited(0)), LoopAction::Done(Ok(()))));
    assert!(!process.task().is_running());
    assert!(matches!(process.run(), Ok(())));
    assert!(matches!(process.drive(LoopEvent::Start), LoopAction::Spawn(_)));
}

#[test]
fn stop_before_run_is_not_running() {
    let mut process = Process::new(&options(true, None));
    assert!(matches!(process.stop(), Err(Error::NotRunning)));
    assert!(process.inner().restart());
    assert!(matches!(process.stop_and_join(), Err(Error::NotRunning)));
    process.run().unwrap();
    process.drive(LoopEvent::Start);
    assert!(matches!(process.stop(), Err(Error::NotRunning)));
    assert!(process.inner().restart());
}

#[test]
fn stop_kills_the_live_child_and_ends_restarts() {
    let mut process = running(true, None, 77);
    let kill = process.stop().unwrap();
    assert_eq!(kill.child, ChildProcess::new(77));
    assert!(matches!(&kill.argument, KillArgument::Name(name) if name == "SIGKILL"));
    assert!(!process.inner().restart());
    assert!(process.inner().is_running());
    assert_eq!(process.inner().child(), Some(ChildProcess::new(77)));
    assert!(matches!(process.drive(LoopEvent::Exited(137)), LoopAction::Done(Ok(()))));
    assert_eq!(process.inner().run_state(), RunState::Stopped);
}

#[test]
fn stop_during_the_restart_delay_finds_no_child() {
    let mut process = running(true, Some(10), 3);
    assert!(matches!(process.drive(LoopEvent::Exited(1)), LoopAction::Sleep(10)));
    assert_eq!(process.inner().run_state(), RunState::Exited);
    assert!(matches!(process.stop(), Err(Error::ProcIsAbsent)));
    assert!(!process.inner().restart());
    assert!(process.inner().is_running());
}

#[test]
fn exit_without_restart_ends_the_loop() {
    let mut process = running(false, None, 9);
    assert!(process.deliver(stdout_of(9), "early".to_string()));
    assert_eq!(process.join(), TaskStep::AwaitCompletion);
    assert!(matches!(process.drive(LoopEvent::Exited(0)), LoopAction::Done(Ok(()))));
    assert!(!process.inner().is_running());
    assert_eq!(process.inner().child(), None);
    assert_eq!(process.inner().subscription_count(), 0);
    assert_eq!(process.inner().run_state(), RunState::Stopped);
    assert!(!process.deliver(stdout_of(9), "late".to_string()));
    assert!(!process.deliver(stderr_of(9), "late".to_string()));
    let stdout = process.stdout();
    assert_eq!(stdout.try_recv().ok(), Some("early".to_string()));
    assert!(stdout.try_recv().is_err());
    assert!(process.stderr().try_recv().is_err());
    assert_eq!(process.join(), TaskStep::Nothing);
    assert!(process.completion().try_recv().is_ok());
    assert!(process.completion().try_recv().is_err());
    assert!(process.stop_signal().try_recv().is_err());
}

#[test]
fn exit_with_restart_sleeps_then_launches_again() {
    let mut process = running(true, Some(1500), 10);
    assert!(matches!(process.drive(LoopEvent::Exited(2)), LoopAction::Sleep(1500)));
    assert!(process.inner().is_running());
    assert_eq!(process.inner().child(), None);
    assert_eq!(process.inner().run_state(), RunState::Exited);
    assert_eq!(process.inner().subscription_count(), 3);
    assert!(process.task().is_running());
    assert!(matches!(
        process.drive(LoopEvent::Start),
        LoopAction::Done(Err(Error::AlreadyRunning))
    ));
    let mut process = running(true, Some(1500), 10);
    process.drive(LoopEvent::Exited(2));
    match process.drive(LoopEvent::DelayElapsed) {
        LoopAction::Spawn(request) => {
            assert_eq!(request.cmd, "/bin/prog");
            assert_eq!(request.args.list, vec!["-a".to_string(), "--b".to_string()]);
        }
        other => panic!("unexpected action {:?}", other),
    }
    assert!(matches!(process.drive(LoopEvent::Spawned(ChildProcess::new(11))), LoopAction::Wait));
    assert_eq!(process.inner().child(), Some(ChildProcess::new(11)));
    assert_eq!(process.inner().run_state(), RunState::Running);
    assert_eq!(process.inner().subscription_count(), 6);
    assert!(process.inner().tracks(stdout_of(10)));
    assert!(process.inner().tracks(stdout_of(11)));
}

#[test]
fn restart_policy_is_read_when_the_child_ends() {
    let mut process = running(false, Some(5), 1);
    process.inner_mut().set_restart(true);
    process.inner_mut().set_delay(42);
    assert!(matches!(process.drive(LoopEvent::Exited(0)), LoopAction::Sleep(42)));
    process.drive(LoopEvent::DelayElapsed);
    process.drive(LoopEvent::Spawned(ChildProcess::new(2)));
    process.inner_mut().set_restart(false);
    assert!(matches!(process.drive(LoopEvent::Exited(0)), LoopAction::Done(Ok(()))));
    assert_eq!(process.inner().subscription_count(), 0);
}

#[test]
fn stop_signal_changes_nothing() {
    let mut process = running(true, None, 4);
    assert!(matches!(process.drive(LoopEvent::StopSignal), LoopAction::Wait));
    assert!(process.inner().is_running());
    assert!(process.inner().restart());
    assert_eq!(process.inner().child(), Some(ChildProcess::new(4)));
    assert_eq!(process.inner().subscription_count(), 3);
    assert!(process.task().is_running());
}

#[test]
fn failed_subscription_ends_the_loop_with_its_error() {
    let mut process = Process::new(&options(true, None));
    process.run().unwrap();
    process.drive(LoopEvent::Start);
    match process.drive(LoopEvent::SubscribeFailed("lock".to_string())) {
        LoopAction::Done(Err(Error::CallbackError(why))) => assert_eq!(why, "lock"),
        other => panic!("unexpected action {:?}", other),
    }
    assert!(!process.inner().is_running());
    assert_eq!(process.inner().child(), None);
    assert!(!process.task().is_running());

    let mut process = running(true, Some(1), 8);
    process.drive(LoopEvent::Exited(0));
    process.drive(LoopEvent::DelayElapsed);
    assert!(matches!(
        process.drive(LoopEvent::SubscribeFailed("again".to_string())),
        LoopAction::Done(Err(Error::CallbackError(_)))
    ));
    assert_eq!(process.inner().subscription_count(), 0);
    assert_eq!(process.inner().run_state(), RunState::Stopped);
}

#[test]
fn stop_and_join_twice() {
    let mut process = running(true, None, 30);
    let (kill, step) = process.stop_and_join().unwrap();
    assert_eq!(kill.child.pid, 30);
    assert!(matches!(&kill.argument, KillArgument::Name(name) if name == "SIGKILL"));
    assert_eq!(step, TaskStep::AwaitCompletion);
    assert!(matches!(process.drive(LoopEvent::Exited(137)), LoopAction::Done(Ok(()))));
    assert!(process.completion().try_recv().is_ok());
    assert!(matches!(process.stop_and_join(), Err(Error::NotRunning)));
    assert!(!process.inner().is_running());
    assert_eq!(process.inner().child(), None);
    assert_eq!(process.inner().subscription_count(), 0);
    assert!(!process.task().is_running());
    assert!(matches!(process.stop_and_join(), Err(Error::NotRunning)));
}

#[test]
fn output_goes_to_the_queue_of_its_stream() {
    let mut process = running(false, None, 6);
    assert!(process.deliver(stdout_of(6), "out 1".to_string()));
    assert!(process.deliver(stderr_of(6), "err 1".to_string()));
    assert!(process.deliver(stdout_of(6), "out 2".to_string()));
    assert!(!process.deliver(close_of(6), "closing".to_string()));
    assert!(!process.deliver(stdout_of(7), "stranger".to_string()));
    let stdout = process.stdout();
    let stderr = process.stderr();
    assert_eq!(stdout.len(), 2);
    assert_eq!(stdout.try_recv().ok(), Some("out 1".to_string()));
    assert_eq!(stdout.try_recv().ok(), Some("out 2".to_string()));
    assert!(stdout.try_recv().is_err());
    assert_eq!(stderr.try_recv().ok(), Some("err 1".to_string()));
    assert!(stderr.try_recv().is_err());
}

#[test]
fn delivery_to_a_closed_queue_is_dropped() {
    let mut process = running(false, None, 6);
    assert!(process.stdout().close());
    assert!(!process.deliver(stdout_of(6), "lost".to_string()));
    assert!(!process.exec_data("lost".to_string()));
    assert!(process.deliver(stderr_of(6), "kept".to_string()));
    assert_eq!(process.exec_output().unwrap(), "");
}

#[test]
fn exec_request_takes_the_given_arguments() {
    let process = Process::new(&options(true, None));
    let request = process.exec_with_args(&["--help", "-v"], None);
    assert_eq!(request.cmd, "/bin/prog");
    assert_eq!(request.args.list, vec!["--help".to_string(), "-v".to_string()]);
    assert!(request.options.entries.is_empty());
    let request = process.exec_with_args(&[], Some("/work".to_string()));
    assert!(request.args.list.is_empty());
    assert_eq!(request.options.entries.len(), 1);
    assert_eq!(request.options.entries[0].0, "cwd");
    assert!(matches!(&request.options.entries[0].1, OptionValue::Text(dir) if dir == "/work"));
}

#[test]
fn exec_output_is_the_chunks_in_order() {
    let mut process = Process::new(&options(false, None));
    assert!(process.exec_data("foo".to_string()));
    assert!(process.exec_data("bar".to_string()));
    assert_eq!(process.exec_output().unwrap(), "foobar");
    assert_eq!(process.exec_output().unwrap(), "");
    assert!(process.stdout().try_recv().is_err());
}

#[test]
fn exec_output_of_many_chunks() {
    let mut process = Process::new(&options(false, None));
    let mut expected = String::new();
    for i in 0..100 {
        let chunk = format!("<{}>", i);
        expected.push_str(&chunk);
        assert!(process.exec_data(chunk));
    }
    assert!(process.exec_data(String::new()));
    assert_eq!(process.stdout().len(), 101);
    assert_eq!(process.exec_output().unwrap(), expected);
    assert_eq!(process.stdout().len(), 0);
}

#[test]
fn version_request_asks_with_one_argument() {
    let process = Process::new(&options(false, None));
    let request = process.version_request();
    assert_eq!(request.cmd, "/bin/prog");
    assert_eq!(request.args.list, vec!["--version".to_string()]);
    assert!(request.options.entries.is_empty());
}

#[test]
fn get_version_reads_the_queued_output() {
    let mut process = Process::new(&options(false, None));
    process.exec_data("1.2.3".to_string());
    let v = process.get_version().unwrap();
    assert_eq!((v.major, v.minor, v.patch, v.none), (1, 2, 3, false));

    process.exec_data("1.2".to_string());
    assert_eq!(process.get_version().unwrap(), Version::none());

    process.exec_data("1.x.3".to_string());
    assert_eq!(process.get_version().unwrap(), Version::none());

    process.exec_data("10.".to_string());
    process.exec_data("2".to_string());
    process.exec_data("0.3".to_string());
    assert_eq!(process.get_version().unwrap(), Version::new(10, 20, 3));

    assert_eq!(process.get_version().unwrap(), Version::none());
}

#[test]
fn launch_is_asked_for_on_entry_and_after_the_delay_only() {
    let mut inner = Inner::new(&options(true, Some(1)));
    assert!(inner.launches(&LoopEvent::Start));
    assert!(inner.launches(&LoopEvent::DelayElapsed));
    assert!(!inner.launches(&LoopEvent::StopSignal));
    assert!(!inner.launches(&LoopEvent::Exited(0)));
    assert!(!inner.launches(&LoopEvent::Spawned(ChildProcess::new(1))));
    assert!(!inner.launches(&LoopEvent::SubscribeFailed(String::new())));
    inner.run(LoopEvent::Start);
    inner.run(LoopEvent::Spawned(ChildProcess::new(1)));
    assert!(!inner.launches(&LoopEvent::Start));
    assert!(inner.launches(&LoopEvent::DelayElapsed));
    assert!(matches!(inner.run(LoopEvent::StopSignal), LoopAction::Wait));
    assert!(matches!(inner.run(LoopEvent::Exited(0)), LoopAction::Sleep(1)));
    assert!(matches!(inner.run(LoopEvent::StopSignal), LoopAction::Wait));
}

#[test]
fn events_without_a_program_that_ask_for_no_launch() {
    let mut process = Process::new(&Options::new(&[], None, None, false, None));
    assert!(!process.inner().has_program());
    assert!(process.inner().launches(&LoopEvent::Start));
    assert!(matches!(process.drive(LoopEvent::StopSignal), LoopAction::Wait));
    assert!(matches!(process.drive(LoopEvent::Exited(0)), LoopAction::Done(Ok(()))));
    assert!(matches!(process.stop(), Err(Error::NotRunning)));
    assert_eq!(process.join(), TaskStep::Nothing);
}

#[test]
fn stop_with_a_chosen_signal() {
    let mut process = running(true, None, 12);
    let kill = process.stop_with_signal(KillSignal::SIGTERM).unwrap();
    assert_eq!(kill.child.pid, 12);
    assert!(matches!(&kill.argument, KillArgument::Name(name) if name == "SIGTERM"));
    assert!(!process.inner().restart());
    let kill = process.stop_with_signal(KillSignal::Code(2)).unwrap();
    assert!(matches!(kill.argument, KillArgument::Code(2)));
    let kill = process.stop_with_signal(KillSignal::NoSignal).unwrap();
    assert!(matches!(kill.argument, KillArgument::Default));
    process.drive(LoopEvent::Exited(0));
    assert!(matches!(
        process.stop_with_signal(KillSignal::SIGTERM),
        Err(Error::NotRunning)
    ));
}
