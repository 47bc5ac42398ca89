//! The supervisor of one external program.
//!
//! [`Inner`] holds what is known of the supervised program and decides, event
//! by event, what the run loop does next: launch, wait, sleep before a
//! restart, or end. [`Process`] joins it with the [`Task`] that hosts the
//! loop and offers start, stop and join, and the one-shot run that reads the
//! program's version.
//!
//! Nothing here launches a process or waits. The caller carries out each
//! [`LoopAction`] and reports what happened as the next [`LoopEvent`].
use vstd::prelude::*;
use workflow_core::channel::Channel;
use workflow_core::channel::Receiver;
use crate::channel::{
    channel_receiver,
    channel_unbounded,
    drain_text,
    queue_of,
    send_text,
    waiting,
    waiting_signals,
    Queue,
};
use crate::child_process::{
    spawn_with_args_and_options,
    ChildProcess,
    KillArgumentView,
    KillRequest,
    KillRequestView,
    KillSignal,
    OptionValueView,
    SpawnArgs,
    SpawnOptions,
    SpawnRequest,
    SpawnRequestView,
};
use crate::error::{outcome_view, Error, ErrorView};
use crate::task::{Task, TaskState, TaskStep};
use crate::text::{
    concat,
    copy_optional_text,
    lemma_concat_add,
    optional_text,
    slice_texts,
    strings_from,
    strings_from_slices,
    texts,
};
use crate::version::{parse_version, version_of, Version};

verus! {

/// The delay before a restart where none is given, in milliseconds.
pub const DEFAULT_DELAY: u64 = 3000;

/// What to run and how to react when it ends.
#[derive(Debug)]
pub struct Options {
    argv: Vec<String>,
    cwd: Option<String>,
    folder: Option<String>,
    restart: bool,
    delay: u64,
}

/// [`Options`] as a mathematical value.
pub struct OptionsView {
    /// The program, followed by its arguments.
    pub argv: Seq<Seq<char>>,
    /// The directory in which the program runs.
    pub cwd: Option<Seq<char>>,
    pub folder: Option<Seq<char>>,
    /// Whether the program is launched again after it ended.
    pub restart: bool,
    /// The time between the end and the new launch, in milliseconds.
    pub delay: u64,
}

impl View for Options {
    type V = OptionsView;

    closed spec fn view(&self) -> OptionsView {
        OptionsView {
            argv: texts(self.argv@),
            cwd: optional_text(self.cwd),
            folder: optional_text(self.folder),
            restart: self.restart,
            delay: self.delay,
        }
    }
}

impl Options {
    /// Options for the command line `argv`. Without a `delay`, restarts wait
    /// [`DEFAULT_DELAY`] milliseconds.
    pub fn new(
        argv: &[&str],
        cwd: Option<String>,
        folder: Option<String>,
        restart: bool,
        delay: Option<u64>,
    ) -> (options: Options)
        ensures
            options@ == (OptionsView {
                argv: slice_texts(argv@),
                cwd: optional_text(cwd),
                folder: optional_text(folder),
                restart,
                delay: match delay {
                    Some(d) => d,
                    None => DEFAULT_DELAY,
                },
            }),
    {
        let delay = match delay {
            Some(d) => d,
            None => DEFAULT_DELAY,
        };
        Options { argv: strings_from_slices(argv), cwd, folder, restart, delay }
    }
}

/// Where an event of a child comes from.
#[derive(Clone, Copy, Debug, PartialEq, Eq, Structural)]
pub enum Source {
    /// The child's end.
    Close,
    /// Data on the child's standard output.
    Stdout,
    /// Data on the child's standard error.
    Stderr,
}

/// A subscription to one source of events of one child.
#[derive(Clone, Copy, Debug, PartialEq, Eq, Structural)]
pub struct Subscription {
    pub child: ChildProcess,
    pub source: Source,
}

/// The subscriptions that are made on a child once it is launched: to its
/// end, its standard output and its standard error.
pub open spec fn subscriptions_of(child: ChildProcess) -> Seq<Subscription> {
    seq![
        Subscription { child, source: Source::Close },
        Subscription { child, source: Source::Stdout },
        Subscription { child, source: Source::Stderr },
    ]
}

/// The condition of the supervised program.
#[derive(Clone, Copy, Debug, PartialEq, Eq, Structural)]
pub enum RunState {
    /// No child, and none is due.
    Stopped,
    /// A child is alive.
    Running,
    /// The child has ended and the next one is not launched yet.
    Exited,
}

/// What happened, as reported to the run loop.
#[derive(Debug)]
pub enum LoopEvent {
    /// The loop is entered.
    Start,
    /// The program was launched and the subscriptions on it were made.
    Spawned(ChildProcess),
    /// A subscription on the launched program could not be made.
    SubscribeFailed(String),
    /// The child ended, with this exit code.
    Exited(u32),
    /// The stop signal of the hosting task fired.
    StopSignal,
    /// The time asked for with [`LoopAction::Sleep`] has passed.
    DelayElapsed,
}

/// A [`LoopEvent`] as a mathematical value.
pub enum LoopEventView {
    Start,
    Spawned(ChildProcess),
    SubscribeFailed(Seq<char>),
    Exited(u32),
    StopSignal,
    DelayElapsed,
}

impl View for LoopEvent {
    type V = LoopEventView;

    open spec fn view(&self) -> LoopEventView {
        match *self {
            LoopEvent::Start => LoopEventView::Start,
            LoopEvent::Spawned(child) => LoopEventView::Spawned(child),
            LoopEvent::SubscribeFailed(why) => LoopEventView::SubscribeFailed(why@),
            LoopEvent::Exited(code) => LoopEventView::Exited(code),
            LoopEvent::StopSignal => LoopEventView::StopSignal,
            LoopEvent::DelayElapsed => LoopEventView::DelayElapsed,
        }
    }
}

/// What the run loop is to do next.
#[derive(Debug)]
pub enum LoopAction {
    /// Launch the program, subscribe to its end and its two output streams,
    /// and report [`LoopEvent::Spawned`] or [`LoopEvent::SubscribeFailed`].
    Spawn(SpawnRequest),
    /// Wait until the child ends or the stop signal fires, and report which.
    Wait,
    /// Sleep this many milliseconds, then report [`LoopEvent::DelayElapsed`].
    Sleep(u64),
    /// Leave the loop with this result. Every subscription is to be released.
    Done(Result<(), Error>),
}

/// A [`LoopAction`] as a mathematical value.
pub enum LoopActionView {
    Spawn(SpawnRequestView),
    Wait,
    Sleep(u64),
    Done(Result<(), ErrorView>),
}

impl View for LoopAction {
    type V = LoopActionView;

    open spec fn view(&self) -> LoopActionView {
        match *self {
            LoopAction::Spawn(request) => LoopActionView::Spawn(request@),
            LoopAction::Wait => LoopActionView::Wait,
            LoopAction::Sleep(delay) => LoopActionView::Sleep(delay),
            LoopAction::Done(result) => LoopActionView::Done(outcome_view(result)),
        }
    }
}

/// The state of the supervisor as a mathematical value.
#[verifier::ext_equal]
pub struct InnerState {
    /// The program, followed by its arguments.
    pub argv: Seq<Seq<char>>,
    /// The directory in which the program runs.
    pub cwd: Option<Seq<char>>,
    /// The running flag: set from the first launch to the end of the loop.
    pub running: bool,
    /// Whether the program is launched again after it ended.
    pub restart: bool,
    /// The time between the end and the new launch, in milliseconds.
    pub delay: u64,
    /// The queue of the child's standard output.
    pub stdout: Queue<Seq<char>>,
    /// The queue of the child's standard error.
    pub stderr: Queue<Seq<char>>,
    /// The live child, if there is one.
    pub proc: Option<ChildProcess>,
    /// The subscriptions that are tracked, to be released when the loop ends.
    pub callbacks: Seq<Subscription>,
}

impl InnerState {
    /// The state of a supervisor that was just made from `options`.
    pub open spec fn initial(options: OptionsView) -> InnerState {
        InnerState {
            argv: options.argv,
            cwd: options.cwd,
            running: false,
            restart: options.restart,
            delay: options.delay,
            stdout: Queue::unbounded(),
            stderr: Queue::unbounded(),
            proc: None,
            callbacks: Seq::empty(),
        }
    }

    /// `subscription` is tracked.
    pub open spec fn tracks(self, subscription: Subscription) -> bool {
        self.callbacks.contains(subscription)
    }

    /// A child is alive only while the running flag is set; nothing is
    /// tracked while the flag is clear; every subscription on the live child
    /// is tracked; and the output queues have no limit.
    pub open spec fn wf(self) -> bool {
        &&& self.stdout.capacity is None
        &&& self.stderr.capacity is None
        &&& self.proc is Some ==> self.running
        &&& !self.running ==> self.callbacks.len() == 0
        &&& forall|child: ChildProcess, i: int|
            self.proc == Some(child) && 0 <= i < 3 ==> self.tracks(
                #[trigger] subscriptions_of(child)[i],
            )
    }

    /// The condition of the supervised program: stopped while the running
    /// flag is clear, running while a child is alive, exited in between.
    pub open spec fn run_state(self) -> RunState {
        if !self.running {
            RunState::Stopped
        } else if self.proc is Some {
            RunState::Running
        } else {
            RunState::Exited
        }
    }

    /// There is a program to launch.
    pub open spec fn has_program(self) -> bool {
        self.argv.len() > 0
    }

    /// The launch options that the working directory asks for.
    pub open spec fn launch_options(cwd: Option<Seq<char>>) -> Seq<(Seq<char>, OptionValueView)> {
        match cwd {
            Some(dir) => seq![("cwd"@, OptionValueView::Text(dir))],
            None => Seq::empty(),
        }
    }

    /// The request that launches the program with its own arguments.
    pub open spec fn request(self) -> SpawnRequestView
        recommends
            self.has_program(),
    {
        SpawnRequestView {
            cmd: self.argv[0],
            args: self.argv.subrange(1, self.argv.len() as int),
            options: InnerState::launch_options(self.cwd),
        }
    }

    /// The state once `child` is launched: its subscriptions are tracked, it
    /// is the live child, and the running flag is set.
    pub open spec fn attached(self, child: ChildProcess) -> InnerState {
        InnerState {
            running: true,
            proc: Some(child),
            callbacks: self.callbacks + subscriptions_of(child),
            ..self
        }
    }

    /// The state once the loop has ended: nothing is tracked, no child is
    /// alive, and the running flag is clear.
    pub open spec fn cleared(self) -> InnerState {
        InnerState { running: false, proc: None, callbacks: Seq::empty(), ..self }
    }

    /// The state once the child's end was seen and a restart is due: the
    /// child is gone, everything else stays.
    pub open spec fn child_gone(self) -> InnerState {
        InnerState { proc: None, ..self }
    }

    /// The step for `event` asks for a launch.
    pub open spec fn launches(self, event: LoopEventView) -> bool {
        ||| event is Start && !self.running
        ||| event is DelayElapsed
    }

    /// One step of the run loop: the state after `event`, and what to do
    /// next.
    pub open spec fn step(self, event: LoopEventView) -> (InnerState, LoopActionView) {
        match event {
            LoopEventView::Start => if self.running {
                (self, LoopActionView::Done(Err(ErrorView::AlreadyRunning)))
            } else {
                (self, LoopActionView::Spawn(self.request()))
            },
            LoopEventView::Spawned(child) => (self.attached(child), LoopActionView::Wait),
            LoopEventView::SubscribeFailed(why) => (
                self.cleared(),
                LoopActionView::Done(Err(ErrorView::CallbackError(why))),
            ),
            LoopEventView::Exited(_) => if self.restart {
                (self.child_gone(), LoopActionView::Sleep(self.delay))
            } else {
                (self.cleared(), LoopActionView::Done(Ok(())))
            },
            LoopEventView::StopSignal => (self, LoopActionView::Wait),
            LoopEventView::DelayElapsed => (self, LoopActionView::Spawn(self.request())),
        }
    }

    /// A request to stop: refused while the running flag is clear; otherwise
    /// restarts are switched off, and the live child is to be killed with
    /// `argument`. Where the child is already gone there is nothing to kill.
    pub open spec fn stop_with(self, argument: KillArgumentView) -> (
        InnerState,
        Result<KillRequestView, ErrorView>,
    ) {
        if !self.running {
            (self, Err(ErrorView::NotRunning))
        } else {
            let after = InnerState { restart: false, ..self };
            match self.proc {
                Some(child) => (after, Ok(KillRequestView { child, argument })),
                None => (after, Err(ErrorView::ProcIsAbsent)),
            }
        }
    }

    /// A request to stop with the signal that cannot be ignored.
    pub open spec fn stop(self) -> (InnerState, Result<KillRequestView, ErrorView>) {
        self.stop_with(KillArgumentView::Name("SIGKILL"@))
    }

    /// Data from `from` is let through: it comes from a tracked subscription
    /// to an output stream.
    pub open spec fn accepts(self, from: Subscription) -> bool {
        self.tracks(from) && from.source != Source::Close
    }

    /// A chunk of output arrives through the subscription `from`. Where it
    /// is let through it goes to the queue of its stream, which takes it
    /// unless it is closed; anything else is dropped. The answer says whether
    /// the chunk was queued.
    pub open spec fn deliver(self, from: Subscription, chunk: Seq<char>) -> (InnerState, bool) {
        if !self.accepts(from) {
            (self, false)
        } else if from.source == Source::Stdout {
            (
                InnerState { stdout: self.stdout.send(chunk).0, ..self },
                self.stdout.accepting(),
            )
        } else {
            (
                InnerState { stderr: self.stderr.send(chunk).0, ..self },
                self.stderr.accepting(),
            )
        }
    }
}

/// The supervisor's knowledge of one program: its command line, the restart
/// policy, the live child and the tracked subscriptions, and the two queues
/// of output.
pub struct Inner {
    argv: Vec<String>,
    cwd: Option<String>,
    running: bool,
    restart: bool,
    delay: u64,
    stdout: Channel<String>,
    stderr: Channel<String>,
    proc: Option<ChildProcess>,
    callbacks: Vec<Subscription>,
}

impl View for Inner {
    type V = InnerState;

    closed spec fn view(&self) -> InnerState {
        InnerState {
            argv: texts(self.argv@),
            cwd: optional_text(self.cwd),
            running: self.running,
            restart: self.restart,
            delay: self.delay,
            stdout: queue_of(self.stdout),
            stderr: queue_of(self.stderr),
            proc: self.proc,
            callbacks: self.callbacks@,
        }
    }
}

impl Inner {
    /// A supervisor for the program of `options`: stopped, with empty output
    /// queues.
    pub fn new(options: &Options) -> (inner: Inner)
        ensures
            inner@ == InnerState::initial(options@),
            inner@.wf(),
    {
        let argv = strings_from(options.argv.as_slice(), 0);
        assert(texts(options.argv@).subrange(0, options.argv.len() as int) =~= texts(
            options.argv@,
        ));
        Inner {
            argv,
            cwd: copy_optional_text(&options.cwd),
            running: false,
            restart: options.restart,
            delay: options.delay,
            stdout: channel_unbounded(),
            stderr: channel_unbounded(),
            proc: None,
            callbacks: Vec::new(),
        }
    }

    /// Whether there is a program to launch.
    pub fn has_program(&self) -> (has: bool)
        ensures
            has == self@.has_program(),
    {
        self.argv.len() > 0
    }

    /// Whether the step for `event` asks for a launch, for which there has
    /// to be a program.
    pub fn launches(&self, event: &LoopEvent) -> (launches: bool)
        ensures
            launches == self@.launches(event@),
    {
        match event {
            LoopEvent::Start => !self.running,
            LoopEvent::DelayElapsed => true,
            _ => false,
        }
    }

    /// The program to launch.
    pub fn proc(&self) -> (program: String)
        requires
            self@.has_program(),
        ensures
            program@ == self@.argv[0],
    {
        self.argv[0].clone()
    }

    /// The arguments of the program.
    pub fn args(&self) -> (args: Vec<String>)
        requires
            self@.has_program(),
        ensures
            texts(args@) == self@.argv.subrange(1, self@.argv.len() as int),
    {
        strings_from(self.argv.as_slice(), 1)
    }

    /// The directory in which the program runs.
    pub fn cwd(&self) -> (cwd: Option<String>)
        ensures
            optional_text(cwd) == self@.cwd,
    {
        copy_optional_text(&self.cwd)
    }

    /// The running flag.
    pub fn is_running(&self) -> (running: bool)
        ensures
            running == self@.running,
    {
        self.running
    }

    /// Whether the program is launched again after it ended.
    pub fn restart(&self) -> (restart: bool)
        ensures
            restart == self@.restart,
    {
        self.restart
    }

    /// The time between a child's end and the new launch, in milliseconds.
    pub fn delay(&self) -> (delay: u64)
        ensures
            delay == self@.delay,
    {
        self.delay
    }

    /// Switches restarts on or off. The setting is read when the child's end
    /// is reported.
    pub fn set_restart(&mut self, restart: bool)
        ensures
            final(self)@ == (InnerState { restart, ..old(self)@ }),
            old(self)@.wf() ==> final(self)@.wf(),
    {
        self.restart = restart;
    }

    /// Sets the time between a child's end and the new launch, in
    /// milliseconds. The setting is read when the child's end is reported.
    pub fn set_delay(&mut self, delay: u64)
        ensures
            final(self)@ == (InnerState { delay, ..old(self)@ }),
            old(self)@.wf() ==> final(self)@.wf(),
    {
        self.delay = delay;
    }

    /// The live child, if there is one.
    pub fn child(&self) -> (child: Option<ChildProcess>)
        ensures
            child == self@.proc,
    {
        self.proc
    }

    /// The condition of the supervised program.
    pub fn run_state(&self) -> (state: RunState)
        ensures
            state == self@.run_state(),
    {
        if !self.running {
            RunState::Stopped
        } else if self.proc.is_some() {
            RunState::Running
        } else {
            RunState::Exited
        }
    }

    /// The number of tracked subscriptions.
    pub fn subscription_count(&self) -> (n: usize)
        ensures
            n == self@.callbacks.len(),
    {
        self.callbacks.len()
    }

    /// Whether `subscription` is tracked.
    pub fn tracks(&self, subscription: Subscription) -> (found: bool)
        ensures
            found == self@.tracks(subscription),
    {
        let mut i: usize = 0;
        while i < self.callbacks.len()
            invariant
                i <= self.callbacks.len(),
                forall|k: int| 0 <= k < i ==> self.callbacks@[k] != subscription,
            decreases self.callbacks.len() - i,
        {
            if self.callbacks[i] == subscription {
                return true;
            }
            i = i + 1;
        }
        false
    }

    /// The request that launches the program given by `cmd` and `args`, in
    /// the directory `cwd` if there is one.
    fn launch(cmd: &str, args: SpawnArgs, cwd: &Option<String>) -> (request: SpawnRequest)
        ensures
            request@ == (SpawnRequestView {
                cmd: cmd@,
                args: args@,
                options: InnerState::launch_options(optional_text(*cwd)),
            }),
    {
        let mut options = SpawnOptions::new();
        match cwd {
            Some(dir) => {
                options.cwd(dir.as_str());
                assert(options@ =~= InnerState::launch_options(optional_text(*cwd)));
            },
            None => {},
        }
        spawn_with_args_and_options(cmd, args, options)
    }

    /// The request that launches the program with its own arguments.
    pub fn request(&self) -> (request: SpawnRequest)
        requires
            self@.has_program(),
        ensures
            request@ == self@.request(),
    {
        let args = SpawnArgs { list: self.args() };
        Inner::launch(self.argv[0].as_str(), args, &self.cwd)
    }

    fn attach(&mut self, child: ChildProcess)
        ensures
            final(self)@ == old(self)@.attached(child),
    {
        self.callbacks.push(Subscription { child, source: Source::Close });
        self.callbacks.push(Subscription { child, source: Source::Stdout });
        self.callbacks.push(Subscription { child, source: Source::Stderr });
        self.proc = Some(child);
        self.running = true;
        assert(self.callbacks@ =~= old(self).callbacks@ + subscriptions_of(child));
    }

    fn clear(&mut self)
        ensures
            final(self)@ == old(self)@.cleared(),
    {
        self.callbacks.clear();
        self.proc = None;
        self.running = false;
    }

    /// One step of the run loop: takes what happened, and says what to do
    /// next.
    ///
    /// On entry the loop is refused while the running flag is set. A launch
    /// is asked for on entry and after the restart delay. Once the child is
    /// launched its subscriptions are tracked and the loop waits. When the
    /// child ends, the loop ends too unless restarts are on; then it sleeps
    /// for the delay first. The stop signal changes nothing: the loop goes on
    /// waiting for the child's end. When the loop ends, with or without an
    /// error, nothing stays tracked and no child stays recorded.
    pub fn run(&mut self, event: LoopEvent) -> (action: LoopAction)
        requires
            old(self)@.launches(event@) ==> old(self)@.has_program(),
        ensures
            final(self)@ == old(self)@.step(event@).0,
            action@ == old(self)@.step(event@).1,
            old(self)@.wf() ==> final(self)@.wf(),
    {
        proof {
            if self@.wf() {
                law_step_stays_well_formed(self@, event@);
            }
        }
        match event {
            LoopEvent::Start => {
                if self.running {
                    LoopAction::Done(Err(Error::AlreadyRunning))
                } else {
                    LoopAction::Spawn(self.request())
                }
            },
            LoopEvent::Spawned(child) => {
                self.attach(child);
                LoopAction::Wait
            },
            LoopEvent::SubscribeFailed(why) => {
                self.clear();
                LoopAction::Done(Err(Error::CallbackError(why)))
            },
            LoopEvent::Exited(_) => {
                if self.restart {
                    self.proc = None;
                    LoopAction::Sleep(self.delay)
                } else {
                    self.clear();
                    LoopAction::Done(Ok(()))
                }
            },
            LoopEvent::StopSignal => LoopAction::Wait,
            LoopEvent::DelayElapsed => LoopAction::Spawn(self.request()),
        }
    }

    /// Asks for the end of the supervised program by `signal`. On success
    /// restarts are off and the returned request is to be carried out on the
    /// live child; the loop ends once the child's end is reported.
    pub fn stop_with_signal(&mut self, signal: KillSignal) -> (request: Result<KillRequest, Error>)
        ensures
            final(self)@ == old(self)@.stop_with(signal.argument_spec()).0,
            match request {
                Ok(kill) => old(self)@.stop_with(signal.argument_spec()).1 == Ok::<
                    KillRequestView,
                    ErrorView,
                >(kill@),
                Err(e) => old(self)@.stop_with(signal.argument_spec()).1 == Err::<
                    KillRequestView,
                    ErrorView,
                >(e@),
            },
            old(self)@.wf() ==> final(self)@.wf(),
    {
        if !self.running {
            return Err(Error::NotRunning);
        }
        self.restart = false;
        match self.proc {
            Some(child) => Ok(child.kill_with_signal(signal)),
            None => Err(Error::ProcIsAbsent),
        }
    }

    /// [`Inner::stop_with_signal`] with the signal that cannot be ignored,
    /// `SIGKILL`.
    pub fn stop(&mut self) -> (request: Result<KillRequest, Error>)
        ensures
            final(self)@ == old(self)@.stop().0,
            match request {
                Ok(kill) => old(self)@.stop().1 == Ok::<KillRequestView, ErrorView>(kill@),
                Err(e) => old(self)@.stop().1 == Err::<KillRequestView, ErrorView>(e@),
            },
            old(self)@.wf() ==> final(self)@.wf(),
    {
        self.stop_with_signal(KillSignal::Message("SIGKILL"))
    }

    /// Takes a chunk of output that arrived through the subscription `from`.
    /// Data of a tracked subscription to an output stream goes to the end of
    /// that stream's queue; anything else is dropped. Where the queue is
    /// closed the chunk is dropped as well, and nothing changes.
    pub fn deliver(&mut self, from: Subscription, chunk: String) -> (queued: bool)
        ensures
            final(self)@ == old(self)@.deliver(from, chunk@).0,
            queued == old(self)@.deliver(from, chunk@).1,
            old(self)@.wf() ==> final(self)@.wf(),
    {
        if !self.tracks(from) {
            return false;
        }
        match from.source {
            Source::Close => false,
            Source::Stdout => send_text(&mut self.stdout, chunk),
            Source::Stderr => send_text(&mut self.stderr, chunk),
        }
    }
}

/// The state of a [`Process`] as a mathematical value: the supervisor and the
/// task that hosts its loop.
#[verifier::ext_equal]
pub struct ProcessState {
    pub inner: InnerState,
    pub task: TaskState,
}

impl ProcessState {
    /// The supervisor and the task are well-formed.
    pub open spec fn wf(self) -> bool {
        self.inner.wf() && self.task.wf()
    }

    /// The state of a process that was just made from `options`.
    pub open spec fn initial(options: OptionsView) -> ProcessState {
        ProcessState { inner: InnerState::initial(options), task: TaskState::idle() }
    }

    /// A start: the hosting task is started, or the start is refused because
    /// it is active.
    pub open spec fn run(self) -> (ProcessState, Result<(), ErrorView>) {
        (ProcessState { inner: self.inner, task: self.task.run().0 }, self.task.run().1)
    }

    /// One step of the run loop. When the loop ends, the hosting task comes
    /// to its end with it.
    pub open spec fn drive(self, event: LoopEventView) -> (ProcessState, LoopActionView) {
        let (inner, action) = self.inner.step(event);
        let task = if action is Done {
            self.task.complete()
        } else {
            self.task
        };
        (ProcessState { inner, task }, action)
    }

    /// The state after the steps for `events`, one after the other.
    pub open spec fn drive_all(self, events: Seq<LoopEventView>) -> ProcessState
        decreases events.len(),
    {
        if events.len() == 0 {
            self
        } else {
            self.drive_all(events.drop_last()).drive(events.last()).0
        }
    }

    /// None of the steps for `events` ends the loop.
    pub open spec fn stays_in_loop(self, events: Seq<LoopEventView>) -> bool
        decreases events.len(),
    {
        if events.len() == 0 {
            true
        } else {
            &&& self.stays_in_loop(events.drop_last())
            &&& !(self.drive_all(events.drop_last()).drive(events.last()).1 is Done)
        }
    }

    /// A request to stop with `argument`, see [`InnerState::stop_with`].
    pub open spec fn stop_with(self, argument: KillArgumentView) -> (
        ProcessState,
        Result<KillRequestView, ErrorView>,
    ) {
        (
            ProcessState { inner: self.inner.stop_with(argument).0, task: self.task },
            self.inner.stop_with(argument).1,
        )
    }

    /// A request to stop with the signal that cannot be ignored.
    pub open spec fn stop(self) -> (ProcessState, Result<KillRequestView, ErrorView>) {
        self.stop_with(KillArgumentView::Name("SIGKILL"@))
    }

    /// Whether a caller that wants the loop's end has to wait for it.
    pub open spec fn join(self) -> TaskStep {
        self.task.wait()
    }

    /// A request to stop, and then whether to wait; where the stop is
    /// refused, that is the answer.
    pub open spec fn stop_and_join(self) -> (
        ProcessState,
        Result<(KillRequestView, TaskStep), ErrorView>,
    ) {
        let (after, stopped) = self.stop();
        match stopped {
            Ok(kill) => (after, Ok((kill, after.join()))),
            Err(e) => (after, Err(e)),
        }
    }

    /// The request that launches the program once, with `args` in place of
    /// its own arguments, in the directory `cwd` if there is one.
    pub open spec fn exec_with_args(
        self,
        args: Seq<Seq<char>>,
        cwd: Option<Seq<char>>,
    ) -> SpawnRequestView
        recommends
            self.inner.has_program(),
    {
        SpawnRequestView {
            cmd: self.inner.argv[0],
            args,
            options: InnerState::launch_options(cwd),
        }
    }

    /// A chunk of the one-shot run's output arrives: it goes to the standard
    /// output queue, which takes it unless it is closed. The answer says
    /// whether the chunk was queued.
    pub open spec fn exec_data(self, chunk: Seq<char>) -> (ProcessState, bool) {
        (
            ProcessState {
                inner: InnerState { stdout: self.inner.stdout.send(chunk).0, ..self.inner },
                task: self.task,
            },
            self.inner.stdout.accepting(),
        )
    }

    /// The state once all `chunks` have arrived, in order.
    pub open spec fn exec_data_all(self, chunks: Seq<Seq<char>>) -> ProcessState
        decreases chunks.len(),
    {
        if chunks.len() == 0 {
            self
        } else {
            self.exec_data_all(chunks.drop_last()).exec_data(chunks.last()).0
        }
    }

    /// The output of the one-shot run: everything that waits on the standard
    /// output queue, as one text; the queue is empty afterwards.
    pub open spec fn exec_output(self) -> (ProcessState, Seq<char>) {
        (
            ProcessState {
                inner: InnerState { stdout: self.inner.stdout.drained(), ..self.inner },
                task: self.task,
            },
            concat(self.inner.stdout.items),
        )
    }

    /// The arguments with which a program is asked for its version.
    pub open spec fn version_args() -> Seq<Seq<char>> {
        seq!["--version"@]
    }
}

/// The handle on one supervised program: the supervisor and the task that
/// hosts its run loop.
pub struct Process {
    inner: Inner,
    task: Task,
}

impl View for Process {
    type V = ProcessState;

    closed spec fn view(&self) -> ProcessState {
        ProcessState { inner: self.inner@, task: self.task@ }
    }
}

impl Process {
    /// A process for the program of `options`: nothing runs yet.
    pub fn new(options: &Options) -> (process: Process)
        ensures
            process@ == ProcessState::initial(options@),
            process@.wf(),
    {
        Process { inner: Inner::new(options), task: Task::new() }
    }

    /// The supervisor.
    pub fn inner(&self) -> (inner: &Inner)
        ensures
            inner@ == self@.inner,
    {
        &self.inner
    }

    /// The supervisor, for changes of the restart policy.
    pub fn inner_mut(&mut self) -> (inner: &mut Inner)
        ensures
            inner@ == old(self)@.inner,
            final(self)@.inner == final(inner)@,
            final(self)@.task == old(self)@.task,
    {
        &mut self.inner
    }

    /// The task that hosts the run loop.
    pub fn task(&self) -> (task: &Task)
        ensures
            task@ == self@.task,
    {
        &self.task
    }

    /// A further consumer of the standard output queue: what waits in that
    /// queue waits for it. Consumers of one queue share its messages: each
    /// message goes to one of them.
    pub fn stdout(&self) -> (receiver: Receiver<String>)
        ensures
            waiting(receiver) == self@.inner.stdout.items,
    {
        channel_receiver(&self.inner.stdout)
    }

    /// A further consumer of the standard error queue: what waits in that
    /// queue waits for it.
    pub fn stderr(&self) -> (receiver: Receiver<String>)
        ensures
            waiting(receiver) == self@.inner.stderr.items,
    {
        channel_receiver(&self.inner.stderr)
    }

    /// Starts the supervision. `Ok` tells the caller to schedule the run loop
    /// and to enter it with [`LoopEvent::Start`]; while the hosting task is
    /// active the start is refused with `AlreadyRunning`.
    pub fn run(&mut self) -> (started: Result<(), Error>)
        ensures
            final(self)@ == old(self)@.run().0,
            outcome_view(started) == old(self)@.run().1,
            old(self)@.wf() ==> final(self)@.wf(),
    {
        self.task.run()
    }

    /// One step of the run loop, see [`Inner::run`]. With the action `Done`
    /// the hosting task has come to its end, and its completion is
    /// signalled.
    pub fn drive(&mut self, event: LoopEvent) -> (action: LoopAction)
        requires
            old(self)@.inner.launches(event@) ==> old(self)@.inner.has_program(),
        ensures
            final(self)@ == old(self)@.drive(event@).0,
            action@ == old(self)@.drive(event@).1,
            old(self)@.wf() ==> final(self)@.wf(),
    {
        let action = self.inner.run(event);
        match action {
            LoopAction::Done(_) => {
                self.task.complete();
            },
            _ => {},
        }
        action
    }

    /// Takes a chunk of the supervised child's output, see
    /// [`Inner::deliver`].
    pub fn deliver(&mut self, from: Subscription, chunk: String) -> (queued: bool)
        ensures
            final(self)@.inner == old(self)@.inner.deliver(from, chunk@).0,
            final(self)@.task == old(self)@.task,
            queued == old(self)@.inner.deliver(from, chunk@).1,
            old(self)@.wf() ==> final(self)@.wf(),
    {
        self.inner.deliver(from, chunk)
    }

    /// Asks for the end of the supervised program by `signal`, without
    /// waiting for it.
    ///
    /// Refused with `NotRunning` while the running flag is clear. Otherwise
    /// restarts are switched off; the answer is the request to kill the live
    /// child, or `ProcIsAbsent` where the child has ended and the next one is
    /// not launched yet.
    pub fn stop_with_signal(&mut self, signal: KillSignal) -> (request: Result<KillRequest, Error>)
        ensures
            final(self)@ == old(self)@.stop_with(signal.argument_spec()).0,
            match request {
                Ok(kill) => old(self)@.stop_with(signal.argument_spec()).1 == Ok::<
                    KillRequestView,
                    ErrorView,
                >(kill@),
                Err(e) => old(self)@.stop_with(signal.argument_spec()).1 == Err::<
                    KillRequestView,
                    ErrorView,
                >(e@),
            },
            old(self)@.wf() ==> final(self)@.wf(),
    {
        self.inner.stop_with_signal(signal)
    }

    /// [`Process::stop_with_signal`] with the signal that cannot be ignored,
    /// `SIGKILL`.
    pub fn stop(&mut self) -> (request: Result<KillRequest, Error>)
        ensures
            final(self)@ == old(self)@.stop().0,
            match request {
                Ok(kill) => old(self)@.stop().1 == Ok::<KillRequestView, ErrorView>(kill@),
                Err(e) => old(self)@.stop().1 == Err::<KillRequestView, ErrorView>(e@),
            },
            old(self)@.wf() ==> final(self)@.wf(),
    {
        self.inner.stop()
    }

    /// Whether the caller has to wait for the run loop's end:
    /// `AwaitCompletion` while the hosting task is active, `Nothing`
    /// otherwise.
    pub fn join(&self) -> (step: TaskStep)
        ensures
            step == self@.join(),
    {
        self.task.wait()
    }

    /// A receiving end of the completion channel of the hosting task, for a
    /// caller to wait on: the completion signals that wait in the task wait
    /// for it.
    pub fn completion(&self) -> (receiver: Receiver<()>)
        ensures
            waiting_signals(receiver) == self@.task.completion.items,
    {
        self.task.completion()
    }

    /// A receiving end of the cancellation channel of the hosting task: the
    /// stop signal that the run loop waits for beside the child's end. The
    /// cancellation signals that wait in the task wait for it.
    pub fn stop_signal(&self) -> (receiver: Receiver<()>)
        ensures
            waiting_signals(receiver) == self@.task.cancellation.items,
    {
        self.task.cancellation()
    }

    /// [`Process::stop`], then [`Process::join`]; where the stop is refused,
    /// its error is the answer and no wait is asked for.
    pub fn stop_and_join(&mut self) -> (plan: Result<(KillRequest, TaskStep), Error>)
        ensures
            final(self)@ == old(self)@.stop_and_join().0,
            match plan {
                Ok((kill, step)) => old(self)@.stop_and_join().1 == Ok::<
                    (KillRequestView, TaskStep),
                    ErrorView,
                >((kill@, step)),
                Err(e) => old(self)@.stop_and_join().1 == Err::<
                    (KillRequestView, TaskStep),
                    ErrorView,
                >(e@),
            },
            old(self)@.wf() ==> final(self)@.wf(),
    {
        match self.stop() {
            Ok(kill) => {
                let step = self.join();
                Ok((kill, step))
            },
            Err(e) => Err(e),
        }
    }

    /// The request for a one-shot run of the program with `args`, outside the
    /// run loop. The caller launches it, hands each chunk of its standard
    /// output to [`Process::exec_data`], and once it has ended reads the
    /// whole output with [`Process::exec_output`].
    pub fn exec_with_args(&self, args: &[&str], cwd: Option<String>) -> (request: SpawnRequest)
        requires
            self@.inner.has_program(),
        ensures
            request@ == self@.exec_with_args(slice_texts(args@), optional_text(cwd)),
    {
        Inner::launch(self.inner.argv[0].as_str(), SpawnArgs::from_slices(args), &cwd)
    }

    /// Queues a chunk of the one-shot run's standard output. Where the queue
    /// is closed the chunk is dropped, and nothing changes.
    pub fn exec_data(&mut self, chunk: String) -> (queued: bool)
        ensures
            final(self)@ == old(self)@.exec_data(chunk@).0,
            queued == old(self)@.exec_data(chunk@).1,
            old(self)@.wf() ==> final(self)@.wf(),
    {
        send_text(&mut self.inner.stdout, chunk)
    }

    /// The output of the one-shot run once it has ended: every chunk that
    /// waits on the standard output queue, in the order of arrival, as one
    /// text. The queue is empty afterwards.
    pub fn exec_output(&mut self) -> (output: Result<String, Error>)
        ensures
            output is Ok,
            final(self)@ == old(self)@.exec_output().0,
            output->Ok_0@ == old(self)@.exec_output().1,
            old(self)@.wf() ==> final(self)@.wf(),
    {
        drain_text(&mut self.inner.stdout)
    }

    /// The request for the one-shot run that asks the program for its
    /// version.
    pub fn version_request(&self) -> (request: SpawnRequest)
        requires
            self@.inner.has_program(),
        ensures
            request@ == self@.exec_with_args(ProcessState::version_args(), None),
    {
        let mut list: Vec<String> = Vec::new();
        list.push(String::from_str("--version"));
        let args = SpawnArgs { list };
        assert(args@ =~= ProcessState::version_args());
        Inner::launch(self.inner.argv[0].as_str(), args, &None)
    }

    /// The version that the program reported in the one-shot run asked for
    /// with [`Process::version_request`]: its whole output read as a version.
    /// Output that is no version gives the sentinel, not an error.
    pub fn get_version(&mut self) -> (version: Result<Version, Error>)
        ensures
            final(self)@ == old(self)@.exec_output().0,
            version is Ok,
            version->Ok_0 == version_of(old(self)@.exec_output().1),
            old(self)@.wf() ==> final(self)@.wf(),
    {
        match self.exec_output() {
            Ok(text) => Ok(parse_version(text.as_str())),
            Err(e) => Err(e),
        }
    }
}

/// A child is alive exactly in the state `Running`; in a well-formed state
/// that is all a set running flag leaves open.
pub proof fn law_run_state(s: InnerState)
    ensures
        s.run_state() == RunState::Running <==> s.running && s.proc is Some,
        s.wf() ==> (s.proc is Some <==> s.run_state() == RunState::Running),
        s.wf() && s.run_state() == RunState::Stopped ==> s.proc is None && s.callbacks.len() == 0,
{
}

/// No step of the loop leads from a well-formed state to one that is not.
pub proof fn law_step_stays_well_formed(s: InnerState, event: LoopEventView)
    requires
        s.wf(),
    ensures
        s.step(event).0.wf(),
        forall|argument: KillArgumentView| (#[trigger] s.stop_with(argument)).0.wf(),
{
    match event {
        LoopEventView::Spawned(child) => {
            let after = s.attached(child);
            assert forall|c: ChildProcess, i: int|
                after.proc == Some(c) && 0 <= i < 3 implies after.tracks(
                #[trigger] subscriptions_of(c)[i],
            ) by {
                assert(after.callbacks[s.callbacks.len() + i] == subscriptions_of(c)[i]);
            }
        },
        _ => {},
    }
}

/// Every state that a new process reaches is well-formed: none of its
/// operations leads from a well-formed state to one that is not.
pub proof fn law_stays_well_formed(
    p: ProcessState,
    options: OptionsView,
    event: LoopEventView,
    from: Subscription,
    chunk: Seq<char>,
)
    requires
        p.wf(),
    ensures
        ProcessState::initial(options).wf(),
        p.run().0.wf(),
        p.drive(event).0.wf(),
        p.stop().0.wf(),
        p.stop_and_join().0.wf(),
        p.inner.deliver(from, chunk).0.wf(),
        p.exec_data(chunk).0.wf(),
        p.exec_output().0.wf(),
{
    law_step_stays_well_formed(p.inner, event);
}

/// Every subscription made on a launched child is tracked from the launch
/// on, and none is tracked once the loop has ended.
pub proof fn law_subscriptions_are_released(s: InnerState, child: ChildProcess, event: LoopEventView)
    ensures
        forall|i: int|
            0 <= i < 3 ==> s.attached(child).tracks(#[trigger] subscriptions_of(child)[i]),
        s.step(event).1 is Done && !(event is Start) ==> s.step(event).0.callbacks.len() == 0
            && s.step(event).0.proc is None && !s.step(event).0.running,
{
    let after = s.attached(child);
    assert forall|i: int| 0 <= i < 3 implies after.tracks(
        #[trigger] subscriptions_of(child)[i],
    ) by {
        assert(after.callbacks[s.callbacks.len() + i] == subscriptions_of(child)[i]);
    }
}

/// A start that follows a start is refused with `AlreadyRunning` and changes
/// nothing.
pub proof fn law_second_run_is_refused(p: ProcessState)
    ensures
        p.run().0.run().1 == Err::<(), ErrorView>(ErrorView::AlreadyRunning),
        p.run().0.run().0 == p.run().0,
{
}

/// After a start, every further start is refused with `AlreadyRunning` for
/// as long as no step has ended the loop; the first start after the loop's
/// end is accepted.
pub proof fn law_run_is_refused_until_the_loop_ends(
    p: ProcessState,
    events: Seq<LoopEventView>,
    last: LoopEventView,
)
    requires
        p.run().0.stays_in_loop(events),
    ensures
        p.run().0.drive_all(events).task.running,
        p.run().0.drive_all(events).run().1 == Err::<(), ErrorView>(ErrorView::AlreadyRunning),
        p.run().0.drive_all(events).drive(last).1 is Done ==> p.run().0.drive_all(events).drive(
            last,
        ).0.run().1 == Ok::<(), ErrorView>(()),
    decreases events.len(),
{
    if events.len() > 0 {
        law_run_is_refused_until_the_loop_ends(p, events.drop_last(), events.last());
    }
}

/// A stop before any start is refused with `NotRunning`, and so is one
/// between the start and the first launch.
pub proof fn law_stop_before_run(options: OptionsView)
    ensures
        ProcessState::initial(options).stop() == (
            ProcessState::initial(options),
            Err::<KillRequestView, ErrorView>(ErrorView::NotRunning),
        ),
        ProcessState::initial(options).stop_and_join().1 == Err::<
            (KillRequestView, TaskStep),
            ErrorView,
        >(ErrorView::NotRunning),
        ProcessState::initial(options).run().0.drive(LoopEventView::Start).0.stop().1 == Err::<
            KillRequestView,
            ErrorView,
        >(ErrorView::NotRunning),
{
}

/// With restarts off, the child's end ends the loop: the running flag is
/// clear, no child and no subscription is left, so that no further data
/// reaches the output queues, the hosting task has come to its end and has
/// signalled it, and a join does not wait.
pub proof fn law_exit_without_restart(
    p: ProcessState,
    code: u32,
    from: Subscription,
    chunk: Seq<char>,
)
    requires
        !p.inner.restart,
    ensures
        ({
            let (after, action) = p.drive(LoopEventView::Exited(code));
            &&& action == LoopActionView::Done(Ok(()))
            &&& after.inner.run_state() == RunState::Stopped
            &&& !after.inner.running
            &&& after.inner.proc is None
            &&& after.inner.callbacks.len() == 0
            &&& after.inner.stdout == p.inner.stdout
            &&& after.inner.stderr == p.inner.stderr
            &&& after.inner.deliver(from, chunk) == (after.inner, false)
            &&& !after.task.running
            &&& after.join() == TaskStep::Nothing
            &&& p.task.running && p.task.wf() && !p.task.completion.closed
                ==> after.task.completion.items == seq![()]
        }),
{
}

/// With restarts on, the child's end is answered with a sleep of exactly the
/// configured delay and never with a launch; the child is gone at once, and
/// while the loop lasts the only event that brings the next launch is the
/// end of that sleep.
pub proof fn law_restart_waits_for_the_delay(s: InnerState, code: u32, next: LoopEventView)
    requires
        s.running,
        s.restart,
    ensures
        ({
            let (after, action) = s.step(LoopEventView::Exited(code));
            &&& action == LoopActionView::Sleep(s.delay)
            &&& after.run_state() == RunState::Exited
            &&& after.step(next).1 is Spawn ==> next == LoopEventView::DelayElapsed
            &&& after.step(LoopEventView::DelayElapsed).1 == LoopActionView::Spawn(s.request())
        }),
{
}

/// While the loop lasts, the running flag stays set, and no launch is asked
/// for before the restart delay has ended: from a state with the flag set,
/// steps that do not end the loop and are not the end of a delay never ask
/// for a launch.
pub proof fn law_no_launch_before_the_delay_ends(p: ProcessState, events: Seq<LoopEventView>)
    requires
        p.inner.running,
        p.stays_in_loop(events),
        forall|i: int| 0 <= i < events.len() ==> events[i] != LoopEventView::DelayElapsed,
    ensures
        p.drive_all(events).inner.running,
        forall|i: int|
            0 <= i < events.len() ==> !(#[trigger] p.drive_all(events.subrange(0, i)).drive(
                events[i],
            ).1 is Spawn),
    decreases events.len(),
{
    if events.len() > 0 {
        let shorter = events.drop_last();
        law_no_launch_before_the_delay_ends(p, shorter);
        assert forall|i: int| 0 <= i < events.len() implies !(#[trigger] p.drive_all(
            events.subrange(0, i),
        ).drive(events[i]).1 is Spawn) by {
            if i < shorter.len() {
                assert(events.subrange(0, i) =~= shorter.subrange(0, i));
                assert(events[i] == shorter[i]);
            } else {
                assert(events.subrange(0, i) =~= shorter);
            }
        }
    }
}

/// Whatever the state, a launch is asked for only on entry to the loop and
/// at the end of the restart delay.
pub proof fn law_launch_only_on_entry_or_after_delay(s: InnerState, event: LoopEventView)
    ensures
        s.step(event).1 is Spawn ==> event == LoopEventView::Start || event
            == LoopEventView::DelayElapsed,
{
}

/// The stop signal of the hosting task changes nothing: the loop goes on
/// waiting for the child's end.
pub proof fn law_stop_signal_is_advisory(s: InnerState)
    ensures
        s.step(LoopEventView::StopSignal) == (s, LoopActionView::Wait),
{
}

/// Stopping and joining twice is safe. While a child is alive the first call
/// asks for its kill and for a wait if the hosting task is active; once the
/// child's end is reported the loop ends, no child is left and the running
/// flag is clear; the second call is refused with `NotRunning` and changes
/// nothing.
pub proof fn law_stop_and_join_twice(p: ProcessState, code: u32)
    requires
        p.inner.run_state() == RunState::Running,
    ensures
        ({
            let (stopping, first) = p.stop_and_join();
            let (ended, action) = stopping.drive(LoopEventView::Exited(code));
            &&& first == Ok::<(KillRequestView, TaskStep), ErrorView>(
                (
                    KillRequestView {
                        child: p.inner.proc->Some_0,
                        argument: KillArgumentView::Name("SIGKILL"@),
                    },
                    p.task.wait(),
                ),
            )
            &&& action == LoopActionView::Done(Ok(()))
            &&& ended.inner.proc is None
            &&& !ended.inner.running
            &&& ended.stop_and_join() == (
                ended,
                Err::<(KillRequestView, TaskStep), ErrorView>(ErrorView::NotRunning),
            )
        }),
{
}

/// A stop during the restart delay finds no child: it is answered with
/// `ProcIsAbsent`, and restarts are off afterwards.
pub proof fn law_stop_while_child_is_gone(s: InnerState)
    requires
        s.run_state() == RunState::Exited,
    ensures
        s.stop().1 == Err::<KillRequestView, ErrorView>(ErrorView::ProcIsAbsent),
        !s.stop().0.restart,
{
}

/// The output of a one-shot run is the exact concatenation, in the order of
/// arrival, of what waited before and of every chunk that arrived since; with
/// a queue that was empty at the start it is the concatenation of the chunks.
/// This holds while the queue is open and has no limit; a closed queue keeps
/// what it held.
pub proof fn law_exec_output_is_the_concatenation(p: ProcessState, chunks: Seq<Seq<char>>)
    requires
        p.inner.stdout.capacity is None,
    ensures
        !p.inner.stdout.closed ==> p.exec_data_all(chunks).inner.stdout
            == p.inner.stdout.extended(chunks),
        !p.inner.stdout.closed ==> p.exec_data_all(chunks).exec_output().1 == concat(
            p.inner.stdout.items,
        ) + concat(chunks),
        !p.inner.stdout.closed && p.inner.stdout.items.len() == 0 ==> p.exec_data_all(
            chunks,
        ).exec_output().1 == concat(chunks),
        p.inner.stdout.closed ==> p.exec_data_all(chunks) == p,
        p.exec_data_all(chunks).exec_output().0.inner.stdout.items.len() == 0,
    decreases chunks.len(),
{
    if chunks.len() == 0 {
        assert(p.inner.stdout.items + chunks =~= p.inner.stdout.items);
        assert(p.inner.stdout.extended(chunks) =~= p.inner.stdout);
        assert(concat(p.inner.stdout.items) + concat(chunks) =~= concat(p.inner.stdout.items));
    } else {
        law_exec_output_is_the_concatenation(p, chunks.drop_last());
        let before = p.exec_data_all(chunks.drop_last());
        if p.inner.stdout.closed {
            assert(before.exec_data(chunks.last()).0 =~= before);
        } else {
            assert(p.inner.stdout.items + chunks =~= (p.inner.stdout.items
                + chunks.drop_last()).push(chunks.last()));
            assert(before.exec_data(chunks.last()).0.inner.stdout =~= p.inner.stdout.extended(
                chunks,
            ));
            lemma_concat_add(p.inner.stdout.items, chunks);
            if p.inner.stdout.items.len() == 0 {
                assert(concat(p.inner.stdout.items) + concat(chunks) =~= concat(chunks));
            }
        }
    }
}

} // verus!
