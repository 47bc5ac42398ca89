//! What is asked of the process launcher, as plain data: the command line,
//! the launch options, the handle of a launched child and the signal that
//! ends it.
use vstd::prelude::*;
use crate::text::{slice_texts, strings_from, strings_from_slices, texts};

verus! {

/// The signal with which a child is to be ended.
#[derive(Clone, Copy, Debug)]
pub enum KillSignal<'s> {
    /// No signal is named: the launcher's default is used.
    NoSignal,
    SIGKILL,
    SIGTERM,
    /// A signal by name.
    Message(&'s str),
    /// A signal by number.
    Code(u32),
}

/// What the child's kill operation is handed: nothing, a name or a number.
#[derive(Debug)]
pub enum KillArgument {
    Default,
    Name(String),
    Code(u32),
}

/// A [`KillArgument`] as a mathematical value.
pub enum KillArgumentView {
    Default,
    Name(Seq<char>),
    Code(u32),
}

impl View for KillArgument {
    type V = KillArgumentView;

    open spec fn view(&self) -> KillArgumentView {
        match *self {
            KillArgument::Default => KillArgumentView::Default,
            KillArgument::Name(name) => KillArgumentView::Name(name@),
            KillArgument::Code(code) => KillArgumentView::Code(code),
        }
    }
}

impl<'s> KillSignal<'s> {
    /// The argument that stands for this signal.
    pub open spec fn argument_spec(self) -> KillArgumentView {
        match self {
            KillSignal::NoSignal => KillArgumentView::Default,
            KillSignal::SIGKILL => KillArgumentView::Name("SIGKILL"@),
            KillSignal::SIGTERM => KillArgumentView::Name("SIGTERM"@),
            KillSignal::Message(name) => KillArgumentView::Name(name@),
            KillSignal::Code(code) => KillArgumentView::Code(code),
        }
    }

    /// The argument that stands for this signal.
    pub fn argument(&self) -> (argument: KillArgument)
        ensures
            argument@ == self.argument_spec(),
    {
        match *self {
            KillSignal::NoSignal => KillArgument::Default,
            KillSignal::SIGKILL => KillArgument::Name(String::from_str("SIGKILL")),
            KillSignal::SIGTERM => KillArgument::Name(String::from_str("SIGTERM")),
            KillSignal::Message(name) => KillArgument::Name(String::from_str(name)),
            KillSignal::Code(code) => KillArgument::Code(code),
        }
    }
}

/// The handle of a launched child, named by its process id.
#[derive(Clone, Copy, Debug, PartialEq, Eq, Structural)]
pub struct ChildProcess {
    pub pid: u64,
}

/// A request to end a child.
#[derive(Debug)]
pub struct KillRequest {
    pub child: ChildProcess,
    pub argument: KillArgument,
}

/// A [`KillRequest`] as a mathematical value.
pub struct KillRequestView {
    pub child: ChildProcess,
    pub argument: KillArgumentView,
}

impl View for KillRequest {
    type V = KillRequestView;

    open spec fn view(&self) -> KillRequestView {
        KillRequestView { child: self.child, argument: self.argument@ }
    }
}

impl ChildProcess {
    /// The handle of the child with this process id.
    pub fn new(pid: u64) -> (child: ChildProcess)
        ensures
            child.pid == pid,
    {
        ChildProcess { pid }
    }

    /// The request that ends this child with `signal`.
    pub fn kill_with_signal(&self, signal: KillSignal) -> (request: KillRequest)
        ensures
            request@ == (KillRequestView { child: *self, argument: signal.argument_spec() }),
    {
        KillRequest { child: *self, argument: signal.argument() }
    }
}

/// The arguments of a command line, in order.
#[derive(Debug)]
pub struct SpawnArgs {
    pub list: Vec<String>,
}

impl View for SpawnArgs {
    type V = Seq<Seq<char>>;

    open spec fn view(&self) -> Seq<Seq<char>> {
        texts(self.list@)
    }
}

impl SpawnArgs {
    /// No arguments.
    pub fn new() -> (args: SpawnArgs)
        ensures
            args@ == Seq::<Seq<char>>::empty(),
    {
        let args = SpawnArgs { list: Vec::new() };
        assert(args@ =~= Seq::<Seq<char>>::empty());
        args
    }

    /// The given arguments, in order.
    pub fn from_slices(list: &[&str]) -> (args: SpawnArgs)
        ensures
            args@ == slice_texts(list@),
    {
        SpawnArgs { list: strings_from_slices(list) }
    }

    /// The given arguments, in order.
    pub fn from_vec(list: Vec<&str>) -> (args: SpawnArgs)
        ensures
            args@ == slice_texts(list@),
    {
        SpawnArgs { list: strings_from_slices(list.as_slice()) }
    }

    /// The given arguments, in order.
    pub fn from_strings(list: &[String]) -> (args: SpawnArgs)
        ensures
            args@ == texts(list@),
    {
        let args = SpawnArgs { list: strings_from(list, 0) };
        assert(texts(list@).subrange(0, list.len() as int) =~= texts(list@));
        args
    }
}

/// The environment handed to a child: names and values, in order.
#[derive(Debug)]
pub struct ProcessEnv {
    pub vars: Vec<(String, String)>,
}

impl View for ProcessEnv {
    type V = Seq<(Seq<char>, Seq<char>)>;

    open spec fn view(&self) -> Seq<(Seq<char>, Seq<char>)> {
        Seq::new(self.vars.len() as nat, |i: int| (self.vars[i].0@, self.vars[i].1@))
    }
}

/// The value of one launch option.
#[derive(Debug)]
pub enum OptionValue {
    Text(String),
    Flag(bool),
    Number(u32),
    Env(ProcessEnv),
}

/// An [`OptionValue`] as a mathematical value.
pub enum OptionValueView {
    Text(Seq<char>),
    Flag(bool),
    Number(u32),
    Env(Seq<(Seq<char>, Seq<char>)>),
}

impl View for OptionValue {
    type V = OptionValueView;

    open spec fn view(&self) -> OptionValueView {
        match *self {
            OptionValue::Text(text) => OptionValueView::Text(text@),
            OptionValue::Flag(flag) => OptionValueView::Flag(flag),
            OptionValue::Number(number) => OptionValueView::Number(number),
            OptionValue::Env(env) => OptionValueView::Env(env@),
        }
    }
}

/// The value an option has after the given assignments: that of the last
/// assignment to `key`, if there is one.
pub open spec fn value_of(assignments: Seq<(Seq<char>, OptionValueView)>, key: Seq<char>) -> Option<
    OptionValueView,
>
    decreases assignments.len(),
{
    if assignments.len() == 0 {
        None
    } else if assignments.last().0 == key {
        Some(assignments.last().1)
    } else {
        value_of(assignments.drop_last(), key)
    }
}

/// The launch options: assignments of values to option names, in the order
/// in which they were made. A later assignment to a name replaces an earlier
/// one.
#[derive(Debug)]
pub struct SpawnOptions {
    pub entries: Vec<(String, OptionValue)>,
}

impl View for SpawnOptions {
    type V = Seq<(Seq<char>, OptionValueView)>;

    open spec fn view(&self) -> Seq<(Seq<char>, OptionValueView)> {
        Seq::new(self.entries.len() as nat, |i: int| (self.entries[i].0@, self.entries[i].1@))
    }
}

impl Default for SpawnOptions {
    fn default() -> (options: SpawnOptions)
        ensures
            options@ == Seq::<(Seq<char>, OptionValueView)>::empty(),
    {
        SpawnOptions::new()
    }
}

impl SpawnOptions {
    /// No option set.
    pub fn new() -> (options: SpawnOptions)
        ensures
            options@ == Seq::<(Seq<char>, OptionValueView)>::empty(),
    {
        let options = SpawnOptions { entries: Vec::new() };
        assert(options@ =~= Seq::<(Seq<char>, OptionValueView)>::empty());
        options
    }

    /// Assigns `value` to the option `key`.
    pub fn set(&mut self, key: &str, value: OptionValue) -> (same: &mut Self)
        ensures
            same@ == old(self)@.push((key@, value@)),
            *final(self) == *final(same),
    {
        let ghost before = self@;
        self.entries.push((String::from_str(key), value));
        assert(self@ =~= before.push((key@, value@)));
        self
    }

    /// The value of the option `key`, if one was assigned.
    pub fn get(&self, key: &str) -> (value: Option<&OptionValue>)
        ensures
            match value {
                Some(v) => value_of(self@, key@) == Some(v@),
                None => value_of(self@, key@) is None,
            },
    {
        let wanted = String::from_str(key);
        let mut i: usize = self.entries.len();
        assert(self@.subrange(0, i as int) =~= self@);
        while i > 0
            invariant
                i <= self.entries.len(),
                wanted@ == key@,
                value_of(self@, key@) == value_of(self@.subrange(0, i as int), key@),
            decreases i,
        {
            let ghost upto = self@.subrange(0, i as int);
            i = i - 1;
            assert(upto.drop_last() =~= self@.subrange(0, i as int));
            assert(upto.last() == self@[i as int]);
            if self.entries[i].0 == wanted {
                return Some(&self.entries[i].1);
            }
        }
        None
    }

    /// The directory in which the child is to run.
    pub fn cwd(&mut self, cwd: &str) -> (same: &mut Self)
        ensures
            same@ == old(self)@.push(("cwd"@, OptionValueView::Text(cwd@))),
            *final(self) == *final(same),
    {
        self.set("cwd", OptionValue::Text(String::from_str(cwd)))
    }

    /// The environment of the child.
    pub fn env(&mut self, env: ProcessEnv) -> (same: &mut Self)
        ensures
            same@ == old(self)@.push(("env"@, OptionValueView::Env(env@))),
            *final(self) == *final(same),
    {
        self.set("env", OptionValue::Env(env))
    }

    /// The name under which the child sees itself.
    pub fn argv0(&mut self, argv0: &str) -> (same: &mut Self)
        ensures
            same@ == old(self)@.push(("argv0"@, OptionValueView::Text(argv0@))),
            *final(self) == *final(same),
    {
        self.set("argv0", OptionValue::Text(String::from_str(argv0)))
    }

    /// Whether the child leads a process group of its own.
    pub fn detached(&mut self, detached: bool) -> (same: &mut Self)
        ensures
            same@ == old(self)@.push(("detached"@, OptionValueView::Flag(detached))),
            *final(self) == *final(same),
    {
        self.set("detached", OptionValue::Flag(detached))
    }

    /// The user under which the child runs.
    pub fn uid(&mut self, uid: &str) -> (same: &mut Self)
        ensures
            same@ == old(self)@.push(("uid"@, OptionValueView::Text(uid@))),
            *final(self) == *final(same),
    {
        self.set("uid", OptionValue::Text(String::from_str(uid)))
    }

    /// The group under which the child runs.
    pub fn gid(&mut self, gid: &str) -> (same: &mut Self)
        ensures
            same@ == old(self)@.push(("gid"@, OptionValueView::Text(gid@))),
            *final(self) == *final(same),
    {
        self.set("gid", OptionValue::Text(String::from_str(gid)))
    }

    /// How messages between parent and child are encoded.
    pub fn serialization(&mut self, serialization: &str) -> (same: &mut Self)
        ensures
            same@ == old(self)@.push(
                ("serialization"@, OptionValueView::Text(serialization@)),
            ),
            *final(self) == *final(same),
    {
        self.set("serialization", OptionValue::Text(String::from_str(serialization)))
    }

    /// Whether the command runs inside a shell.
    pub fn shell(&mut self, shell: bool) -> (same: &mut Self)
        ensures
            same@ == old(self)@.push(("shell"@, OptionValueView::Flag(shell))),
            *final(self) == *final(same),
    {
        self.set("shell", OptionValue::Flag(shell))
    }

    /// The shell inside which the command runs.
    pub fn shell_str(&mut self, shell: &str) -> (same: &mut Self)
        ensures
            same@ == old(self)@.push(("shell"@, OptionValueView::Text(shell@))),
            *final(self) == *final(same),
    {
        self.set("shell", OptionValue::Text(String::from_str(shell)))
    }

    /// Whether arguments are passed unquoted on Windows.
    pub fn windows_verbatim_arguments(&mut self, args: bool) -> (same: &mut Self)
        ensures
            same@ == old(self)@.push(
                ("windowsVerbatimArguments"@, OptionValueView::Flag(args)),
            ),
            *final(self) == *final(same),
    {
        self.set("windowsVerbatimArguments", OptionValue::Flag(args))
    }

    /// Whether the child's console window is hidden on Windows.
    pub fn windows_hide(&mut self, windows_hide: bool) -> (same: &mut Self)
        ensures
            same@ == old(self)@.push(("windowsHide"@, OptionValueView::Flag(windows_hide))),
            *final(self) == *final(same),
    {
        self.set("windowsHide", OptionValue::Flag(windows_hide))
    }

    /// The time in milliseconds the child may run.
    pub fn timeout(&mut self, timeout: u32) -> (same: &mut Self)
        ensures
            same@ == old(self)@.push(("timeout"@, OptionValueView::Number(timeout))),
            *final(self) == *final(same),
    {
        self.set("timeout", OptionValue::Number(timeout))
    }

    /// The number of the signal that ends the child on timeout.
    pub fn kill_signal(&mut self, signal: u32) -> (same: &mut Self)
        ensures
            same@ == old(self)@.push(("killSignal"@, OptionValueView::Number(signal))),
            *final(self) == *final(same),
    {
        self.set("killSignal", OptionValue::Number(signal))
    }

    /// The name of the signal that ends the child on timeout.
    pub fn kill_signal_str(&mut self, signal: &str) -> (same: &mut Self)
        ensures
            same@ == old(self)@.push(("killSignal"@, OptionValueView::Text(signal@))),
            *final(self) == *final(same),
    {
        self.set("killSignal", OptionValue::Text(String::from_str(signal)))
    }
}

/// After an assignment the option has the assigned value, and every other
/// option the value it had.
pub proof fn lemma_value_after_set(
    assignments: Seq<(Seq<char>, OptionValueView)>,
    key: Seq<char>,
    value: OptionValueView,
    other: Seq<char>,
)
    ensures
        value_of(assignments.push((key, value)), key) == Some(value),
        other != key ==> value_of(assignments.push((key, value)), other) == value_of(
            assignments,
            other,
        ),
{
    let after = assignments.push((key, value));
    assert(after.last() == (key, value));
    assert(after.drop_last() =~= assignments);
}

/// A request to launch a program.
#[derive(Debug)]
pub struct SpawnRequest {
    pub cmd: String,
    pub args: SpawnArgs,
    pub options: SpawnOptions,
}

/// A [`SpawnRequest`] as a mathematical value.
pub struct SpawnRequestView {
    pub cmd: Seq<char>,
    pub args: Seq<Seq<char>>,
    pub options: Seq<(Seq<char>, OptionValueView)>,
}

impl View for SpawnRequest {
    type V = SpawnRequestView;

    open spec fn view(&self) -> SpawnRequestView {
        SpawnRequestView { cmd: self.cmd@, args: self.args@, options: self.options@ }
    }
}

/// The request to launch `cmd` without arguments, with no option set.
pub fn spawn(cmd: &str) -> (request: SpawnRequest)
    ensures
        request@ == (SpawnRequestView {
            cmd: cmd@,
            args: Seq::<Seq<char>>::empty(),
            options: Seq::<(Seq<char>, OptionValueView)>::empty(),
        }),
{
    SpawnRequest { cmd: String::from_str(cmd), args: SpawnArgs::new(), options: SpawnOptions::new() }
}

/// The request to launch `cmd` with `args`, with no option set.
pub fn spawn_with_args(cmd: &str, args: SpawnArgs) -> (request: SpawnRequest)
    ensures
        request@ == (SpawnRequestView {
            cmd: cmd@,
            args: args@,
            options: Seq::<(Seq<char>, OptionValueView)>::empty(),
        }),
{
    SpawnRequest { cmd: String::from_str(cmd), args, options: SpawnOptions::new() }
}

/// The request to launch `cmd` with `args` under `options`.
pub fn spawn_with_args_and_options(cmd: &str, args: SpawnArgs, options: SpawnOptions) -> (request:
    SpawnRequest)
    ensures
        request@ == (SpawnRequestView { cmd: cmd@, args: args@, options: options@ }),
{
    SpawnRequest { cmd: String::from_str(cmd), args, options }
}

} // verus!
