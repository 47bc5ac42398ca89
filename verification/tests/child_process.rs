use process_supervisor::channel::{drain_text, send_text};
use process_supervisor::child_process::{
    spawn, spawn_with_args, spawn_with_args_and_options, ChildProcess, KillArgument, KillSignal,
    OptionValue, ProcessEnv, SpawnArgs, SpawnOptions,
};
use process_supervisor::text::{copy_optional_text, strings_from, strings_from_slices};
use workflow_core::channel::Channel;

#[test]
fn kill_signal_arguments() {
    assert!(matches!(KillSignal::NoSignal.argument(), KillArgument::Default));
    assert!(matches!(KillSignal::SIGKILL.argument(), KillArgument::Name(n) if n == "SIGKILL"));
    assert!(matches!(KillSignal::SIGTERM.argument(), KillArgument::Name(n) if n == "SIGTERM"));
    assert!(matches!(KillSignal::Message("SIGHUP").argument(), KillArgument::Name(n) if n == "SIGHUP"));
    assert!(matches!(KillSignal::Message("").argument(), KillArgument::Name(n) if n.is_empty()));
    assert!(matches!(KillSignal::Code(9).argument(), KillArgument::Code(9)));
    assert!(matches!(KillSignal::Code(0).argument(), KillArgument::Code(0)));
}

#[test]
fn kill_request_names_the_child() {
    let child = ChildProcess::new(1234);
    assert_eq!(child.pid, 1234);
    let request = child.kill_with_signal(KillSignal::SIGTERM);
    assert_eq!(request.child, child);
    assert!(matches!(&request.argument, KillArgument::Name(n) if n == "SIGTERM"));
    let request = child.kill_with_signal(KillSignal::NoSignal);
    assert!(matches!(request.argument, KillArgument::Default));
    let request = child.kill_with_signal(KillSignal::Code(15));
    assert!(matches!(request.argument, KillArgument::Code(15)));
}

#[test]
fn spawn_args_from_lists() {
    assert!(SpawnArgs::new().list.is_empty());
    assert_eq!(SpawnArgs::from_slices(&["-m", "-s"]).list, vec!["-m".to_string(), "-s".to_string()]);
    assert_eq!(SpawnArgs::from_vec(vec!["a", "", "c"]).list, vec!["a".to_string(), String::new(), "c".to_string()]);
    let owned = vec!["x".to_string(), "y z".to_string()];
    assert_eq!(SpawnArgs::from_strings(&owned).list, owned);
    assert!(SpawnArgs::from_slices(&[]).list.is_empty());
}

#[test]
fn text_lists_are_copied_in_order() {
    assert_eq!(strings_from_slices(&["b", "a"]), vec!["b".to_string(), "a".to_string()]);
    let list = vec!["0".to_string(), "1".to_string(), "2".to_string()];
    assert_eq!(strings_from(&list, 0), list);
    assert_eq!(strings_from(&list, 1), vec!["1".to_string(), "2".to_string()]);
    assert_eq!(strings_from(&list, 3), Vec::<String>::new());
    assert_eq!(copy_optional_text(&Some("t".to_string())), Some("t".to_string()));
    assert_eq!(copy_optional_text(&None), None);
}

#[test]
fn spawn_options_start_empty() {
    assert!(SpawnOptions::new().entries.is_empty());
    assert!(SpawnOptions::default().entries.is_empty());
    assert!(SpawnOptions::new().get("cwd").is_none());
}

#[test]
fn spawn_options_keep_each_assignment() {
    let mut options = SpawnOptions::new();
    options
        .cwd("../")
        .argv0("me")
        .detached(true)
        .uid("u")
        .gid("g")
        .serialization("json")
        .shell(false)
        .windows_verbatim_arguments(true)
        .windows_hide(false)
        .timeout(500)
        .kill_signal(9)
        .env(ProcessEnv { vars: vec![("HOME".to_string(), "/root".to_string())] });
    assert_eq!(options.entries.len(), 12);
    let keys: Vec<&str> = options.entries.iter().map(|e| e.0.as_str()).collect();
    assert_eq!(
        keys,
        vec![
            "cwd", "argv0", "detached", "uid", "gid", "serialization", "shell",
            "windowsVerbatimArguments", "windowsHide", "timeout", "killSignal", "env"
        ]
    );
    assert!(matches!(options.get("cwd"), Some(OptionValue::Text(v)) if v == "../"));
    assert!(matches!(options.get("argv0"), Some(OptionValue::Text(v)) if v == "me"));
    assert!(matches!(options.get("detached"), Some(OptionValue::Flag(true))));
    assert!(matches!(options.get("uid"), Some(OptionValue::Text(v)) if v == "u"));
    assert!(matches!(options.get("gid"), Some(OptionValue::Text(v)) if v == "g"));
    assert!(matches!(options.get("serialization"), Some(OptionValue::Text(v)) if v == "json"));
    assert!(matches!(options.get("shell"), Some(OptionValue::Flag(false))));
    assert!(matches!(options.get("windowsVerbatimArguments"), Some(OptionValue::Flag(true))));
    assert!(matches!(options.get("windowsHide"), Some(OptionValue::Flag(false))));
    assert!(matches!(options.get("timeout"), Some(OptionValue::Number(500))));
    assert!(matches!(options.get("killSignal"), Some(OptionValue::Number(9))));
    assert!(matches!(options.get("env"), Some(OptionValue::Env(env)) if env.vars.len() == 1 && env.vars[0].0 == "HOME"));
    assert!(options.get("stdio").is_none());
}

#[test]
fn later_assignment_replaces_an_earlier_one() {
    let mut options = SpawnOptions::new();
    options.shell(true);
    options.kill_signal(15);
    options.shell_str("/bin/sh");
    options.kill_signal_str("SIGINT");
    options.set("custom", OptionValue::Number(1)).set("custom", OptionValue::Number(2));
    assert!(matches!(options.get("shell"), Some(OptionValue::Text(v)) if v == "/bin/sh"));
    assert!(matches!(options.get("killSignal"), Some(OptionValue::Text(v)) if v == "SIGINT"));
    assert!(matches!(options.get("custom"), Some(OptionValue::Number(2))));
    assert_eq!(options.entries.len(), 6);
}

#[test]
fn spawn_requests() {
    let request = spawn("ls");
    assert_eq!(request.cmd, "ls");
    assert!(request.args.list.is_empty());
    assert!(request.options.entries.is_empty());

    let request = spawn_with_args("ls", SpawnArgs::from_slices(&["-m", "-s"]));
    assert_eq!(request.cmd, "ls");
    assert_eq!(request.args.list, vec!["-m".to_string(), "-s".to_string()]);
    assert!(request.options.entries.is_empty());

    let mut options = SpawnOptions::new();
    options.cwd("../");
    let request = spawn_with_args_and_options("ls", SpawnArgs::from_slices(&["-l"]), options);
    assert_eq!(request.cmd, "ls");
    assert_eq!(request.args.list, vec!["-l".to_string()]);
    assert!(matches!(request.options.get("cwd"), Some(OptionValue::Text(v)) if v == "../"));
}

#[test]
fn draining_a_channel_joins_its_texts() {
    let mut channel: Channel<String> = Channel::unbounded();
    assert_eq!(drain_text(&mut channel).unwrap(), "");
    channel.try_send("a".to_string()).unwrap();
    channel.try_send("".to_string()).unwrap();
    channel.try_send("bc".to_string()).unwrap();
    assert_eq!(drain_text(&mut channel).unwrap(), "abc");
    assert_eq!(channel.len(), 0);
    channel.try_send("d".to_string()).unwrap();
    channel.sender.close();
    assert_eq!(drain_text(&mut channel).unwrap(), "d");
    assert_eq!(drain_text(&mut channel).unwrap(), "");
}

#[test]
fn sending_goes_behind_what_waits() {
    let mut channel: Channel<String> = Channel::unbounded();
    assert!(send_text(&mut channel, "1".to_string()));
    assert!(send_text(&mut channel, "2".to_string()));
    assert_eq!(channel.len(), 2);
    assert_eq!(channel.try_recv().ok(), Some("1".to_string()));
    assert!(send_text(&mut channel, "3".to_string()));
    assert_eq!(drain_text(&mut channel).unwrap(), "23");
}

#[test]
fn a_full_channel_takes_nothing() {
    let mut channel: Channel<String> = Channel::bounded(2);
    assert!(send_text(&mut channel, "a".to_string()));
    assert!(send_text(&mut channel, "b".to_string()));
    assert!(!send_text(&mut channel, "c".to_string()));
    assert_eq!(channel.len(), 2);
    assert_eq!(channel.try_recv().ok(), Some("a".to_string()));
    assert!(send_text(&mut channel, "d".to_string()));
    assert_eq!(drain_text(&mut channel).unwrap(), "bd");
    let mut single: Channel<String> = Channel::oneshot();
    assert!(send_text(&mut single, "x".to_string()));
    assert!(!send_text(&mut single, "y".to_string()));
    assert_eq!(drain_text(&mut single).unwrap(), "x");
}

#[test]
fn a_closed_channel_takes_nothing_and_keeps_what_waits() {
    let mut channel: Channel<String> = Channel::unbounded();
    assert!(send_text(&mut channel, "kept".to_string()));
    assert!(channel.receiver.close());
    assert!(!send_text(&mut channel, "lost".to_string()));
    assert_eq!(channel.len(), 1);
    assert_eq!(drain_text(&mut channel).unwrap(), "kept");
    assert!(!send_text(&mut channel, "lost".to_string()));
    assert_eq!(channel.len(), 0);
}

#[test]
fn spawn_is_in_reach_from_the_root() {
    let request = process_supervisor::spawn("ls");
    assert_eq!(request.cmd, "ls");
    let request = process_supervisor::spawn_with_args("ls", SpawnArgs::from_slices(&["-a"]));
    assert_eq!(request.args.list.len(), 1);
    let request = process_supervisor::spawn_with_args_and_options(
        "ls",
        SpawnArgs::new(),
        SpawnOptions::new(),
    );
    assert!(request.args.list.is_empty());
}
