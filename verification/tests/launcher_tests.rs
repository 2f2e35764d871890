use exe_proxy::config::ReadOutcome;
use exe_proxy::launcher::{Action, Event, Launcher, Phase};
use exe_proxy::status::{Failure, Termination, WaitOutcome};

fn invocation() -> Vec<String> {
    vec!["exe-proxy".to_string(), "--verbose".to_string(), "in.txt".to_string()]
}

fn feed(launcher: Launcher, events: Vec<Event>) -> (Launcher, Vec<Action>) {
    let mut launcher = launcher;
    let mut actions = Vec::new();
    for event in events {
        assert!(launcher.expects(&event), "{event:?} in {:?}", launcher.phase());
        let (next, action) = launcher.step(event);
        launcher = next;
        actions.push(action);
    }
    (launcher, actions)
}

fn set_up() -> Vec<Event> {
    vec![
        Event::Started,
        Event::ConfigRead(ReadOutcome::Contents(" /bin/echo\n".to_string())),
        Event::Clock(Some(1700000000123)),
        Event::LogCreated(Ok(())),
        Event::HeaderWritten(Ok(())),
    ]
}

fn set_up_actions() -> Vec<Action> {
    vec![
        Action::ReadConfig,
        Action::ReadClock,
        Action::CreateLog("./exe-proxy.1700000000123.log".to_string()),
        Action::WriteHeader("exe-proxy --verbose in.txt:\n".to_string()),
        Action::Spawn {
            program: "/bin/echo".to_string(),
            args: vec!["--verbose".to_string(), "in.txt".to_string()],
        },
    ]
}

fn exit(termination: Termination, diagnostic: Option<&str>) -> Action {
    Action::Exit { termination, diagnostic: diagnostic.map(|d| d.to_string()) }
}

fn failed(failure: Failure, diagnostic: &str) -> Action {
    exit(Termination::Failed(failure), Some(diagnostic))
}

fn spawned(actions: &[Action]) -> bool {
    actions.iter().any(|a| matches!(a, Action::Spawn { .. }))
}

fn logged(actions: &[Action]) -> Vec<u8> {
    let mut out = Vec::new();
    for a in actions {
        if let Action::WriteLog(bytes) = a {
            out.extend_from_slice(bytes);
        }
    }
    out
}

fn printed(actions: &[Action]) -> Vec<u8> {
    let mut out = Vec::new();
    for a in actions {
        if let Action::WriteStdout(bytes) = a {
            out.extend_from_slice(bytes);
        }
    }
    out
}

#[test]
fn new_launcher_waits_for_the_start() {
    let launcher = Launcher::new(invocation());
    assert_eq!(launcher.phase(), Phase::Start);
    assert!(!launcher.is_done());
    assert!(launcher.expects(&Event::Started));
    assert!(!launcher.expects(&Event::Spawned(Ok(()))));
    assert!(!launcher.expects(&Event::ConfigRead(ReadOutcome::NotFound)));
}

#[test]
fn set_up_runs_in_order() {
    let (launcher, actions) = feed(Launcher::new(invocation()), set_up());
    assert_eq!(actions, set_up_actions());
    assert_eq!(launcher.phase(), Phase::Spawn);
}

#[test]
fn exit_code_is_the_target_exit_code() {
    for code in [0, 3, 255, -7] {
        let mut events = set_up();
        events.push(Event::Spawned(Ok(())));
        events.push(Event::Read(Some(Vec::new())));
        events.push(Event::Waited(WaitOutcome::Status(code)));
        let (launcher, actions) = feed(Launcher::new(invocation()), events);
        assert!(launcher.is_done());
        assert_eq!(actions[5], Action::ReadOutput);
        assert_eq!(actions[6], Action::Wait);
        assert_eq!(actions[7], exit(Termination::Exited(code), None));
        match &actions[7] {
            Action::Exit { termination, .. } => assert_eq!(termination.code(), code),
            other => panic!("{other:?}"),
        }
    }
}

#[test]
fn output_goes_to_log_then_stdout_unchanged() {
    let chunks: Vec<Vec<u8>> = vec![b"hell".to_vec(), b"o wo".to_vec(), vec![0, 255, 10], b"!".to_vec()];
    let mut events = set_up();
    events.push(Event::Spawned(Ok(())));
    for chunk in &chunks {
        events.push(Event::Read(Some(chunk.clone())));
        events.push(Event::LogWritten(Ok(())));
        events.push(Event::StdoutWritten(Ok(())));
    }
    events.push(Event::Read(Some(Vec::new())));
    events.push(Event::Waited(WaitOutcome::Status(0)));
    let (launcher, actions) = feed(Launcher::new(invocation()), events);
    assert!(launcher.is_done());
    let all: Vec<u8> = chunks.concat();
    assert_eq!(logged(&actions), all);
    assert_eq!(printed(&actions), all);
    assert_eq!(actions[6], Action::WriteLog(b"hell".to_vec()));
    assert_eq!(actions[7], Action::WriteStdout(b"hell".to_vec()));
    assert_eq!(actions[8], Action::ReadOutput);
    assert_eq!(actions[9], Action::WriteLog(b"o wo".to_vec()));
    assert_eq!(actions[10], Action::WriteStdout(b"o wo".to_vec()));
    assert_eq!(actions.last(), Some(&exit(Termination::Exited(0), None)));
}

#[test]
fn absent_config_is_created_and_nothing_is_spawned() {
    let cases = [
        (
            Ok(()),
            "you need to put a path to the program you want to proxy to ./exe-proxy-target.txt",
        ),
        (
            Err("read-only file system".to_string()),
            "you need to create a file at ./exe-proxy-target.txt. couldn't create it: read-only file system",
        ),
    ];
    for (created, diagnostic) in cases {
        let events = vec![
            Event::Started,
            Event::ConfigRead(ReadOutcome::NotFound),
            Event::ConfigCreated(created),
        ];
        let (launcher, actions) = feed(Launcher::new(invocation()), events);
        assert_eq!(
            actions,
            vec![
                Action::ReadConfig,
                Action::CreateConfig,
                failed(Failure::ConfigMissing, diagnostic),
            ]
        );
        assert!(launcher.is_done());
        assert!(!spawned(&actions));
        assert_ne!(Failure::ConfigMissing.code(), 0);
    }
}

#[test]
fn unreadable_config_ends_the_run() {
    let events = vec![Event::Started, Event::ConfigRead(ReadOutcome::Failed("permission denied".to_string()))];
    let (launcher, actions) = feed(Launcher::new(invocation()), events);
    assert_eq!(
        actions[1],
        failed(Failure::ConfigUnreadable, "couldn't open the config file: permission denied")
    );
    assert!(launcher.is_done());
}

#[test]
fn two_line_config_ends_the_run_before_any_log_or_spawn() {
    let events = vec![
        Event::Started,
        Event::ConfigRead(ReadOutcome::Contents("/bin/echo\n/bin/true\n".to_string())),
    ];
    let (launcher, actions) = feed(Launcher::new(invocation()), events);
    assert_eq!(
        actions,
        vec![
            Action::ReadConfig,
            failed(
                Failure::ConfigMultipleLines,
                "./exe-proxy-target.txt contains more than one line"
            ),
        ]
    );
    assert!(launcher.is_done());
    assert!(!spawned(&actions));
    assert!(!actions.iter().any(|a| matches!(a, Action::CreateLog(_) | Action::WriteHeader(_))));
    assert_ne!(Failure::ConfigMultipleLines.code(), 0);
}

#[test]
fn whitespace_only_config_ends_with_the_empty_code() {
    let events =
        vec![Event::Started, Event::ConfigRead(ReadOutcome::Contents("   \t ".to_string()))];
    let (launcher, actions) = feed(Launcher::new(invocation()), events);
    assert_eq!(
        actions[1],
        failed(Failure::ConfigEmpty, "./exe-proxy-target.txt is empty. add a target program path")
    );
    assert!(launcher.is_done());
    assert!(!spawned(&actions));
}

#[test]
fn failed_spawn_leaves_only_the_header_in_the_log() {
    let mut events = set_up();
    events[1] = Event::ConfigRead(ReadOutcome::Contents("/no/such/program".to_string()));
    events.push(Event::Spawned(Err("No such file or directory (os error 2)".to_string())));
    let (launcher, actions) = feed(Launcher::new(invocation()), events);
    assert!(launcher.is_done());
    assert_eq!(actions[3], Action::WriteHeader("exe-proxy --verbose in.txt:\n".to_string()));
    assert_eq!(
        actions[4],
        Action::Spawn {
            program: "/no/such/program".to_string(),
            args: vec!["--verbose".to_string(), "in.txt".to_string()],
        }
    );
    assert_eq!(
        actions[5],
        failed(
            Failure::Spawn,
            "couldn't spawn /no/such/program: No such file or directory (os error 2)"
        )
    );
    assert_eq!(logged(&actions), Vec::<u8>::new());
    assert_eq!(printed(&actions), Vec::<u8>::new());
}

#[test]
fn clock_without_reading_names_the_log_zero() {
    let events = vec![
        Event::Started,
        Event::ConfigRead(ReadOutcome::Contents("/bin/echo".to_string())),
        Event::Clock(None),
    ];
    let (_, actions) = feed(Launcher::new(invocation()), events);
    assert_eq!(actions[2], Action::CreateLog("./exe-proxy.0.log".to_string()));
}

#[test]
fn log_that_cannot_be_created_ends_the_run() {
    let mut events = set_up();
    events.truncate(3);
    events.push(Event::LogCreated(Err("permission denied".to_string())));
    let (launcher, actions) = feed(Launcher::new(invocation()), events);
    assert_eq!(
        actions[3],
        failed(
            Failure::LogCreate,
            "couldn't create a log file at ./exe-proxy.1700000000123.log: permission denied"
        )
    );
    assert!(launcher.is_done());
    assert!(!spawned(&actions));
}

#[test]
fn header_that_cannot_be_written_ends_the_run() {
    let mut events = set_up();
    events.truncate(4);
    events.push(Event::HeaderWritten(Err("disk full".to_string())));
    let (launcher, actions) = feed(Launcher::new(invocation()), events);
    assert_eq!(
        actions[4],
        failed(
            Failure::LogHeader,
            "couldn't write to log ./exe-proxy.1700000000123.log: disk full"
        )
    );
    assert!(launcher.is_done());
    assert!(!spawned(&actions));
}

#[test]
fn failed_log_write_ends_the_run_without_wait_or_stdout() {
    let mut events = set_up();
    events.push(Event::Spawned(Ok(())));
    events.push(Event::Read(Some(b"abc".to_vec())));
    events.push(Event::LogWritten(Err("disk full".to_string())));
    let (launcher, actions) = feed(Launcher::new(invocation()), events);
    assert_eq!(actions.last(), Some(&failed(Failure::Relay, "cannot log stdout: disk full")));
    assert!(launcher.is_done());
    assert_eq!(printed(&actions), Vec::<u8>::new());
    assert!(!actions.iter().any(|a| matches!(a, Action::Wait)));
}

#[test]
fn failed_stdout_write_ends_the_run_without_wait() {
    let mut events = set_up();
    events.push(Event::Spawned(Ok(())));
    events.push(Event::Read(Some(b"abc".to_vec())));
    events.push(Event::LogWritten(Ok(())));
    events.push(Event::StdoutWritten(Err("broken pipe".to_string())));
    let (launcher, actions) = feed(Launcher::new(invocation()), events);
    assert_eq!(actions.last(), Some(&failed(Failure::Relay, "cannot log stdout: broken pipe")));
    assert!(launcher.is_done());
    assert!(!actions.iter().any(|a| matches!(a, Action::Wait)));
}

#[test]
fn read_error_ends_the_relay_silently() {
    let mut events = set_up();
    events.push(Event::Spawned(Ok(())));
    events.push(Event::Read(Some(b"ab".to_vec())));
    events.push(Event::LogWritten(Ok(())));
    events.push(Event::StdoutWritten(Ok(())));
    events.push(Event::Read(None));
    let (launcher, actions) = feed(Launcher::new(invocation()), events);
    assert_eq!(actions.last(), Some(&Action::Wait));
    assert_eq!(launcher.phase(), Phase::Wait);
    let (launcher, actions) = feed(launcher, vec![Event::Waited(WaitOutcome::Status(9))]);
    assert_eq!(actions, vec![exit(Termination::Exited(9), None)]);
    assert!(launcher.is_done());
}

#[test]
fn target_without_status_and_failed_wait() {
    let cases = [
        (WaitOutcome::NoStatus, Failure::NoStatus, None),
        (
            WaitOutcome::Failed("no child".to_string()),
            Failure::Wait,
            Some("failed to start /bin/echo: no child"),
        ),
    ];
    for (outcome, failure, diagnostic) in cases {
        let mut events = set_up();
        events.push(Event::Spawned(Ok(())));
        events.push(Event::Read(None));
        events.push(Event::Waited(outcome));
        let (launcher, actions) = feed(Launcher::new(invocation()), events);
        assert_eq!(actions.last(), Some(&exit(Termination::Failed(failure), diagnostic)));
        assert!(launcher.is_done());
    }
}

#[test]
fn finished_launcher_expects_nothing() {
    let events = vec![Event::Started, Event::ConfigRead(ReadOutcome::Failed("permission denied".to_string()))];
    let (launcher, _) = feed(Launcher::new(invocation()), events);
    assert!(!launcher.expects(&Event::Started));
    assert!(!launcher.expects(&Event::ConfigRead(ReadOutcome::NotFound)));
    assert!(!launcher.expects(&Event::ConfigCreated(Ok(()))));
    assert!(!launcher.expects(&Event::Clock(None)));
    assert!(!launcher.expects(&Event::LogCreated(Ok(()))));
    assert!(!launcher.expects(&Event::HeaderWritten(Ok(()))));
    assert!(!launcher.expects(&Event::Spawned(Ok(()))));
    assert!(!launcher.expects(&Event::Read(None)));
    assert!(!launcher.expects(&Event::LogWritten(Ok(()))));
    assert!(!launcher.expects(&Event::StdoutWritten(Ok(()))));
    assert!(!launcher.expects(&Event::Waited(WaitOutcome::Failed("no child".to_string()))));
}

#[test]
fn invocation_without_arguments_forwards_none() {
    let (_, actions) = feed(Launcher::new(vec!["exe-proxy".to_string()]), set_up());
    assert_eq!(actions[3], Action::WriteHeader("exe-proxy:\n".to_string()));
    assert_eq!(actions[4], Action::Spawn { program: "/bin/echo".to_string(), args: Vec::new() });
}

#[test]
fn unexpected_event_leaves_the_launcher_as_it_was() {
    let launcher = Launcher::new(invocation());
    let launcher = match launcher.try_step(Event::Spawned(Ok(()))) {
        Err(same) => same,
        Ok((_, action)) => panic!("{action:?}"),
    };
    assert_eq!(launcher.phase(), Phase::Start);
    let (launcher, action) = match launcher.try_step(Event::Started) {
        Ok(stepped) => stepped,
        Err(_) => panic!("the first event was refused"),
    };
    assert_eq!(action, Action::ReadConfig);
    assert_eq!(launcher.phase(), Phase::Config);
    let launcher = match launcher.try_step(Event::Started) {
        Err(same) => same,
        Ok((_, action)) => panic!("{action:?}"),
    };
    assert_eq!(launcher.phase(), Phase::Config);
}

#[test]
fn try_step_runs_a_whole_run() {
    let mut events = set_up();
    events.push(Event::Spawned(Ok(())));
    events.push(Event::Read(Some(b"hi".to_vec())));
    events.push(Event::LogWritten(Ok(())));
    events.push(Event::StdoutWritten(Ok(())));
    events.push(Event::Read(Some(Vec::new())));
    events.push(Event::Waited(WaitOutcome::Status(5)));
    let mut launcher = Launcher::new(invocation());
    let mut last = None;
    for event in events {
        match launcher.try_step(event) {
            Ok((next, action)) => {
                launcher = next;
                last = Some(action);
            }
            Err(_) => panic!("an expected event was refused"),
        }
    }
    assert!(launcher.is_done());
    assert_eq!(last, Some(exit(Termination::Exited(5), None)));
}
