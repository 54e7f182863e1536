use cargo_valgrind::report::{ErrorRecord, Frame, Kind, Report, Resources};
use cargo_valgrind::session::{valgrind_args, Action, AnalysisError, Event, Session, SocketAddress};

fn leaky_report() -> Report {
    Report {
        errors: vec![ErrorRecord {
            unique: 7,
            kind: Kind::LeakDefinitelyLost,
            resources: Resources { bytes: 40, blocks: 1 },
            stack_trace: vec![Frame {
                instruction_pointer: 1,
                object: None,
                directory: None,
                function: Some("leaky".to_string()),
                file: Some("main.c".to_string()),
                line: Some(12),
            }],
        }],
    }
}

fn address() -> SocketAddress {
    SocketAddress { octets: (127, 0, 0, 1), port: 40123 }
}

/// Drives a session up to the point where the child is being waited for.
fn started(path: &str) -> Session {
    let (mut s, first) = Session::new(path.to_string());
    assert!(matches!(first, Action::Bind(a) if a == SocketAddress { octets: (127, 0, 0, 1), port: 0 }));
    assert!(matches!(s.step(Event::Bound), Action::ResolveAddress));
    match s.step(Event::Resolved(address())) {
        Action::Spawn { program, args } => {
            assert_eq!(program, "valgrind");
            assert_eq!(args, valgrind_args(address(), path));
        }
        _ => panic!("expected a spawn"),
    }
    assert!(matches!(s.step(Event::Spawned), Action::Accept));
    assert!(matches!(s.step(Event::Accepted), Action::Wait));
    s
}

#[test]
fn arguments_for_valgrind() {
    let args = valgrind_args(address(), "target/debug/app");
    assert_eq!(
        args,
        vec![
            "--leak-check=full".to_string(),
            "--show-leak-kinds=all".to_string(),
            "--xml=yes".to_string(),
            "--xml-socket=127.0.0.1:40123".to_string(),
            "target/debug/app".to_string(),
        ]
    );
}

#[test]
fn successful_run_yields_leaks() {
    let mut s = started("./a.out");
    assert!(matches!(s.step(Event::Exited { success: true, stderr: String::new() }), Action::Parse));
    match s.step(Event::Parsed(leaky_report())) {
        Action::Finish(Ok(leaks)) => {
            assert_eq!(leaks.len(), 1);
            assert_eq!(leaks[0].leaked_bytes(), 40);
            assert_eq!(leaks[0].back_trace()[0].to_string(), "leaky (main.c:12)");
        }
        _ => panic!("expected leaks"),
    }
}

#[test]
fn leak_free_run_is_empty_and_ok() {
    let mut s = started("./clean");
    assert!(matches!(s.step(Event::Exited { success: true, stderr: String::new() }), Action::Parse));
    match s.step(Event::Parsed(Report { errors: vec![] })) {
        Action::Finish(Ok(leaks)) => assert!(leaks.is_empty()),
        _ => panic!("expected an empty list"),
    }
}

#[test]
fn failing_tool_is_a_tool_failure() {
    let mut s = started("./missing");
    let a = s.step(Event::Exited {
        success: false,
        stderr: "error: valgrind: ./missing: No such file or directory\n".to_string(),
    });
    match a {
        Action::Finish(Err(e)) => assert_eq!(
            e,
            AnalysisError::Tool("valgrind: ./missing: No such file or directory".to_string())
        ),
        _ => panic!("expected a tool failure"),
    }
    assert!(!s.accepts(&Event::Parsed(leaky_report())));
}

#[test]
fn malformed_report_fails() {
    let mut s = started("./a.out");
    assert!(matches!(s.step(Event::Exited { success: true, stderr: String::new() }), Action::Parse));
    match s.step(Event::ParseFailed("unexpected end of stream".to_string())) {
        Action::Finish(Err(e)) => {
            assert_eq!(e, AnalysisError::Malformed("unexpected end of stream".to_string()))
        }
        _ => panic!("expected a malformed report"),
    }
}

#[test]
fn broken_connection_is_a_transport_failure() {
    let mut s = started("./a.out");
    assert!(matches!(s.step(Event::Exited { success: true, stderr: String::new() }), Action::Parse));
    match s.step(Event::ReadFailed("connection reset".to_string())) {
        Action::Finish(Err(e)) => assert_eq!(e, AnalysisError::Transport("connection reset".to_string())),
        _ => panic!("expected a transport failure"),
    }
}

#[test]
fn failed_accept_still_waits_for_the_child() {
    let (mut s, _) = Session::new("./a.out".to_string());
    s.step(Event::Bound);
    s.step(Event::Resolved(address()));
    s.step(Event::Spawned);
    assert!(matches!(s.step(Event::AcceptFailed("refused".to_string())), Action::Wait));
    match s.step(Event::Exited { success: true, stderr: String::new() }) {
        Action::Finish(Err(e)) => assert_eq!(e, AnalysisError::Accept("refused".to_string())),
        _ => panic!("expected an accept failure"),
    }
}

#[test]
fn launch_failures_are_distinct() {
    let (mut s, _) = Session::new("./a.out".to_string());
    match s.step(Event::BindFailed("in use".to_string())) {
        Action::Finish(Err(e)) => assert_eq!(e, AnalysisError::Bind("in use".to_string())),
        _ => panic!("expected a bind failure"),
    }
    let (mut s, _) = Session::new("./a.out".to_string());
    s.step(Event::Bound);
    match s.step(Event::AddressFailed("no address".to_string())) {
        Action::Finish(Err(e)) => assert_eq!(e, AnalysisError::Address("no address".to_string())),
        _ => panic!("expected an address failure"),
    }
    let (mut s, _) = Session::new("./a.out".to_string());
    s.step(Event::Bound);
    s.step(Event::Resolved(address()));
    match s.step(Event::SpawnFailed("not found".to_string())) {
        Action::Finish(Err(e)) => assert_eq!(e, AnalysisError::Spawn("not found".to_string())),
        _ => panic!("expected a spawn failure"),
    }
    let mut s = started("./a.out");
    match s.step(Event::WaitFailed("interrupted".to_string())) {
        Action::Finish(Err(e)) => assert_eq!(e, AnalysisError::Wait("interrupted".to_string())),
        _ => panic!("expected a wait failure"),
    }
}

#[test]
fn session_accepts_only_answers_to_its_action() {
    let (s, _) = Session::new("./a.out".to_string());
    assert!(s.accepts(&Event::Bound));
    assert!(!s.accepts(&Event::Spawned));
    assert!(!s.accepts(&Event::Parsed(Report { errors: vec![] })));
}
