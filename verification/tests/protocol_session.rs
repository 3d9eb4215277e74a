use aiu_desktop::protocol::{default_auto_reset_threshold, default_true, Account, Error, Event};
use aiu_desktop::session::{conclude, ExitReport, LineOutcome, Message, Session, Step};

fn hello(version: u8, capabilities: &[&str]) -> LineOutcome {
    LineOutcome::Decoded(Event::Hello {
        version,
        capabilities: capabilities.iter().map(|c| c.to_string()).collect(),
    })
}

fn failure_text(step: Step) -> String {
    match step {
        Step::Finish(Message::Failed(text)) => text,
        other => panic!("expected a failure, got {other:?}"),
    }
}

#[test]
fn missing_fields_take_their_documented_defaults() {
    assert!(default_true());
    assert_eq!(default_auto_reset_threshold(), 1);
}

#[test]
fn hello_with_the_command_and_cancel_opens_the_session() {
    let mut session = Session::new("status");
    assert!(matches!(session.observe(hello(1, &["status", "cancel"])), Step::Continue));
    assert!(session.saw_hello);
    let step = session.observe(LineOutcome::Decoded(Event::Progress {
        version: 1,
        phase: "working".into(),
        message: "fetching".into(),
    }));
    match step {
        Step::Forward(Message::Progress(text)) => assert_eq!(text, "fetching"),
        other => panic!("unexpected {other:?}"),
    }
    assert!(!session.finished);
}

#[test]
fn hello_without_the_command_is_refused() {
    let mut session = Session::new("reset");
    let step = session.observe(hello(1, &["status", "cancel"]));
    assert_eq!(failure_text(step), "backend lacks status capability");
    assert!(session.finished);
}

#[test]
fn hello_without_cancel_is_refused() {
    let mut session = Session::new("status");
    assert_eq!(failure_text(session.observe(hello(1, &["status"]))), "backend lacks status capability");
}

#[test]
fn a_second_hello_or_another_version_is_invalid() {
    let mut session = Session::new("status");
    assert_eq!(failure_text(session.observe(hello(2, &["status", "cancel"]))), "invalid backend hello");
    let mut session = Session::new("status");
    session.observe(hello(1, &["status", "cancel"]));
    assert_eq!(failure_text(session.observe(hello(1, &["status", "cancel"]))), "invalid backend hello");
}

#[test]
fn events_before_hello_are_unsupported() {
    let mut session = Session::new("status");
    let step = session.observe(LineOutcome::Decoded(Event::Progress {
        version: 1,
        phase: "working".into(),
        message: "early".into(),
    }));
    assert_eq!(failure_text(step), "unsupported backend protocol version");
}

#[test]
fn malformed_and_oversized_lines_end_the_session() {
    let mut session = Session::new("status");
    assert_eq!(failure_text(session.observe(LineOutcome::Malformed)), "invalid backend protocol response");
    let mut session = Session::new("status");
    assert_eq!(failure_text(session.observe(LineOutcome::Oversized)), "backend response exceeded limit");
}

#[test]
fn error_events_join_code_and_message() {
    let mut session = Session::new("switch");
    session.observe(hello(1, &["switch", "cancel"]));
    let step = session.observe(LineOutcome::Decoded(Event::ErrorResponse {
        version: 1,
        code: "invalid_input".into(),
        message: "no such account".into(),
    }));
    assert_eq!(failure_text(step), "invalid_input: no such account");
}

#[test]
fn results_carry_accounts_and_the_joined_error() {
    let mut session = Session::new("status");
    session.observe(hello(1, &["status", "cancel"]));
    let step = session.observe(LineOutcome::Decoded(Event::Result {
        version: 1,
        ok: false,
        cancelled: false,
        message: String::new(),
        accounts: None,
        error: Some(Error { code: "operation_failed".into(), message: "boom".into() }),
    }));
    match step {
        Step::Finish(Message::Result { ok, cancelled, accounts, error, .. }) => {
            assert!(!ok && !cancelled && accounts.is_none());
            assert_eq!(error.as_deref(), Some("operation_failed: boom"));
        }
        other => panic!("unexpected {other:?}"),
    }
    assert!(session.finished);
}

#[test]
fn an_agreeing_exit_keeps_the_result() {
    let result = Message::Result {
        ok: true,
        cancelled: false,
        message: "done".into(),
        accounts: Some(vec![Account::default()]),
        error: None,
    };
    let exit = Some(ExitReport { success: true, description: "exit status: 0".into() });
    match conclude(Some(result), exit) {
        Message::Result { ok, message, accounts, .. } => {
            assert!(ok);
            assert_eq!(message, "done");
            assert_eq!(accounts.map(|a| a.len()), Some(1));
        }
        other => panic!("unexpected {other:?}"),
    }
}

#[test]
fn a_disagreeing_exit_status_fails_the_operation() {
    let result = Message::Result { ok: true, cancelled: false, message: String::new(), accounts: None, error: None };
    let exit = Some(ExitReport { success: false, description: "exit status: 1".into() });
    match conclude(Some(result), exit) {
        Message::Failed(text) => assert_eq!(text, "backend exit status disagreed with result"),
        other => panic!("unexpected {other:?}"),
    }
    let failed = Message::Result { ok: false, cancelled: true, message: String::new(), accounts: None, error: None };
    match conclude(Some(failed), None) {
        Message::Result { ok, cancelled, .. } => assert!(!ok && cancelled),
        other => panic!("unexpected {other:?}"),
    }
}

#[test]
fn a_silent_exit_names_the_status() {
    let exit = Some(ExitReport { success: false, description: "exit status: 2".into() });
    match conclude(None, exit) {
        Message::Failed(text) => assert_eq!(text, "backend exited (exit status: 2)"),
        other => panic!("unexpected {other:?}"),
    }
    match conclude(None, None) {
        Message::Failed(text) => assert_eq!(text, "backend exited (unknown)"),
        other => panic!("unexpected {other:?}"),
    }
}
