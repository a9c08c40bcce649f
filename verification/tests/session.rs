use external_editor::session::{
    build_launch_arguments, EditSession, LaunchArgument, Phase, SessionAction, SessionError,
    SessionEvent,
};
use std::io::{Error, ErrorKind};

fn words(list: &[&str]) -> Vec<String> {
    list.iter().map(|word| word.to_string()).collect()
}

fn exited(success: bool, status: &str) -> SessionEvent {
    SessionEvent::Exited { success, status: status.to_string() }
}

/// A session for `command`, brought up to the phase in which the editor runs.
fn launched(command: &[&str]) -> EditSession {
    let (mut session, _) = EditSession::start("seed".to_string(), words(command));
    session.step(SessionEvent::Staged);
    session.step(SessionEvent::Launched);
    assert_eq!(session.phase(), Phase::Launched);
    session
}

#[test]
fn run_editor_returns_updated_content() {
    let cmd = vec!["/tmp/edit.sh".to_string()];
    let (mut session, first) = EditSession::start("seed".to_string(), cmd);
    match first {
        SessionAction::Stage { suffix, contents } => {
            assert_eq!(suffix, ".md");
            assert_eq!(contents, "seed");
        }
        other => panic!("expected Stage, got {:?}", other),
    }
    match session.step(SessionEvent::Staged) {
        SessionAction::Launch { program, arguments } => {
            assert_eq!(program, "/tmp/edit.sh");
            assert_eq!(arguments, vec![LaunchArgument::StagedFile]);
        }
        other => panic!("expected Launch, got {:?}", other),
    }
    assert!(matches!(session.step(SessionEvent::Launched), SessionAction::Wait));
    assert!(matches!(session.step(exited(true, "exit status: 0")), SessionAction::Collect));
    match session.step(SessionEvent::Collected("edited".to_string())) {
        SessionAction::Finish(result) => assert_eq!(result.unwrap(), "edited".to_string()),
        other => panic!("expected Finish, got {:?}", other),
    }
    assert_eq!(session.phase(), Phase::Done);
}

#[test]
fn session_passes_through_every_phase() {
    let (mut session, _) = EditSession::start(String::new(), words(&["vi"]));
    assert_eq!(session.phase(), Phase::Created);
    session.step(SessionEvent::Staged);
    assert_eq!(session.phase(), Phase::Staged);
    session.step(SessionEvent::Launched);
    assert_eq!(session.phase(), Phase::Launched);
    session.step(exited(true, "exit status: 0"));
    assert_eq!(session.phase(), Phase::Exited);
    session.step(SessionEvent::Collected(String::new()));
    assert_eq!(session.phase(), Phase::Done);
}

#[test]
fn session_stages_an_empty_seed() {
    let (_, first) = EditSession::start(String::new(), words(&["vi"]));
    match first {
        SessionAction::Stage { suffix, contents } => {
            assert_eq!(suffix, ".md");
            assert_eq!(contents, "");
        }
        other => panic!("expected Stage, got {:?}", other),
    }
}

#[test]
fn session_returns_empty_text_when_file_left_empty() {
    let mut session = launched(&["/tmp/truncate.sh"]);
    assert!(matches!(session.step(exited(true, "exit status: 0")), SessionAction::Collect));
    match session.step(SessionEvent::Collected(String::new())) {
        SessionAction::Finish(Ok(text)) => assert_eq!(text, ""),
        other => panic!("expected an empty text, got {:?}", other),
    }
    assert_eq!(session.phase(), Phase::Done);
}

#[test]
fn session_keeps_collected_text_verbatim() {
    let mut session = launched(&["vi"]);
    session.step(exited(true, "exit status: 0"));
    match session.step(SessionEvent::Collected("  line one\n\nline two \n".to_string())) {
        SessionAction::Finish(Ok(text)) => assert_eq!(text, "  line one\n\nline two \n"),
        other => panic!("expected the text, got {:?}", other),
    }
}

#[test]
fn session_fails_at_once_on_empty_command() {
    let (session, first) = EditSession::start("seed".to_string(), Vec::new());
    assert!(matches!(first, SessionAction::Finish(Err(SessionError::EmptyCommand))));
    assert_eq!(session.phase(), Phase::Failed);
}

#[test]
fn session_launches_program_with_words_then_staged_file() {
    let (mut session, _) = EditSession::start("seed".to_string(), words(&["prog", "--flag", "a b"]));
    match session.step(SessionEvent::Staged) {
        SessionAction::Launch { program, arguments } => {
            assert_eq!(program, "prog");
            assert_eq!(
                arguments,
                vec![
                    LaunchArgument::Word("--flag".to_string()),
                    LaunchArgument::Word("a b".to_string()),
                    LaunchArgument::StagedFile,
                ]
            );
        }
        other => panic!("expected Launch, got {:?}", other),
    }
}

#[test]
fn build_launch_arguments_appends_staged_file_last() {
    assert_eq!(build_launch_arguments(&words(&["vi"])), vec![LaunchArgument::StagedFile]);
    assert_eq!(
        build_launch_arguments(&words(&["code", "--wait"])),
        vec![LaunchArgument::Word("--wait".to_string()), LaunchArgument::StagedFile]
    );
    assert_eq!(
        build_launch_arguments(&words(&["e", "", "x"])),
        vec![
            LaunchArgument::Word(String::new()),
            LaunchArgument::Word("x".to_string()),
            LaunchArgument::StagedFile,
        ]
    );
}

#[test]
fn build_launch_arguments_of_no_words() {
    assert_eq!(build_launch_arguments(&Vec::new()), vec![LaunchArgument::StagedFile]);
}

#[test]
fn session_reports_spawn_failure() {
    let (mut session, _) = EditSession::start("seed".to_string(), words(&["/no/such/editor"]));
    session.step(SessionEvent::Staged);
    let cause = Error::new(ErrorKind::NotFound, "no such file or directory");
    match session.step(SessionEvent::Failed(cause)) {
        SessionAction::Finish(Err(SessionError::Spawn(cause))) => {
            assert_eq!(cause.kind(), ErrorKind::NotFound);
            assert_eq!(cause.to_string(), "no such file or directory");
        }
        other => panic!("expected a spawn error, got {:?}", other),
    }
    assert_eq!(session.phase(), Phase::Failed);
}

#[test]
fn session_reports_stage_failure_as_io() {
    let (mut session, _) = EditSession::start("seed".to_string(), words(&["vi"]));
    let cause = Error::new(ErrorKind::PermissionDenied, "read-only file system");
    match session.step(SessionEvent::Failed(cause)) {
        SessionAction::Finish(Err(SessionError::Io(cause))) => {
            assert_eq!(cause.kind(), ErrorKind::PermissionDenied);
            assert_eq!(cause.to_string(), "read-only file system");
        }
        other => panic!("expected an I/O error, got {:?}", other),
    }
    assert_eq!(session.phase(), Phase::Failed);
}

#[test]
fn session_reports_wait_failure_as_io() {
    let mut session = launched(&["vi"]);
    let cause = Error::new(ErrorKind::Interrupted, "interrupted");
    match session.step(SessionEvent::Failed(cause)) {
        SessionAction::Finish(Err(SessionError::Io(cause))) => {
            assert_eq!(cause.kind(), ErrorKind::Interrupted)
        }
        other => panic!("expected an I/O error, got {:?}", other),
    }
    assert_eq!(session.phase(), Phase::Failed);
}

#[test]
fn session_reports_read_failure_as_io() {
    let mut session = launched(&["vi"]);
    session.step(exited(true, "exit status: 0"));
    let cause = Error::new(ErrorKind::NotFound, "file was deleted");
    match session.step(SessionEvent::Failed(cause)) {
        SessionAction::Finish(Err(SessionError::Io(cause))) => {
            assert_eq!(cause.kind(), ErrorKind::NotFound);
            assert_eq!(cause.to_string(), "file was deleted");
        }
        other => panic!("expected an I/O error, got {:?}", other),
    }
    assert_eq!(session.phase(), Phase::Failed);
}

#[test]
fn session_fails_on_unsuccessful_exit_without_collecting() {
    let mut session = launched(&["false"]);
    match session.step(exited(false, "exit status: 1")) {
        SessionAction::Finish(Err(SessionError::NonSuccessExit { status })) => {
            assert_eq!(status, "exit status: 1")
        }
        other => panic!("expected a non-success exit, got {:?}", other),
    }
    assert_eq!(session.phase(), Phase::Failed);
    assert!(matches!(
        session.step(SessionEvent::Collected("edited".to_string())),
        SessionAction::Finish(Err(SessionError::UnexpectedEvent))
    ));
    assert_eq!(session.phase(), Phase::Failed);
}

#[test]
fn session_ignores_status_text_of_successful_exit() {
    let mut session = launched(&["vi"]);
    assert!(matches!(session.step(exited(true, "")), SessionAction::Collect));
    assert_eq!(session.phase(), Phase::Exited);
}

#[test]
fn session_fails_on_event_out_of_turn() {
    let (mut session, _) = EditSession::start("seed".to_string(), words(&["vi"]));
    assert!(matches!(
        session.step(SessionEvent::Launched),
        SessionAction::Finish(Err(SessionError::UnexpectedEvent))
    ));
    assert_eq!(session.phase(), Phase::Failed);

    let (mut session, _) = EditSession::start("seed".to_string(), words(&["vi"]));
    session.step(SessionEvent::Staged);
    assert!(matches!(
        session.step(SessionEvent::Collected("text".to_string())),
        SessionAction::Finish(Err(SessionError::UnexpectedEvent))
    ));
    assert_eq!(session.phase(), Phase::Failed);

    let mut session = launched(&["vi"]);
    assert!(matches!(
        session.step(SessionEvent::Staged),
        SessionAction::Finish(Err(SessionError::UnexpectedEvent))
    ));
    assert_eq!(session.phase(), Phase::Failed);

    let mut session = launched(&["vi"]);
    session.step(exited(true, "exit status: 0"));
    assert!(matches!(
        session.step(exited(true, "exit status: 0")),
        SessionAction::Finish(Err(SessionError::UnexpectedEvent))
    ));
    assert_eq!(session.phase(), Phase::Failed);
}

#[test]
fn ended_session_stays_as_it_is() {
    let mut session = launched(&["vi"]);
    session.step(exited(true, "exit status: 0"));
    session.step(SessionEvent::Collected("edited".to_string()));
    assert_eq!(session.phase(), Phase::Done);
    assert!(matches!(
        session.step(SessionEvent::Staged),
        SessionAction::Finish(Err(SessionError::UnexpectedEvent))
    ));
    assert_eq!(session.phase(), Phase::Done);
    let cause = Error::new(ErrorKind::Other, "late");
    assert!(matches!(
        session.step(SessionEvent::Failed(cause)),
        SessionAction::Finish(Err(SessionError::UnexpectedEvent))
    ));
    assert_eq!(session.phase(), Phase::Done);

    let (mut session, _) = EditSession::start("seed".to_string(), Vec::new());
    assert!(matches!(
        session.step(SessionEvent::Staged),
        SessionAction::Finish(Err(SessionError::UnexpectedEvent))
    ));
    assert_eq!(session.phase(), Phase::Failed);
}

#[test]
fn session_error_messages() {
    assert_eq!(
        SessionError::EmptyCommand.message(),
        Some("editor command is empty".to_string())
    );
    assert_eq!(
        SessionError::NonSuccessExit { status: "exit status: 1".to_string() }.message(),
        Some("editor exited with status exit status: 1".to_string())
    );
    assert_eq!(
        SessionError::NonSuccessExit { status: "signal: 9 (SIGKILL)".to_string() }.message(),
        Some("editor exited with status signal: 9 (SIGKILL)".to_string())
    );
    assert_eq!(
        SessionError::UnexpectedEvent.message(),
        Some("editor session was told of a step it had not asked for".to_string())
    );
    assert_eq!(SessionError::Io(Error::new(ErrorKind::Other, "disk full")).message(), None);
    assert_eq!(SessionError::Spawn(Error::new(ErrorKind::NotFound, "missing")).message(), None);
}
