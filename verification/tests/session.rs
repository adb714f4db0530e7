use editin::session::{
    compose_command, normalize_suffix, start_session, step, EditError, SessionAction,
    SessionEvent, SessionState,
};

#[test]
fn exit_error_message_names_the_code() {
    let e = EditError::EditorExit { code: Some(3) };
    assert_eq!(e.message(), "Editor failed with exit code: Some(3)");
    let e = EditError::EditorExit { code: Some(12345) };
    assert_eq!(e.message(), "Editor failed with exit code: Some(12345)");
    let e = EditError::EditorExit { code: Some(-7) };
    assert_eq!(e.message(), "Editor failed with exit code: Some(-7)");
    let e = EditError::EditorExit { code: None };
    assert_eq!(e.message(), "Editor failed with exit code: None");
}

#[test]
fn empty_result_message_matches_convention() {
    assert_eq!(EditError::EmptyResult.message(), "aborting due to empty message");
}

#[test]
fn normalized_suffix_prepends_separator() {
    assert_eq!(normalize_suffix("md"), ".md");
}

#[test]
fn normalized_suffix_keeps_existing_separator() {
    assert_eq!(normalize_suffix(".md"), ".md");
}

#[test]
fn normalized_suffix_of_empty_hint_is_bare_separator() {
    assert_eq!(normalize_suffix(""), ".");
}

#[test]
fn composed_command_joins_with_one_space() {
    assert_eq!(
        compose_command("code --wait", "/tmp/editin-a.txt"),
        "code --wait /tmp/editin-a.txt"
    );
}

#[test]
fn session_starts_with_prefixed_temp_file_request() {
    let (state, action) = start_session("hi".to_string(), "txt", "vim".to_string(), true);
    assert!(matches!(state, SessionState::Creating { .. }));
    match action {
        SessionAction::CreateTempFile { prefix, suffix } => {
            assert_eq!(prefix, "editin-");
            assert_eq!(suffix, ".txt");
        }
        other => panic!("unexpected action: {:?}", other),
    }
}

#[test]
fn round_trip_session_yields_edited_content() {
    // An editor simulated to append " world" to the seeded "hello".
    let (state, _) = start_session("hello".to_string(), "txt", "vim".to_string(), true);
    let (state, action) = step(
        state,
        SessionEvent::Created {
            path: "/tmp/editin-a.txt".to_string(),
        },
    )
    .unwrap();
    match &action {
        SessionAction::WriteInitial { content } => assert_eq!(content, "hello"),
        other => panic!("unexpected action: {:?}", other),
    }
    let (state, action) = step(state, SessionEvent::Written).unwrap();
    assert!(matches!(action, SessionAction::ResolvePath));
    let (state, action) = step(
        state,
        SessionEvent::PathResolved {
            absolute: Some("/tmp/editin-a.txt".to_string()),
        },
    )
    .unwrap();
    match &action {
        SessionAction::Launch { command, redirect } => {
            assert_eq!(command, "vim /tmp/editin-a.txt");
            assert!(!redirect);
        }
        other => panic!("unexpected action: {:?}", other),
    }
    let (state, action) = step(state, SessionEvent::Exited { code: Some(0) }).unwrap();
    assert!(matches!(action, SessionAction::ReadBack));
    let (state, action) = step(
        state,
        SessionEvent::ContentRead {
            text: "hello world".to_string(),
        },
    )
    .unwrap();
    assert!(matches!(action, SessionAction::RemoveFile));
    let (state, action) = step(state, SessionEvent::Removed).unwrap();
    assert!(matches!(action, SessionAction::Finish));
    match state {
        SessionState::Done { outcome } => assert_eq!(outcome.unwrap(), "hello world"),
        other => panic!("unexpected state: {:?}", other),
    }
}

#[test]
fn empty_edited_file_fails_with_empty_result() {
    let (state, _) = start_session("hello".to_string(), "txt", "vim".to_string(), true);
    let (state, _) = step(
        state,
        SessionEvent::Created {
            path: "/tmp/editin-b.txt".to_string(),
        },
    )
    .unwrap();
    let (state, _) = step(state, SessionEvent::Written).unwrap();
    let (state, _) = step(state, SessionEvent::PathResolved { absolute: None }).unwrap();
    let (state, _) = step(state, SessionEvent::Exited { code: Some(0) }).unwrap();
    let (state, action) = step(
        state,
        SessionEvent::ContentRead {
            text: "".to_string(),
        },
    )
    .unwrap();
    assert!(matches!(action, SessionAction::RemoveFile));
    let (state, _) = step(state, SessionEvent::Removed).unwrap();
    match state {
        SessionState::Done { outcome } => assert_eq!(outcome, Err(EditError::EmptyResult)),
        other => panic!("unexpected state: {:?}", other),
    }
}

#[test]
fn editor_exit_status_three_fails_with_code_three() {
    let (state, _) = start_session("hello".to_string(), "txt", "vim".to_string(), true);
    let (state, _) = step(
        state,
        SessionEvent::Created {
            path: "/tmp/editin-c.txt".to_string(),
        },
    )
    .unwrap();
    let (state, _) = step(state, SessionEvent::Written).unwrap();
    let (state, _) = step(state, SessionEvent::PathResolved { absolute: None }).unwrap();
    let (state, action) = step(state, SessionEvent::Exited { code: Some(3) }).unwrap();
    assert!(matches!(action, SessionAction::RemoveFile));
    let (state, _) = step(state, SessionEvent::Removed).unwrap();
    match state {
        SessionState::Done { outcome } => {
            assert_eq!(outcome, Err(EditError::EditorExit { code: Some(3) }));
        }
        other => panic!("unexpected state: {:?}", other),
    }
}

#[test]
fn signal_killed_editor_carries_unknown_code() {
    let (state, _) = start_session("".to_string(), "txt", "vim".to_string(), true);
    let (state, action) = step(
        state,
        SessionEvent::Created {
            path: "/tmp/editin-d.txt".to_string(),
        },
    )
    .unwrap();
    // An empty seed skips the write step entirely.
    assert!(matches!(action, SessionAction::ResolvePath));
    let (state, _) = step(state, SessionEvent::PathResolved { absolute: None }).unwrap();
    let (state, _) = step(state, SessionEvent::Exited { code: None }).unwrap();
    let (state, _) = step(state, SessionEvent::Removed).unwrap();
    match state {
        SessionState::Done { outcome } => {
            assert_eq!(outcome, Err(EditError::EditorExit { code: None }));
        }
        other => panic!("unexpected state: {:?}", other),
    }
}

#[test]
fn piped_stdout_routes_streams_through_terminal() {
    let (state, _) = start_session("x".to_string(), "md", "vi".to_string(), false);
    let (state, _) = step(
        state,
        SessionEvent::Created {
            path: "/tmp/editin-e.md".to_string(),
        },
    )
    .unwrap();
    let (state, _) = step(state, SessionEvent::Written).unwrap();
    let (state, action) = step(
        state,
        SessionEvent::PathResolved {
            absolute: Some("/private/tmp/editin-e.md".to_string()),
        },
    )
    .unwrap();
    assert!(matches!(action, SessionAction::OpenTerminal));
    let (state, action) = step(state, SessionEvent::TerminalOpened).unwrap();
    match &action {
        SessionAction::Launch { command, redirect } => {
            assert_eq!(command, "vi /private/tmp/editin-e.md");
            assert!(redirect);
        }
        other => panic!("unexpected action: {:?}", other),
    }
    let (state, _) = step(state, SessionEvent::Exited { code: Some(0) }).unwrap();
    let (state, _) = step(
        state,
        SessionEvent::ContentRead {
            text: "y".to_string(),
        },
    )
    .unwrap();
    let (state, _) = step(state, SessionEvent::Removed).unwrap();
    match state {
        SessionState::Done { outcome } => assert_eq!(outcome.unwrap(), "y"),
        other => panic!("unexpected state: {:?}", other),
    }
}

#[test]
fn terminal_open_failure_fails_session() {
    let (state, _) = start_session("x".to_string(), "txt", "vi".to_string(), false);
    let (state, _) = step(
        state,
        SessionEvent::Created {
            path: "/tmp/editin-f.txt".to_string(),
        },
    )
    .unwrap();
    let (state, _) = step(state, SessionEvent::Written).unwrap();
    let (state, _) = step(state, SessionEvent::PathResolved { absolute: None }).unwrap();
    let (state, action) = step(state, SessionEvent::TerminalFailed).unwrap();
    assert!(matches!(action, SessionAction::RemoveFile));
    let (state, _) = step(state, SessionEvent::Removed).unwrap();
    match state {
        SessionState::Done { outcome } => assert_eq!(outcome, Err(EditError::TerminalDevice)),
        other => panic!("unexpected state: {:?}", other),
    }
}

#[test]
fn create_failure_ends_session_without_file() {
    let (state, _) = start_session("x".to_string(), "txt", "vi".to_string(), true);
    let (state, action) = step(state, SessionEvent::CreateFailed).unwrap();
    assert!(matches!(action, SessionAction::Finish));
    match state {
        SessionState::Done { outcome } => assert_eq!(outcome, Err(EditError::TempFile)),
        other => panic!("unexpected state: {:?}", other),
    }
}

#[test]
fn write_failure_still_removes_file() {
    let (state, _) = start_session("x".to_string(), "txt", "vi".to_string(), true);
    let (state, _) = step(
        state,
        SessionEvent::Created {
            path: "/tmp/editin-g.txt".to_string(),
        },
    )
    .unwrap();
    let (state, action) = step(state, SessionEvent::WriteFailed).unwrap();
    assert!(matches!(action, SessionAction::RemoveFile));
    let (state, _) = step(state, SessionEvent::Removed).unwrap();
    match state {
        SessionState::Done { outcome } => assert_eq!(outcome, Err(EditError::TempFile)),
        other => panic!("unexpected state: {:?}", other),
    }
}

#[test]
fn launch_failure_still_removes_file() {
    let (state, _) = start_session("".to_string(), "txt", "vi".to_string(), true);
    let (state, _) = step(
        state,
        SessionEvent::Created {
            path: "/tmp/editin-h.txt".to_string(),
        },
    )
    .unwrap();
    let (state, _) = step(state, SessionEvent::PathResolved { absolute: None }).unwrap();
    let (state, action) = step(state, SessionEvent::LaunchFailed).unwrap();
    assert!(matches!(action, SessionAction::RemoveFile));
    let (state, _) = step(state, SessionEvent::Removed).unwrap();
    match state {
        SessionState::Done { outcome } => assert_eq!(outcome, Err(EditError::EditorLaunch)),
        other => panic!("unexpected state: {:?}", other),
    }
}

#[test]
fn read_failure_still_removes_file() {
    let (state, _) = start_session("".to_string(), "txt", "vi".to_string(), true);
    let (state, _) = step(
        state,
        SessionEvent::Created {
            path: "/tmp/editin-i.txt".to_string(),
        },
    )
    .unwrap();
    let (state, _) = step(state, SessionEvent::PathResolved { absolute: None }).unwrap();
    let (state, _) = step(state, SessionEvent::Exited { code: Some(0) }).unwrap();
    let (state, action) = step(state, SessionEvent::ReadFailed).unwrap();
    assert!(matches!(action, SessionAction::RemoveFile));
    let (state, _) = step(state, SessionEvent::Removed).unwrap();
    match state {
        SessionState::Done { outcome } => assert_eq!(outcome, Err(EditError::TempFile)),
        other => panic!("unexpected state: {:?}", other),
    }
}

#[test]
fn unanswered_event_is_rejected() {
    let (state, _) = start_session("x".to_string(), "txt", "vi".to_string(), true);
    assert!(step(state, SessionEvent::Written).is_none());
}

#[test]
fn fallback_path_is_used_when_resolution_fails() {
    let (state, _) = start_session("".to_string(), "txt", "vi".to_string(), true);
    let (state, _) = step(
        state,
        SessionEvent::Created {
            path: "/tmp/editin-j.txt".to_string(),
        },
    )
    .unwrap();
    let (_, action) = step(state, SessionEvent::PathResolved { absolute: None }).unwrap();
    match &action {
        SessionAction::Launch { command, .. } => assert_eq!(command, "vi /tmp/editin-j.txt"),
        other => panic!("unexpected action: {:?}", other),
    }
}
