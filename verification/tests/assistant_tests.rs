use fadb_desktop::assistant::{
    is_long_input, line_count_of, AiSettingsForm, AssistantAttachment, AssistantPanelState,
    LONG_INPUT_CHARS, LONG_INPUT_LINES,
};
use fadb_desktop::domain::{
    AiSettings, BackendCommand, BackendEvent, BridgeError, ErrorCode, OperationId,
};

#[test]
fn ai_settings_form_roundtrips_settings() {
    let settings = AiSettings {
        endpoint: " https://api.example.com/v1/ ".to_owned(),
        model: "demo".to_owned(),
        api_key: " key ".to_owned(),
        timeout_seconds: 45,
    };
    let form = AiSettingsForm::from_settings(Some(&settings));
    let restored = form.to_settings().expect("valid form");
    assert_eq!(restored.endpoint, "https://api.example.com/v1/");
    assert_eq!(restored.model, "demo");
    assert_eq!(restored.api_key, "key");
    assert_eq!(restored.timeout_seconds, 45);
    assert_eq!(
        AiSettingsForm::from_settings(Some(&restored)).to_settings(),
        Some(restored)
    );
}

#[test]
fn ai_settings_form_rejects_missing_endpoint_or_model() {
    let mut form = AiSettingsForm {
        model: "demo".to_owned(),
        ..AiSettingsForm::default()
    };
    assert!(form.to_settings().is_none());
    form.endpoint = "https://api.example.com/v1".to_owned();
    assert!(form.to_settings().is_some());
    form.model = String::new();
    assert!(form.to_settings().is_none());
}

#[test]
fn ai_settings_form_defaults_and_clamps_timeout() {
    let mut form = AiSettingsForm {
        endpoint: "https://e/v1".to_owned(),
        model: "m".to_owned(),
        ..AiSettingsForm::default()
    };
    assert_eq!(form.to_settings().unwrap().timeout_seconds, 30);
    form.timeout = "not-a-number".to_owned();
    assert_eq!(form.to_settings().unwrap().timeout_seconds, 30);
    form.timeout = "99999".to_owned();
    assert_eq!(form.to_settings().unwrap().timeout_seconds, 600);
}

#[test]
fn send_requires_non_empty_input_and_ready_provider() {
    let mut state = AssistantPanelState::default();
    assert!(state.send().is_none());
    state.ready = true;
    state.input = "  ".to_owned();
    assert!(state.send().is_none());
    state.input = "hello".to_owned();
    let command = state.send().expect("valid send");
    assert!(matches!(command, BackendCommand::SendAiChat { .. }));
    assert!(state.pending.is_some());
    // Cannot send again while pending.
    state.input = "again".to_owned();
    assert!(state.send().is_none());
}

#[test]
fn long_input_threshold_matches_chars_and_lines() {
    assert!(!is_long_input("short"));
    assert!(is_long_input(&"字".repeat(LONG_INPUT_CHARS)));
    assert!(!is_long_input(&"字".repeat(LONG_INPUT_CHARS - 1)));
    assert!(is_long_input(&vec!["line"; LONG_INPUT_LINES].join("\n")));
    assert!(!is_long_input(
        &vec!["line"; LONG_INPUT_LINES - 1].join("\n")
    ));
}

#[test]
fn short_input_sends_without_attachment() {
    let mut state = AssistantPanelState::default();
    state.ready = true;
    state.input = "hello".to_owned();
    let _ = state.send().expect("send");
    assert!(state.turns.last().expect("user turn").attachment.is_none());
}

#[test]
fn completed_event_appends_assistant_turn() {
    let request_id = OperationId::new();
    let mut state = AssistantPanelState {
        ready: true,
        pending: Some(request_id),
        ..Default::default()
    };
    state.handle_event(&BackendEvent::AiChatCompleted {
        request_id,
        reply: "hi".to_owned(),
    });
    assert!(state.pending.is_none());
    assert_eq!(
        state.turns.last().map(|turn| turn.text.as_str()),
        Some("hi")
    );
}

#[test]
fn unrelated_request_completions_are_ignored() {
    let mut state = AssistantPanelState {
        pending: Some(OperationId::new()),
        ..Default::default()
    };
    state.handle_event(&BackendEvent::AiChatCompleted {
        request_id: OperationId::new(),
        reply: "stale".to_owned(),
    });
    assert!(state.pending.is_some());
    assert!(state.turns.is_empty());
}

#[test]
fn sending_keeps_the_full_prompt_and_shows_the_trimmed_text() {
    let mut state = AssistantPanelState::default();
    state.ready = true;
    state.input = "  hello there \n".to_owned();
    let Some(BackendCommand::SendAiChat { request_id, prompt }) = state.send() else {
        panic!("expected a chat command");
    };
    assert_eq!(prompt, "  hello there \n");
    assert_eq!(state.pending, Some(request_id));
    assert!(state.input.is_empty());
    let turn = state.turns.last().expect("user turn");
    assert!(turn.from_user);
    assert_eq!(turn.text, "hello there");
}

#[test]
fn line_count_matches_str_lines() {
    for text in ["", "a", "a\n", "a\nb", "\n", "\n\n", "a\r\nb\r\n", "x\n\ny"] {
        assert_eq!(line_count_of(text), text.lines().count(), "{text:?}");
    }
}

#[test]
fn provider_events_drive_readiness_and_failures() {
    let mut state = AssistantPanelState::default();
    state.handle_event(&BackendEvent::AiReady {
        kind: "openai".to_owned(),
        model: "demo".to_owned(),
    });
    assert!(state.ready);
    assert_eq!(state.model.as_deref(), Some("demo"));
    state.handle_event(&BackendEvent::AiUnavailable {
        reason: "no key".to_owned(),
    });
    assert!(!state.ready);
    assert!(state.model.is_none());
    assert_eq!(state.unavailable_reason.as_deref(), Some("no key"));

    let request_id = OperationId::new();
    state.pending = Some(request_id);
    state.handle_event(&BackendEvent::AiChatFailed {
        request_id,
        error: BridgeError::new(ErrorCode::Internal, "ai.failed", "timeout"),
    });
    assert!(state.pending.is_none());
    assert_eq!(state.error.as_ref().map(|e| e.detail.as_str()), Some("timeout"));
}

#[test]
fn archives_attach_to_the_last_user_turn_only() {
    let mut state = AssistantPanelState::default();
    let attachment = AssistantAttachment {
        file_name: "assistant-1.txt".to_owned(),
        path: std::path::PathBuf::from("/tmp/assistant-1.txt"),
        lines: 100,
        chars: 500,
    };
    state.attach_archive(attachment.clone());
    assert!(state.turns.is_empty());
    state.ready = true;
    state.input = "hello".to_owned();
    state.send().expect("send");
    state.attach_archive(attachment);
    let turn = state.turns.last().expect("user turn");
    assert_eq!(
        turn.attachment.as_ref().map(|a| a.file_name.as_str()),
        Some("assistant-1.txt")
    );
}

#[test]
fn demo_transcript_alternates_speakers() {
    let mut state = AssistantPanelState::default();
    state.seed_demo_transcript();
    let speakers: Vec<bool> = state.turns.iter().map(|turn| turn.from_user).collect();
    assert_eq!(speakers, vec![true, false, true]);
    assert_eq!(state.turns[0].text, "帮我看看这台设备的基本情况");
}

#[test]
fn blank_form_for_missing_settings_and_timeout_text() {
    let form = AiSettingsForm::from_settings(None);
    assert_eq!(form, AiSettingsForm::default());
    let settings = AiSettings {
        endpoint: "e".to_owned(),
        model: "m".to_owned(),
        api_key: String::new(),
        timeout_seconds: 0,
    };
    let form = AiSettingsForm::from_settings(Some(&settings));
    assert_eq!(form.timeout, "0");
    // A zero timeout is raised to the minimum on save.
    assert_eq!(form.to_settings().unwrap().timeout_seconds, 1);
    let mut form = form;
    form.timeout = " +42 ".to_owned();
    assert_eq!(form.to_settings().unwrap().timeout_seconds, 42);
}
