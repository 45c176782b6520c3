use fadb_desktop::domain::{
    BackendCommand, BackendEvent, DeviceDescriptor, DeviceRecord, DeviceSerial, DeviceState,
    ShellSessionId, MAX_SHELL_INPUT_BYTES,
};
use fadb_desktop::i18n::{text, Language};
use fadb_desktop::screen::{cell_text, contents, new_terminal, process};
use fadb_desktop::shell::{
    screen_text, status_label, ShellPanelState, ShellStatus, SCROLLBACK_ROWS, TERMINAL_COLUMNS,
};
use fadb_desktop::terminal::{
    append_terminal_input, append_text_input, event_has_line_ending, key_bytes, terminal_input,
    KeyModifiers, TerminalEvent, TerminalKey,
};

fn state_with_output(bytes: &[u8]) -> ShellPanelState {
    let mut state = ShellPanelState::default();
    state.process_output(bytes);
    state
}

fn online_record() -> DeviceRecord {
    DeviceRecord {
        descriptor: DeviceDescriptor {
            serial: DeviceSerial::new("emulator-5554").expect("valid serial"),
            state: DeviceState::Online,
            product: None,
            model: None,
            device: None,
            transport_id: None,
        },
        generation: 1,
    }
}

#[test]
fn auto_connect_fires_only_from_pristine_state_with_online_device() {
    let mut state = ShellPanelState::default();
    let record = online_record();
    // Nothing selected yet: the session has no target to open on.
    assert!(state.auto_connect(Some(&record)).is_none());
    // After the target reconciles, the pristine state connects once.
    state.reconcile_target(Some(&record));
    let command = state.auto_connect(Some(&record)).expect("auto connect");
    assert!(matches!(command, BackendCommand::OpenShell { .. }));
    // Connecting or connected: no duplicate session.
    assert!(state.auto_connect(Some(&record)).is_none());
    // A device that is not online is never auto-connected.
    let mut state = ShellPanelState::default();
    state.reconcile_target(Some(&record));
    let mut offline = online_record();
    offline.descriptor.state = DeviceState::Unauthorized;
    assert!(state.auto_connect(Some(&offline)).is_none());
}

#[test]
fn selection_text_extracts_grid_range() {
    let mut state = state_with_output(b"hello world\r\nsecond line");
    state.selection = Some(((0, 0), (0, 4)));
    assert_eq!(state.selection_text(), Some("hello".to_owned()));
    state.selection = Some(((0, 6), (1, 5)));
    assert_eq!(state.selection_text(), Some("world\nsecond".to_owned()));
    state.selection = Some(((1, 0), (1, 79)));
    assert_eq!(state.selection_text(), Some("second line".to_owned()));
}

#[test]
fn ordered_selection_normalizes_drag_direction() {
    let mut state = ShellPanelState {
        selection: Some(((3, 10), (1, 2))),
        ..ShellPanelState::default()
    };
    assert_eq!(state.ordered_selection(), Some(((1, 2), (3, 10))));
    state.selection = None;
    assert_eq!(state.ordered_selection(), None);
}

#[test]
fn paste_payload_respects_bracketed_paste_mode() {
    let state = state_with_output(b"");
    assert_eq!(state.paste_payload("ls"), b"ls".to_vec());
    let state = state_with_output(b"\x1b[?2004h");
    assert_eq!(state.paste_payload("ls"), b"\x1b[200~ls\x1b[201~".to_vec());
}

#[test]
fn control_keys_are_encoded() {
    assert_eq!(
        key_bytes(TerminalKey::C, KeyModifiers::ctrl_only(), false),
        Some(vec![3])
    );
    assert_eq!(
        key_bytes(TerminalKey::ArrowUp, KeyModifiers::none(), true),
        Some(b"\x1bOA".to_vec())
    );
    assert_eq!(
        key_bytes(TerminalKey::Enter, KeyModifiers::none(), false),
        Some(b"\n".to_vec())
    );
}

#[test]
fn terminal_input_batches_and_preserves_order() {
    let mut output = Vec::new();
    append_terminal_input(&mut output, b"hello");
    append_terminal_input(&mut output, b"\r");
    assert_eq!(output, [b"hello\r".to_vec()]);
}

#[test]
fn text_input_normalizes_crlf_to_one_line_ending() {
    let mut output = Vec::new();
    append_text_input(&mut output, "echo ready\r\n");

    assert_eq!(output, [b"echo ready\n".to_vec()]);
}

#[test]
fn only_text_events_with_line_endings_suppress_enter_key_events() {
    assert!(event_has_line_ending(&TerminalEvent::Text("\r".to_owned())));
    assert!(!event_has_line_ending(&TerminalEvent::Text(
        "echo ready".to_owned()
    )));
}

#[test]
fn terminal_input_splits_at_domain_limit() {
    let input = vec![b'x'; MAX_SHELL_INPUT_BYTES + 7];
    let mut output = Vec::new();
    append_terminal_input(&mut output, &input);
    assert_eq!(output.len(), 2);
    assert_eq!(output[0].len(), MAX_SHELL_INPUT_BYTES);
    assert_eq!(output[1], vec![b'x'; 7]);
}

#[test]
fn vt100_parser_handles_fragmented_ansi() {
    let mut state = ShellPanelState::default();
    state.process_output(b"\x1b[3");
    state.process_output(b"1mred\x1b[0m");
    assert!(contents(&state.terminal).contains("red"));
}

#[test]
fn blank_screen_hints_only_before_the_first_session() {
    let terminal = new_terminal(4, TERMINAL_COLUMNS, SCROLLBACK_ROWS);
    // Never connected: the start-up guidance shows.
    assert_eq!(
        screen_text(Language::Chinese, &terminal, true),
        text(Language::Chinese, "shell_empty_hint")
    );
    // Connected (清屏 or fresh session): the terminal stays blank.
    assert_eq!(screen_text(Language::Chinese, &terminal, false), "");
    // Output wins over both flags.
    let mut with_output = new_terminal(4, TERMINAL_COLUMNS, SCROLLBACK_ROWS);
    process(&mut with_output, b"hello");
    assert_eq!(
        screen_text(Language::Chinese, &with_output, false),
        "hello"
    );
}

#[test]
fn a_frame_of_events_becomes_ordered_writes() {
    let events = vec![
        TerminalEvent::Text("ls\r".to_owned()),
        TerminalEvent::Key {
            key: TerminalKey::Enter,
            pressed: true,
            modifiers: KeyModifiers::none(),
        },
        TerminalEvent::Copy,
        TerminalEvent::Key {
            key: TerminalKey::ArrowLeft,
            pressed: true,
            modifiers: KeyModifiers::none(),
        },
        TerminalEvent::Key {
            key: TerminalKey::Tab,
            pressed: false,
            modifiers: KeyModifiers::none(),
        },
        TerminalEvent::Paste("pwd".to_owned()),
        TerminalEvent::Cut,
    ];
    let writes = terminal_input(&events, true, false);
    assert_eq!(
        writes,
        vec![b"ls\n\x03\x1b[D\x1b[200~pwd\x1b[201~\x18".to_vec()]
    );
    // Without a line ending in the text, Enter is sent on its own.
    let events = vec![
        TerminalEvent::Text("ls".to_owned()),
        TerminalEvent::Key {
            key: TerminalKey::Enter,
            pressed: true,
            modifiers: KeyModifiers::none(),
        },
    ];
    assert_eq!(terminal_input(&events, false, false), vec![b"ls\n".to_vec()]);
    assert!(terminal_input(&[], false, false).is_empty());
}

#[test]
fn writes_need_a_session_and_a_bounded_payload() {
    let mut state = ShellPanelState::default();
    assert!(state.write(b"ls".to_vec()).is_none());
    state.reconcile_target(Some(&online_record()));
    let BackendCommand::OpenShell { session_id, .. } = state.connect().expect("connect") else {
        panic!("expected an open command");
    };
    state.handle_event(&BackendEvent::ShellOpened {
        target: online_record().target(),
        session_id,
    });
    assert!(state.connected());
    assert!(state.write(Vec::new()).is_none());
    assert!(state.write(vec![b'x'; MAX_SHELL_INPUT_BYTES + 1]).is_none());
    assert!(matches!(
        state.write(b"ls".to_vec()),
        Some(BackendCommand::WriteShell { .. })
    ));
    assert!(matches!(state.close(), Some(BackendCommand::CloseShell(id)) if id == session_id));
    assert_eq!(state.status, ShellStatus::Closing);
}

#[test]
fn status_labels_are_translated() {
    assert_eq!(
        status_label(Language::Chinese, ShellStatus::Connected),
        text(Language::Chinese, "shell_status_connected")
    );
    assert!(!status_label(Language::English, ShellStatus::Failed).is_empty());
}

#[test]
fn screen_contents_follow_the_output() {
    let state = state_with_output(b"abc\r\ndef");
    assert_eq!(contents(&state.terminal), "abc\ndef");
}

#[test]
fn typed_control_characters_are_dropped() {
    let mut output = Vec::new();
    append_text_input(&mut output, "a\u{7}b\r\n\r\nc");
    assert_eq!(output, [b"ab\nc".to_vec()]);
}

#[test]
fn typed_text_is_sent_as_utf8() {
    let mut output = Vec::new();
    append_text_input(&mut output, "ls 文件");
    assert_eq!(output, ["ls 文件".as_bytes().to_vec()]);
}

#[test]
fn output_for_the_live_session_reaches_the_screen() {
    let mut state = ShellPanelState::default();
    state.session_id = Some(ShellSessionId(7));
    state.handle_event(&BackendEvent::ShellOutput {
        session_id: ShellSessionId(7),
        bytes: b"ok".to_vec(),
    });
    state.handle_event(&BackendEvent::ShellOutput {
        session_id: ShellSessionId(8),
        bytes: b"stale".to_vec(),
    });
    assert_eq!(contents(&state.terminal), "ok");
}

#[test]
fn resizing_keeps_the_screen_text() {
    let mut state = ShellPanelState::default();
    state.process_output(b"top\r\nsecond");
    state.resize_viewport(40);
    assert_eq!(cell_text(&state.terminal, 0, 0).as_deref(), Some("t"));
    assert_eq!(cell_text(&state.terminal, 1, 5).as_deref(), Some("d"));
    assert_eq!(cell_text(&state.terminal, 39, 0).as_deref(), Some(""));
    assert_eq!(cell_text(&state.terminal, 40, 0), None);
    state.resize_viewport(2);
    assert_eq!(cell_text(&state.terminal, 0, 2).as_deref(), Some("p"));
    assert_eq!(cell_text(&state.terminal, 2, 0), None);
}

#[test]
fn clearing_blanks_the_screen() {
    let mut state = ShellPanelState::default();
    state.process_output(b"busy\x1b[?1h");
    state.clear_display();
    assert_eq!(contents(&state.terminal), "");
    assert_eq!(cell_text(&state.terminal, 0, 0).as_deref(), Some(""));
    assert!(!fadb_desktop::screen::application_cursor(&state.terminal));
}
