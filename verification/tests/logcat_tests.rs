use fadb_desktop::domain::{
    BackendCommand, BackendEvent, DeviceSerial, DeviceTarget, LogcatSessionId,
};
use fadb_desktop::logcat::{
    auto_start, auto_start_after, selection_text, text_with_count, LogcatPanelState, MAX_LINES,
};
use fadb_desktop::i18n::Language;
use fadb_desktop::logline::{level_passes, line_passes_filters, selection_span, LogLine};

#[test]
fn parses_threadtime_lines() {
    let line = LogLine::parse(
        "08-29 10:00:01.100  1000  1001 I ActivityTaskManager: Displayed com.example/.Main",
    );
    assert_eq!(line.time, "08-29 10:00:01.100");
    assert_eq!(line.pid, "1000");
    assert_eq!(line.tid, "1001");
    assert_eq!(line.level, 'I');
    assert_eq!(line.tag, "ActivityTaskManager");
    assert_eq!(line.message, "Displayed com.example/.Main");
}

#[test]
fn keeps_unrecognized_lines_as_raw_rows() {
    let line = LogLine::parse("--------- beginning of main");
    assert_eq!(line.level, '?');
    assert_eq!(line.message, "--------- beginning of main");
}

#[test]
fn severity_orders_for_filtering() {
    assert_eq!(
        LogLine::parse("08-29 10:00:00.000 1 1 V T: m").severity_index(),
        Some(0)
    );
    assert_eq!(
        LogLine::parse("08-29 10:00:00.000 1 1 D T: m").severity_index(),
        Some(1)
    );
    assert_eq!(
        LogLine::parse("08-29 10:00:00.000 1 1 W T: m").severity_index(),
        Some(3)
    );
    assert_eq!(
        LogLine::parse("08-29 10:00:00.000 1 1 F T: m").severity_index(),
        Some(5)
    );
    assert_eq!(LogLine::parse("junk").severity_index(), None);
}

#[test]
fn ingest_splits_lines_and_respects_pause() {
    let mut state = LogcatPanelState::default();
    state.ingest(b"08-29 10:00:01.100 1 1 I Tag: hello\n08-29 10:00:01.200 1 1 W");
    assert_eq!(state.lines.len(), 1);
    assert_eq!(state.pending_bytes, b"08-29 10:00:01.200 1 1 W");
    state.ingest(b" Tag: partial\n");
    assert_eq!(state.lines.len(), 2);
    assert_eq!(state.lines[1].tag, "Tag");

    state.paused = true;
    state.ingest(b"08-29 10:00:01.300 1 1 E Tag: dropped\n");
    assert_eq!(state.lines.len(), 2);
}

#[test]
fn level_filter_minimum_severity_is_inclusive() {
    // Selecting W (dropdown index 4) keeps W, E and F, drops V/D/I.
    assert!(level_passes(4, Some(3)));
    assert!(level_passes(4, Some(4)));
    assert!(level_passes(4, Some(5)));
    assert!(!level_passes(4, Some(2)));
    // Selecting E keeps E and F.
    assert!(level_passes(5, Some(4)));
    assert!(!level_passes(5, Some(3)));
    // "All" keeps everything, including unparsed rows.
    assert!(level_passes(0, Some(0)));
    assert!(level_passes(0, None));
    // Unparsed rows only survive the unfiltered view.
    assert!(!level_passes(1, None));
}

#[test]
fn selection_span_orders_anchor_and_head() {
    assert_eq!(selection_span(None), None);
    assert_eq!(selection_span(Some((4, 2))), Some((2, 4)));
    assert_eq!(selection_span(Some((3, 3))), Some((3, 3)));
}

#[test]
fn selection_text_joins_formatted_rows() {
    let mut state = LogcatPanelState::default();
    state
        .lines
        .push(LogLine::parse("08-29 10:00:00.000 1 1 I A: one"));
    state.lines.push(LogLine::parse("junk"));
    state.selection = Some((1, 0));
    assert_eq!(
        selection_text(&state).as_deref(),
        Some("08-29 10:00:00.000 I/A 1: one\njunk\n")
    );
    state.selection = None;
    assert!(selection_text(&state).is_none());
}

#[test]
fn trimming_the_ring_drops_selections_touching_the_front() {
    let mut state = LogcatPanelState {
        selection: Some((5, 7)),
        ..Default::default()
    };
    state.shift_selection_after_trim(2);
    assert_eq!(state.selection, Some((3, 5)));
    state.shift_selection_after_trim(5);
    assert_eq!(state.selection, None);
}

#[test]
fn line_filter_combines_level_and_query() {
    let line = LogLine::parse("08-29 10:00:00.000 1 1 W Tag: boom");
    assert!(line_passes_filters(&line, 4, ""));
    assert!(!line_passes_filters(&line, 5, ""));
    assert!(line_passes_filters(&line, 4, "boo"));
    assert!(!line_passes_filters(&line, 4, "nope"));
    assert!(line_passes_filters(&LogLine::parse("junk"), 0, ""));
    assert!(!line_passes_filters(&LogLine::parse("junk"), 1, ""));
}

#[test]
fn auto_start_requires_online_target_and_backs_off() {
    let mut state = LogcatPanelState::default();
    assert!(auto_start(&mut state, false).is_empty());

    let target = DeviceTarget::new(DeviceSerial::new("emulator-5554").expect("serial"), 1);
    state.target = Some(target);
    let commands = auto_start(&mut state, true);
    assert_eq!(commands.len(), 1);
    // A session is already pending: no double start.
    assert!(auto_start(&mut state, true).is_empty());
    // The user pressed stop: auto-start stays suppressed.
    let mut stopped = LogcatPanelState {
        target: fadb_desktop::domain::duplicate_optional(&state.target),
        user_stopped: true,
        ..LogcatPanelState::default()
    };
    assert!(auto_start(&mut stopped, true).is_empty());
}

fn rows_of(state: &LogcatPanelState) -> Vec<String> {
    state.lines.iter().map(|line| line.format()).collect()
}

#[test]
fn ingest_does_not_depend_on_how_bytes_are_split() {
    let stream: &[u8] =
        b"08-29 10:00:01.100 1 1 I Tag: one\r\n08-29 10:00:01.200 1 1 W Tag: two\njunk\nrest";
    let mut whole = LogcatPanelState::default();
    whole.ingest(stream);
    for split in 0..stream.len() {
        let mut pieces = LogcatPanelState::default();
        pieces.ingest(&stream[..split]);
        pieces.ingest(&stream[split..]);
        assert_eq!(rows_of(&pieces), rows_of(&whole), "split at {split}");
        assert_eq!(pieces.pending_bytes, whole.pending_bytes);
    }
    assert_eq!(whole.lines.len(), 3);
    assert_eq!(whole.lines[0].message, "one");
    assert_eq!(whole.lines[2].message, "junk");
    assert_eq!(whole.pending_bytes, b"rest");
}

#[test]
fn the_ring_keeps_the_newest_lines_and_rebases_the_selection() {
    let mut state = LogcatPanelState::default();
    let mut bytes = Vec::new();
    for index in 0..MAX_LINES {
        bytes.extend_from_slice(format!("line {index}\n").as_bytes());
    }
    state.ingest(&bytes);
    assert_eq!(state.lines.len(), MAX_LINES);
    state.selection = Some((3, 10));
    state.ingest(b"one more\nand another\n");
    assert_eq!(state.lines.len(), MAX_LINES);
    assert_eq!(state.lines[0].message, "line 2");
    assert_eq!(state.lines[MAX_LINES - 1].message, "and another");
    assert_eq!(state.selection, Some((1, 8)));
    state.ingest(b"x\ny\n");
    assert_eq!(state.selection, None);
}

#[test]
fn exports_every_row_and_filters_visible_rows() {
    let mut state = LogcatPanelState::default();
    state.ingest(b"08-29 10:00:00.000 1 1 I A: one\n08-29 10:00:00.000 1 1 E B: two\njunk\n");
    assert_eq!(
        state.export_text(),
        "08-29 10:00:00.000 I/A 1: one\n08-29 10:00:00.000 E/B 1: two\njunk\n"
    );
    state.level_filter = 5;
    assert_eq!(state.filtered_text(), "08-29 10:00:00.000 E/B 1: two\n");
    state.rebuild_visible();
    assert_eq!(state.visible, vec![1]);
}

#[test]
fn stream_events_follow_the_session() {
    let mut state = LogcatPanelState::default();
    let target = DeviceTarget::new(DeviceSerial::new("emulator-5554").expect("serial"), 1);
    state.target = Some(target);
    let command = state.start_clicked().expect("start");
    let BackendCommand::StartLogcat { session_id, .. } = command else {
        panic!("expected a start command");
    };
    assert!(state.starting);
    state.handle_event(&BackendEvent::LogcatOutput {
        session_id: LogcatSessionId::new(),
        bytes: b"stale\n".to_vec(),
    });
    assert!(state.lines.is_empty());
    state.handle_event(&BackendEvent::LogcatOutput {
        session_id,
        bytes: b"fresh\n".to_vec(),
    });
    assert_eq!(state.lines.len(), 1);
    state.handle_event(&BackendEvent::LogcatClosed { session_id });
    assert!(!state.running && !state.starting);
    assert!(state.session.is_none());
}

#[test]
fn auto_start_backs_off_between_attempts() {
    let mut state = LogcatPanelState::default();
    state.target = Some(DeviceTarget::new(DeviceSerial::new("serial").expect("serial"), 1));
    assert!(auto_start_after(&mut state, true, Some(100)).is_empty());
    assert_eq!(auto_start_after(&mut state, true, Some(5000)).len(), 1);
}

#[test]
fn line_count_label_fills_both_numbers() {
    assert_eq!(
        text_with_count(Language::English, "logcat_line_count", 3, 10),
        "Showing 3 / 10 lines"
    );
    assert_eq!(
        text_with_count(Language::Chinese, "logcat_line_count", 0, 7),
        "显示 0 / 7 行"
    );
}

#[test]
fn queries_match_tags_and_messages_in_any_case() {
    let line = LogLine::parse("08-29 10:00:00.000 1 1 W NetworkStack: Socket CLOSED");
    assert!(line_passes_filters(&line, 0, "network"));
    assert!(line_passes_filters(&line, 0, "closed"));
    assert!(!line_passes_filters(&line, 0, "open"));
}

#[test]
fn invalid_utf8_is_kept_as_replacement_characters() {
    let mut state = LogcatPanelState::default();
    state.ingest(b"bad \xff byte\r\n");
    assert_eq!(state.lines.len(), 1);
    assert_eq!(state.lines[0].message, "bad \u{fffd} byte");
}
