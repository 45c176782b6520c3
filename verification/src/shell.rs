//! The interactive shell panel: the session state machine, the terminal
//! grid selection and the encoding of user input into shell writes.
use vstd::prelude::*;

use crate::domain::{
    same_optional, same_optional_target, same_target,
    BackendCommand, BackendEvent, BridgeError, DeviceRecord, DeviceState, DeviceTarget,
    ShellInput, ShellSessionId, ShellSize, MAX_SHELL_INPUT_BYTES,
};
use crate::i18n::{text, text_spec, Language};
use crate::screen::{
    application_cursor, application_cursor_mode, bracketed_paste, bracketed_paste_mode,
    blank_grid, cell_text, contents, fed, grid_columns, grid_shape, kept_or_blank, new_terminal, process, screen_cells, screen_contents,
    set_size, Terminal,
};
use crate::strings::{push_char, push_str, trim_end_spec, trimmed_end};
use crate::terminal::{
    any_line_ending, events_bytes, paste_bytes, paste_payload_bytes, terminal_input, written,
    TerminalEvent,
};

verus! {

/// Rows of a fresh terminal.
pub const INITIAL_TERMINAL_ROWS: u16 = 24;

/// Fixed terminal width.
pub const TERMINAL_COLUMNS: u16 = 80;

/// Scrollback kept by the terminal emulator.
pub const SCROLLBACK_ROWS: usize = 10_000;

/// Upper bound of the viewport height in rows.
pub const MAX_VIEWPORT_ROWS: u16 = 512;

/// Session status shown in the panel header.
#[derive(Clone, Copy, Debug, PartialEq, Eq, Structural)]
pub enum ShellStatus {
    Disconnected,
    Connecting,
    Connected,
    Closing,
    Exited,
    Failed,
}

/// A `(row, column)` position in the terminal grid.
pub type TerminalCell = (u16, u16);

/// Reading order on grid cells.
pub open spec fn cell_le(a: TerminalCell, b: TerminalCell) -> bool {
    a.0 < b.0 || (a.0 == b.0 && a.1 <= b.1)
}

/// The (anchor, head) selection in reading order.
pub open spec fn ordered_spec(selection: Option<(TerminalCell, TerminalCell)>) -> Option<
    (TerminalCell, TerminalCell),
> {
    match selection {
        Some((anchor, head)) => if cell_le(anchor, head) {
            Some((anchor, head))
        } else {
            Some((head, anchor))
        },
        None => None,
    }
}

/// The text of the cells `first..=last` of `row` (cells outside the grid
/// contribute nothing).
pub open spec fn row_run(cells: Map<TerminalCell, Seq<char>>, row: u16, first: int, last: int) -> Seq<char>
    decreases last - first + 1,
{
    if last < first || first < 0 || last > u16::MAX {
        Seq::empty()
    } else {
        row_run(cells, row, first, last - 1) + if cells.contains_key((row, last as u16)) {
            cells[(row, last as u16)]
        } else {
            Seq::empty()
        }
    }
}

/// The selected part of one row: from the start column on the first row
/// (else column 0) to the end column on the last row (else the last
/// column), trailing whitespace removed.
pub open spec fn selected_row(
    cells: Map<TerminalCell, Seq<char>>,
    start: TerminalCell,
    end: TerminalCell,
    row: u16,
) -> Seq<char> {
    let first: int = if row == start.0 { start.1 as int } else { 0 };
    let last: int = if row == end.0 { end.1 as int } else { TERMINAL_COLUMNS - 1 };
    trim_end_spec(row_run(cells, row, first, last))
}

/// The selected rows `start.0..=row`, joined with `'\n'`.
pub open spec fn selected_text_through(
    cells: Map<TerminalCell, Seq<char>>,
    start: TerminalCell,
    end: TerminalCell,
    row: int,
) -> Seq<char>
    decreases row - start.0,
{
    if row <= start.0 {
        selected_row(cells, start, end, start.0)
    } else {
        selected_text_through(cells, start, end, row - 1) + seq!['\n'] + selected_row(
            cells,
            start,
            end,
            row as u16,
        )
    }
}

/// The panel state.
pub struct ShellPanelState {
    pub terminal: Terminal,
    pub viewport_rows: u16,
    pub target: Option<DeviceTarget>,
    pub session_id: Option<ShellSessionId>,
    pub status: ShellStatus,
    pub error: Option<BridgeError>,
    pub focus_terminal: bool,
    /// Grid-cell selection over the visible viewport: `(anchor, head)`.
    pub selection: Option<(TerminalCell, TerminalCell)>,
}

/// A well-formed panel's terminal is [`TERMINAL_COLUMNS`] wide.
proof fn lemma_terminal_width(state: ShellPanelState)
    requires
        state.wf(),
    ensures
        grid_columns(screen_cells(state.terminal), TERMINAL_COLUMNS),
{
    assert(grid_shape(screen_cells(state.terminal), state.viewport_rows, TERMINAL_COLUMNS));
}

impl ShellPanelState {
    /// The viewport always has at least one row, and the terminal's grid is
    /// the viewport: `viewport_rows` rows of [`TERMINAL_COLUMNS`] cells.
    pub open spec fn wf(&self) -> bool {
        &&& self.viewport_rows > 0
        &&& grid_shape(screen_cells(self.terminal), self.viewport_rows, TERMINAL_COLUMNS)
    }

    /// A disconnected panel with a blank 24-row terminal.
    pub fn new() -> (state: Self)
        ensures
            state.wf(),
            state.viewport_rows == INITIAL_TERMINAL_ROWS,
            state.target is None,
            state.session_id is None,
            state.status == ShellStatus::Disconnected,
            state.error is None,
            !state.focus_terminal,
            state.selection is None,
            blank_grid(screen_cells(state.terminal), INITIAL_TERMINAL_ROWS, TERMINAL_COLUMNS),
            screen_contents(state.terminal).len() == 0,
            !bracketed_paste_mode(state.terminal),
            !application_cursor_mode(state.terminal),
    {
        ShellPanelState {
            terminal: new_terminal(INITIAL_TERMINAL_ROWS, TERMINAL_COLUMNS, SCROLLBACK_ROWS),
            viewport_rows: INITIAL_TERMINAL_ROWS,
            target: None,
            session_id: None,
            status: ShellStatus::Disconnected,
            error: None,
            focus_terminal: false,
            selection: None,
        }
    }

    /// Feeds terminal output into the emulator (see [`fed`]).
    pub fn process_output(&mut self, bytes: &[u8])
        requires
            old(self).wf(),
        ensures
            final(self).wf(),
            final(self).terminal == fed(old(self).terminal, bytes@),
            final(self).viewport_rows == old(self).viewport_rows,
            same_optional_target(final(self).target, old(self).target),
            final(self).session_id == old(self).session_id,
            final(self).status == old(self).status,
            final(self).selection == old(self).selection,
    {
        proof {
            lemma_terminal_width(*self);
        }
        process(&mut self.terminal, bytes);
    }

    /// Applies a backend event addressed to this panel's session.
    pub fn handle_event(&mut self, event: &BackendEvent)
        requires
            old(self).wf(),
        ensures
            final(self).wf(),
            final(self).viewport_rows == old(self).viewport_rows,
            same_optional_target(final(self).target, old(self).target),
            final(self).selection == old(self).selection,
            match *event {
                BackendEvent::ShellOpened { target, session_id } => if old(self).target matches Some(
                    t,
                ) && same_target(t, target) && old(self).session_id == Some(session_id) {
                    &&& final(self).status == ShellStatus::Connected
                    &&& final(self).error is None
                    &&& final(self).focus_terminal
                    &&& final(self).session_id == old(self).session_id
                    &&& final(self).terminal == old(self).terminal
                } else {
                    *final(self) == *old(self)
                },
                BackendEvent::ShellOutput { session_id, bytes } => if old(self).session_id == Some(
                    session_id,
                ) {
                    &&& final(self).terminal == fed(old(self).terminal, bytes@)
                    &&& final(self).status == old(self).status
                    &&& final(self).session_id == old(self).session_id
                    &&& final(self).error == old(self).error
                    &&& final(self).focus_terminal == old(self).focus_terminal
                } else {
                    *final(self) == *old(self)
                },
                BackendEvent::ShellClosed { session_id, .. } => if old(self).session_id == Some(
                    session_id,
                ) {
                    &&& final(self).status == ShellStatus::Exited
                    &&& final(self).session_id is None
                    &&& final(self).error == old(self).error
                    &&& final(self).focus_terminal == old(self).focus_terminal
                    &&& final(self).terminal == old(self).terminal
                } else {
                    *final(self) == *old(self)
                },
                BackendEvent::ShellFailed { session_id, error } => if old(self).session_id == Some(
                    session_id,
                ) {
                    &&& final(self).status == ShellStatus::Failed
                    &&& final(self).session_id is None
                    &&& final(self).error == Some(error)
                    &&& final(self).focus_terminal == old(self).focus_terminal
                    &&& final(self).terminal == old(self).terminal
                } else {
                    *final(self) == *old(self)
                },
                _ => *final(self) == *old(self),
            },
    {
        match event {
            BackendEvent::ShellOpened { target, session_id } => {
                let matches_target = match &self.target {
                    Some(t) => t.same_as(target),
                    None => false,
                };
                if matches_target && self.session_id == Some(*session_id) {
                    self.status = ShellStatus::Connected;
                    self.error = None;
                    self.focus_terminal = true;
                }
            },
            BackendEvent::ShellOutput { session_id, bytes } => {
                if self.session_id == Some(*session_id) {
                    proof {
                        lemma_terminal_width(*self);
                    }
                    process(&mut self.terminal, bytes.as_slice());
                }
            },
            BackendEvent::ShellClosed { session_id, .. } => {
                if self.session_id == Some(*session_id) {
                    self.status = ShellStatus::Exited;
                    self.session_id = None;
                }
            },
            BackendEvent::ShellFailed { session_id, error } => {
                if self.session_id == Some(*session_id) {
                    self.status = ShellStatus::Failed;
                    self.error = Some(error.duplicate());
                    self.session_id = None;
                }
            },
            _ => {},
        }
    }

    /// Follows the selected device: a new target closes the open session and
    /// resets the panel to a blank, disconnected terminal.
    pub fn reconcile_target(&mut self, selected: Option<&DeviceRecord>) -> (commands: Vec<
        BackendCommand,
    >)
        requires
            old(self).wf(),
        ensures
            final(self).wf(),
            ({
                let selected_target = match selected {
                    Some(record) => Some(
                        DeviceTarget { serial: record.descriptor.serial, generation: record.generation },
                    ),
                    None => None::<DeviceTarget>,
                };
                if same_optional_target(old(self).target, selected_target) {
                    commands@.len() == 0 && *final(self) == *old(self)
                } else {
                    &&& match old(self).session_id {
                        Some(session) => commands@.len() == 1 && commands@[0]
                            == BackendCommand::CloseShell(session),
                        None => commands@.len() == 0,
                    }
                    &&& same_optional_target(final(self).target, selected_target)
                    &&& final(self).session_id is None
                    &&& final(self).status == ShellStatus::Disconnected
                    &&& final(self).error is None
                    &&& final(self).selection is None
                    &&& final(self).viewport_rows == old(self).viewport_rows
                    &&& final(self).focus_terminal == old(self).focus_terminal
                    &&& blank_grid(
                        screen_cells(final(self).terminal),
                        old(self).viewport_rows,
                        TERMINAL_COLUMNS,
                    )
                    &&& screen_contents(final(self).terminal).len() == 0
                    &&& !bracketed_paste_mode(final(self).terminal)
                    &&& !application_cursor_mode(final(self).terminal)
                }
            }),
    {
        let selected_target = match selected {
            Some(record) => Some(record.target()),
            None => None,
        };
        if same_optional(&self.target, &selected_target) {
            return Vec::new();
        }
        let mut commands = Vec::new();
        if let Some(session_id) = self.session_id.take() {
            commands.push(BackendCommand::CloseShell(session_id));
        }
        self.target = selected_target;
        self.status = ShellStatus::Disconnected;
        self.error = None;
        self.selection = None;
        self.clear_display();
        commands
    }

    /// Opens a session on the selected device with no extra click, but only
    /// from the pristine `Disconnected` state: an explicit disconnect or a
    /// failed attempt is never fought by a reconnect loop.
    pub fn auto_connect(&mut self, selected: Option<&DeviceRecord>) -> (command: Option<
        BackendCommand,
    >)
        requires
            old(self).wf(),
        ensures
            final(self).wf(),
            if old(self).status == ShellStatus::Disconnected && (selected matches Some(record)
                && record.descriptor.state == DeviceState::Online) && old(self).target is Some {
                final(self).opened(old(self), command)
            } else {
                command is None && *final(self) == *old(self)
            },
    {
        if self.status != ShellStatus::Disconnected {
            return None;
        }
        let online = match selected {
            Some(record) => record.descriptor.state.is_online(),
            None => false,
        };
        if !online {
            return None;
        }
        self.connect()
    }

    /// `self` is `before` after a session was requested on its target.
    pub open spec fn opened(&self, before: &Self, command: Option<BackendCommand>) -> bool {
        &&& command matches Some(BackendCommand::OpenShell { target, session_id, size })
            && same_target(target, before.target->0) && self.session_id == Some(session_id)
            && size.columns == TERMINAL_COLUMNS && size.rows == before.viewport_rows
        &&& self.status == ShellStatus::Connecting
        &&& self.error is None
        &&& same_optional_target(self.target, before.target)
        &&& self.viewport_rows == before.viewport_rows
        &&& self.selection == before.selection
        &&& self.terminal == before.terminal
        &&& self.focus_terminal == before.focus_terminal
    }

    /// Requests a session on the target.
    pub fn connect(&mut self) -> (command: Option<BackendCommand>)
        requires
            old(self).wf(),
        ensures
            final(self).wf(),
            if old(self).target is Some {
                final(self).opened(old(self), command)
            } else {
                command is None && *final(self) == *old(self)
            },
    {
        let target = match &self.target {
            Some(t) => t.duplicate(),
            None => return None,
        };
        let size = match ShellSize::new(TERMINAL_COLUMNS, self.viewport_rows) {
            Ok(size) => size,
            Err(_) => return None,
        };
        let session_id = ShellSessionId::new();
        self.session_id = Some(session_id);
        self.status = ShellStatus::Connecting;
        self.error = None;
        Some(BackendCommand::OpenShell { target, session_id, size })
    }

    /// A write of `bytes` to the live session; `None` without a session or
    /// for a payload that is empty or over [`MAX_SHELL_INPUT_BYTES`].
    pub fn write(&self, bytes: Vec<u8>) -> (command: Option<BackendCommand>)
        ensures
            match command {
                Some(BackendCommand::WriteShell { session_id, input }) => self.session_id == Some(
                    session_id,
                ) && input@ == bytes@,
                Some(_) => false,
                None => self.session_id is None || bytes@.len() == 0 || bytes@.len()
                    > MAX_SHELL_INPUT_BYTES,
            },
    {
        let session_id = match self.session_id {
            Some(id) => id,
            None => return None,
        };
        match ShellInput::new(bytes) {
            Ok(input) => Some(BackendCommand::WriteShell { session_id, input }),
            Err(_) => None,
        }
    }

    /// Disconnect button: asks the backend to close the session.
    pub fn close(&mut self) -> (command: Option<BackendCommand>)
        requires
            old(self).wf(),
        ensures
            final(self).wf(),
            match old(self).session_id {
                Some(session) => command == Some(BackendCommand::CloseShell(session))
                    && final(self).status == ShellStatus::Closing,
                None => command is None && final(self).status == old(self).status,
            },
            final(self).session_id == old(self).session_id,
            final(self).viewport_rows == old(self).viewport_rows,
            same_optional_target(final(self).target, old(self).target),
            final(self).terminal == old(self).terminal,
            final(self).error == old(self).error,
            final(self).selection == old(self).selection,
            final(self).focus_terminal == old(self).focus_terminal,
    {
        let session_id = match self.session_id {
            Some(id) => id,
            None => return None,
        };
        self.status = ShellStatus::Closing;
        Some(BackendCommand::CloseShell(session_id))
    }

    /// Replaces the terminal with a blank one of the current viewport size.
    pub fn clear_display(&mut self)
        requires
            old(self).wf(),
        ensures
            final(self).wf(),
            blank_grid(screen_cells(final(self).terminal), old(self).viewport_rows, TERMINAL_COLUMNS),
            screen_contents(final(self).terminal).len() == 0,
            !bracketed_paste_mode(final(self).terminal),
            !application_cursor_mode(final(self).terminal),
            final(self).viewport_rows == old(self).viewport_rows,
            same_optional_target(final(self).target, old(self).target),
            final(self).session_id == old(self).session_id,
            final(self).status == old(self).status,
            final(self).selection == old(self).selection,
            final(self).error == old(self).error,
            final(self).focus_terminal == old(self).focus_terminal,
    {
        self.terminal = new_terminal(self.viewport_rows, TERMINAL_COLUMNS, SCROLLBACK_ROWS);
    }

    /// Follows the height of the terminal area.
    pub fn resize_viewport(&mut self, rows: u16)
        requires
            old(self).wf(),
            rows > 0,
        ensures
            final(self).wf(),
            final(self).viewport_rows == rows,
            old(self).viewport_rows == rows ==> final(self).terminal == old(self).terminal,
            kept_or_blank(screen_cells(final(self).terminal), screen_cells(old(self).terminal)),
            bracketed_paste_mode(final(self).terminal) == bracketed_paste_mode(old(self).terminal),
            application_cursor_mode(final(self).terminal) == application_cursor_mode(
                old(self).terminal,
            ),
            final(self).session_id == old(self).session_id,
            final(self).status == old(self).status,
            same_optional_target(final(self).target, old(self).target),
            final(self).selection == old(self).selection,
            final(self).error == old(self).error,
            final(self).focus_terminal == old(self).focus_terminal,
    {
        if self.viewport_rows != rows {
            proof {
                lemma_terminal_width(*self);
            }
            set_size(&mut self.terminal, rows, TERMINAL_COLUMNS);
            self.viewport_rows = rows;
        }
    }

    /// Whether a session is live.
    pub fn connected(&self) -> (live: bool)
        ensures
            live == (self.status == ShellStatus::Connected && self.session_id is Some),
    {
        self.status == ShellStatus::Connected && self.session_id.is_some()
    }

    /// The selection in reading order, or `None` when there is none.
    pub fn ordered_selection(&self) -> (ordered: Option<(TerminalCell, TerminalCell)>)
        ensures
            ordered == ordered_spec(self.selection),
    {
        match self.selection {
            Some((anchor, head)) => if anchor.0 < head.0 || (anchor.0 == head.0 && anchor.1
                <= head.1) {
                Some((anchor, head))
            } else {
                Some((head, anchor))
            },
            None => None,
        }
    }

    /// The selected text of the visible grid: rows trimmed of trailing
    /// blanks and joined with newlines.
    pub fn selection_text(&self) -> (selected: Option<String>)
        ensures
            match ordered_spec(self.selection) {
                Some((start, end)) => selected matches Some(s) && s@ == selected_text_through(
                    screen_cells(self.terminal),
                    start,
                    end,
                    end.0 as int,
                ),
                None => selected is None,
            },
    {
        let (start, end) = match self.ordered_selection() {
            Some(span) => span,
            None => return None,
        };
        let ghost cells = screen_cells(self.terminal);
        let mut out = String::new();
        let mut row = start.0;
        loop
            invariant_except_break
                start.0 <= row <= end.0,
                cell_le(start, end),
                cells == screen_cells(self.terminal),
                row == start.0 ==> out@.len() == 0,
                row > start.0 ==> out@ == selected_text_through(cells, start, end, row - 1) + seq![
                    '\n',
                ],
            ensures
                out@ == selected_text_through(cells, start, end, end.0 as int),
            decreases end.0 - row,
        {
            let first: u16 = if row == start.0 { start.1 } else { 0 };
            let last: u16 = if row == end.0 { end.1 } else { TERMINAL_COLUMNS - 1 };
            let line = self.row_text(row, first, last);
            let trimmed = trimmed_end(line.as_str());
            let ghost before = out@;
            push_str(&mut out, trimmed.as_str());
            proof {
                if row == start.0 {
                    assert(out@ =~= selected_text_through(cells, start, end, row as int));
                } else {
                    assert(out@ =~= selected_text_through(cells, start, end, row as int));
                }
            }
            if row == end.0 {
                break;
            }
            push_char(&mut out, '\n');
            row = row + 1;
        }
        Some(out)
    }

    /// The text of the cells `first..=last` of `row`.
    fn row_text(&self, row: u16, first: u16, last: u16) -> (line: String)
        ensures
            line@ == row_run(screen_cells(self.terminal), row, first as int, last as int),
    {
        let mut line = String::new();
        if last < first {
            return line;
        }
        let mut column = first;
        loop
            invariant_except_break
                first <= column <= last,
                line@ == row_run(screen_cells(self.terminal), row, first as int, column as int - 1),
            ensures
                line@ == row_run(screen_cells(self.terminal), row, first as int, last as int),
            decreases last - column,
        {
            if let Some(cell) = cell_text(&self.terminal, row, column) {
                push_str(&mut line, cell.as_str());
            }
            proof {
                let cells = screen_cells(self.terminal);
                assert(row_run(cells, row, first as int, column as int) =~= row_run(
                    cells,
                    row,
                    first as int,
                    column as int - 1,
                ) + if cells.contains_key((row, column)) {
                    cells[(row, column)]
                } else {
                    Seq::empty()
                });
            }
            if column == last {
                break;
            }
            column = column + 1;
        }
        line
    }

    /// A paste payload, bracketed-paste wrapped when the program behind the
    /// terminal asked for it.
    pub fn paste_payload(&self, clipboard: &str) -> (bytes: Vec<u8>)
        ensures
            bytes@ == paste_bytes(clipboard@, bracketed_paste_mode(self.terminal)),
    {
        paste_payload_bytes(clipboard, bracketed_paste(&self.terminal))
    }

    /// One frame of keyboard input encoded for the shell, in the terminal's
    /// current paste and cursor modes.
    pub fn input_writes(&self, events: &[TerminalEvent]) -> (writes: Vec<Vec<u8>>)
        ensures
            written(
                Seq::empty(),
                writes@.map_values(|c: Vec<u8>| c@),
                events_bytes(
                    events@,
                    bracketed_paste_mode(self.terminal),
                    application_cursor_mode(self.terminal),
                    any_line_ending(events@),
                ),
            ),
    {
        terminal_input(events, bracketed_paste(&self.terminal), application_cursor(&self.terminal))
    }
}

/// The text a blank terminal area shows: the start-up guidance only before
/// the first session, the screen contents otherwise.
pub fn screen_text(language: Language, terminal: &Terminal, disconnected: bool) -> (shown: String)
    ensures
        shown@ == if screen_contents(*terminal).len() == 0 && disconnected {
            text_spec(language, "shell_empty_hint"@)
        } else {
            screen_contents(*terminal)
        },
{
    let current = contents(terminal);
    if current.as_str().is_empty() && disconnected {
        text(language, "shell_empty_hint").to_owned()
    } else {
        current
    }
}

/// The catalog key of a status label.
pub open spec fn status_key_spec(status: ShellStatus) -> Seq<char> {
    match status {
        ShellStatus::Disconnected => "shell_status_disconnected"@,
        ShellStatus::Connecting => "shell_status_connecting"@,
        ShellStatus::Connected => "shell_status_connected"@,
        ShellStatus::Closing => "shell_status_closing"@,
        ShellStatus::Exited => "shell_status_exited"@,
        ShellStatus::Failed => "shell_status_failed"@,
    }
}

/// The localized label of a status.
pub fn status_label(language: Language, status: ShellStatus) -> (label: &'static str)
    ensures
        label@ == text_spec(language, status_key_spec(status)),
{
    match status {
        ShellStatus::Disconnected => text(language, "shell_status_disconnected"),
        ShellStatus::Connecting => text(language, "shell_status_connecting"),
        ShellStatus::Connected => text(language, "shell_status_connected"),
        ShellStatus::Closing => text(language, "shell_status_closing"),
        ShellStatus::Exited => text(language, "shell_status_exited"),
        ShellStatus::Failed => text(language, "shell_status_failed"),
    }
}

impl Default for ShellPanelState {
    fn default() -> (state: Self)
        ensures
            state.wf(),
            state.viewport_rows == INITIAL_TERMINAL_ROWS,
            state.target is None,
            state.session_id is None,
            state.status == ShellStatus::Disconnected,
            state.selection is None,
    {
        ShellPanelState::new()
    }
}

/// A terminal selection covers the same cells whichever way it was
/// dragged, and its start comes first in reading order.
pub proof fn lemma_ordered_selection_direction(anchor: TerminalCell, head: TerminalCell)
    ensures
        ordered_spec(Some((anchor, head))) == ordered_spec(Some((head, anchor))),
        ordered_spec(Some((anchor, head))) matches Some((start, end)) && cell_le(start, end),
{
}

} // verus!
