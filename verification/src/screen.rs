//! The terminal emulator behind the shell panel (`vt100::Parser`): what the
//! panel reads of its screen, as named contents.
use vstd::prelude::*;

verus! {

/// A `vt100::Parser` (its callbacks-generic declaration cannot be stated
/// here, so the parser is held opaquely). The parser is private: only the
/// functions of this module reach it, and none of them scrolls the view back
/// into the scrollback, so what is visible is always the drawing grid.
#[verifier::external_body]
pub struct Terminal {
    parser: vt100::Parser,
}

/// The visible grid of `terminal`: the text of every cell that exists, keyed
/// by `(row, column)`.
pub uninterp spec fn screen_cells(terminal: Terminal) -> Map<(u16, u16), Seq<char>>;

/// Whether the program behind the terminal enabled bracketed paste.
pub uninterp spec fn bracketed_paste_mode(terminal: Terminal) -> bool;

/// Whether the program behind the terminal enabled application cursor keys.
pub uninterp spec fn application_cursor_mode(terminal: Terminal) -> bool;

/// The plain-text contents of the visible screen (`Screen::contents`).
pub uninterp spec fn screen_contents(terminal: Terminal) -> Seq<char>;

/// Exactly the cells of a `rows` x `columns` grid exist.
pub open spec fn grid_shape(cells: Map<(u16, u16), Seq<char>>, rows: u16, columns: u16) -> bool {
    forall|cell: (u16, u16)| #[trigger] cells.contains_key(cell) <==> cell.0 < rows && cell.1 < columns
}

/// The visible grid has at least one row and exactly `columns` columns.
pub open spec fn grid_columns(cells: Map<(u16, u16), Seq<char>>, columns: u16) -> bool {
    exists|rows: u16| 0 < rows && #[trigger] grid_shape(cells, rows, columns)
}

/// Every cell of `after` that `before` had keeps its text; every other cell
/// of `after` is empty.
pub open spec fn kept_or_blank(
    after: Map<(u16, u16), Seq<char>>,
    before: Map<(u16, u16), Seq<char>>,
) -> bool {
    forall|cell: (u16, u16)|
        #[trigger] after.contains_key(cell) ==> after[cell] == if before.contains_key(cell) {
            before[cell]
        } else {
            Seq::<char>::empty()
        }
}

/// Exactly the cells of a `rows` x `columns` grid exist, all empty.
pub open spec fn blank_grid(cells: Map<(u16, u16), Seq<char>>, rows: u16, columns: u16) -> bool {
    &&& grid_shape(cells, rows, columns)
    &&& forall|cell: (u16, u16)| #[trigger] cells.contains_key(cell) ==> cells[cell].len() == 0
}

/// `vt100::Parser::new`: a blank `rows` x `columns` grid with every mode
/// off and empty contents. The emulator subtracts one from both dimensions
/// when it clamps the cursor, so neither may be zero, and a double-width
/// character needs two columns to be drawn (see [`process`]).
#[verifier::external_body]
pub fn new_terminal(rows: u16, columns: u16, scrollback: usize) -> (terminal: Terminal)
    requires
        rows > 0,
        columns >= 2,
    ensures
        blank_grid(screen_cells(terminal), rows, columns),
        !bracketed_paste_mode(terminal),
        !application_cursor_mode(terminal),
        screen_contents(terminal).len() == 0,
{
    Terminal { parser: vt100::Parser::new(rows, columns, scrollback) }
}

/// The emulator after it was fed `bytes`: the whole parser state (screen,
/// cursor, modes and any half-read escape sequence) that `Parser::process`
/// leaves, a function of the state before and of the bytes.
pub uninterp spec fn fed(terminal: Terminal, bytes: Seq<u8>) -> Terminal;

/// `Parser::process`: feeds terminal output, leaving [`fed`]. Output never
/// resizes the grid (resize requests only reach callbacks, which a plain
/// parser ignores) and, with the view never scrolled back (see
/// [`Terminal`]), the visible rows are the drawing rows, so the same cells
/// exist afterwards; what they, the modes
/// and the contents hold afterwards is named by [`fed`], not written out.
/// Drawing a double-width character subtracts its width from the column
/// count and then writes both of its cells, so the grid must have at least
/// two columns.
#[verifier::external_body]
pub fn process(terminal: &mut Terminal, bytes: &[u8])
    requires
        exists|columns: u16| 2 <= columns && #[trigger] grid_columns(screen_cells(*old(terminal)), columns),
    ensures
        *final(terminal) == fed(*old(terminal), bytes@),
        screen_cells(*final(terminal)).dom() == screen_cells(*old(terminal)).dom(),
{
    terminal.parser.process(bytes);
}

/// `Screen::set_size`: resizes the drawing rows of both screens to `rows` x
/// `columns` (neither may be zero: the emulator clamps positions to one less
/// than each); with the view never scrolled back (see [`Terminal`]) those
/// are the visible cells. Each row is cut or padded with blank cells at its
/// end and rows are dropped or added blank at the bottom, so a cell that
/// fits both sizes keeps its text and every new cell is empty; the modes
/// stay as they were. Rows are cut, not rewrapped:
/// narrowing can cut a double-width character in half, and the next write
/// over that half looks for the cut cell and panics, so the grid may grow
/// wider but never narrower, and keeps the two columns [`process`] needs.
#[verifier::external_body]
pub fn set_size(terminal: &mut Terminal, rows: u16, columns: u16)
    requires
        rows > 0,
        columns >= 2,
        exists|before: u16| before <= columns && #[trigger] grid_columns(screen_cells(*old(terminal)), before),
    ensures
        grid_shape(screen_cells(*final(terminal)), rows, columns),
        kept_or_blank(screen_cells(*final(terminal)), screen_cells(*old(terminal))),
        bracketed_paste_mode(*final(terminal)) == bracketed_paste_mode(*old(terminal)),
        application_cursor_mode(*final(terminal)) == application_cursor_mode(*old(terminal)),
{
    terminal.parser.screen_mut().set_size(rows, columns);
}

/// `Screen::cell(row, column).contents()`, `None` outside the grid.
#[verifier::external_body]
pub fn cell_text(terminal: &Terminal, row: u16, column: u16) -> (text: Option<String>)
    ensures
        match text {
            Some(t) => screen_cells(*terminal).contains_key((row, column)) && t@ == screen_cells(
                *terminal,
            )[(row, column)],
            None => !screen_cells(*terminal).contains_key((row, column)),
        },
{
    terminal.parser.screen().cell(row, column).map(|cell| cell.contents().to_owned())
}

/// `Screen::bracketed_paste`.
#[verifier::external_body]
pub fn bracketed_paste(terminal: &Terminal) -> (enabled: bool)
    ensures
        enabled == bracketed_paste_mode(*terminal),
{
    terminal.parser.screen().bracketed_paste()
}

/// `Screen::application_cursor`.
#[verifier::external_body]
pub fn application_cursor(terminal: &Terminal) -> (enabled: bool)
    ensures
        enabled == application_cursor_mode(*terminal),
{
    terminal.parser.screen().application_cursor()
}

/// `Screen::contents`.
#[verifier::external_body]
pub fn contents(terminal: &Terminal) -> (text: String)
    ensures
        text@ == screen_contents(*terminal),
{
    terminal.parser.screen().contents()
}

} // verus!
