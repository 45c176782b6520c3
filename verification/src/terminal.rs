//! Terminal input encoding: keys, typed text and pastes become the byte
//! stream a shell expects, batched into writes of at most
//! [`MAX_SHELL_INPUT_BYTES`].
use vstd::prelude::*;

use crate::domain::MAX_SHELL_INPUT_BYTES;
use crate::strings::{chars_of, control_char, is_control};
use vstd::utf8::{encode_scalar, encode_utf8};

verus! {

broadcast use vstd::string::group_string_axioms;

/// The keys the terminal reacts to; every other key is `Other`.
#[derive(Clone, Copy, Debug, PartialEq, Eq, Structural)]
pub enum TerminalKey {
    Enter,
    Tab,
    Backspace,
    Escape,
    ArrowUp,
    ArrowDown,
    ArrowRight,
    ArrowLeft,
    Home,
    End,
    Insert,
    Delete,
    PageUp,
    PageDown,
    A,
    B,
    C,
    D,
    E,
    F,
    G,
    H,
    I,
    J,
    K,
    L,
    M,
    N,
    O,
    P,
    Q,
    R,
    S,
    T,
    U,
    V,
    W,
    X,
    Y,
    Z,
    Other,
}

/// Modifier keys held during a key press.
#[derive(Clone, Copy, Debug, PartialEq, Eq, Structural)]
pub struct KeyModifiers {
    pub alt: bool,
    pub ctrl: bool,
    pub shift: bool,
}

impl KeyModifiers {
    /// No modifier held.
    pub fn none() -> (modifiers: Self)
        ensures
            !modifiers.alt && !modifiers.ctrl && !modifiers.shift,
    {
        KeyModifiers { alt: false, ctrl: false, shift: false }
    }

    /// Only Ctrl held.
    pub fn ctrl_only() -> (modifiers: Self)
        ensures
            !modifiers.alt && modifiers.ctrl && !modifiers.shift,
    {
        KeyModifiers { alt: false, ctrl: true, shift: false }
    }
}

/// The input events the terminal consumes.
#[derive(Debug)]
pub enum TerminalEvent {
    /// Typed text.
    Text(String),
    /// Clipboard paste (Ctrl+V).
    Paste(String),
    /// The copy shortcut, sent as ETX.
    Copy,
    /// The cut shortcut, sent as CAN.
    Cut,
    Key { key: TerminalKey, pressed: bool, modifiers: KeyModifiers },
    Other,
}

/// Position of a letter key in `A..=Z`.
pub open spec fn letter_index(key: TerminalKey) -> Option<u8> {
    match key {
        TerminalKey::A => Some(0u8),
        TerminalKey::B => Some(1u8),
        TerminalKey::C => Some(2u8),
        TerminalKey::D => Some(3u8),
        TerminalKey::E => Some(4u8),
        TerminalKey::F => Some(5u8),
        TerminalKey::G => Some(6u8),
        TerminalKey::H => Some(7u8),
        TerminalKey::I => Some(8u8),
        TerminalKey::J => Some(9u8),
        TerminalKey::K => Some(10u8),
        TerminalKey::L => Some(11u8),
        TerminalKey::M => Some(12u8),
        TerminalKey::N => Some(13u8),
        TerminalKey::O => Some(14u8),
        TerminalKey::P => Some(15u8),
        TerminalKey::Q => Some(16u8),
        TerminalKey::R => Some(17u8),
        TerminalKey::S => Some(18u8),
        TerminalKey::T => Some(19u8),
        TerminalKey::U => Some(20u8),
        TerminalKey::V => Some(21u8),
        TerminalKey::W => Some(22u8),
        TerminalKey::X => Some(23u8),
        TerminalKey::Y => Some(24u8),
        TerminalKey::Z => Some(25u8),
        _ => None,
    }
}

/// The control code Ctrl+letter produces: 1 for A through 26 for Z.
pub fn control_letter(key: TerminalKey) -> (code: Option<u8>)
    ensures
        match letter_index(key) {
            Some(i) => code == Some((i + 1) as u8),
            None => code is None,
        },
{
    match key {
        TerminalKey::A => Some(1),
        TerminalKey::B => Some(2),
        TerminalKey::C => Some(3),
        TerminalKey::D => Some(4),
        TerminalKey::E => Some(5),
        TerminalKey::F => Some(6),
        TerminalKey::G => Some(7),
        TerminalKey::H => Some(8),
        TerminalKey::I => Some(9),
        TerminalKey::J => Some(10),
        TerminalKey::K => Some(11),
        TerminalKey::L => Some(12),
        TerminalKey::M => Some(13),
        TerminalKey::N => Some(14),
        TerminalKey::O => Some(15),
        TerminalKey::P => Some(16),
        TerminalKey::Q => Some(17),
        TerminalKey::R => Some(18),
        TerminalKey::S => Some(19),
        TerminalKey::T => Some(20),
        TerminalKey::U => Some(21),
        TerminalKey::V => Some(22),
        TerminalKey::W => Some(23),
        TerminalKey::X => Some(24),
        TerminalKey::Y => Some(25),
        TerminalKey::Z => Some(26),
        _ => None,
    }
}

/// `ESC` followed by `rest`.
pub open spec fn escape(rest: Seq<u8>) -> Seq<u8> {
    seq![0x1bu8] + rest
}

/// An arrow key: `ESC O x` in application-cursor mode, `ESC [ x` otherwise.
pub open spec fn arrow(application_cursor: bool, letter: u8) -> Seq<u8> {
    if application_cursor {
        seq![0x1bu8, 0x4fu8, letter]
    } else {
        seq![0x1bu8, 0x5bu8, letter]
    }
}

/// The bytes of keys with a fixed encoding (xterm conventions).
pub open spec fn fixed_key_bytes(key: TerminalKey, application_cursor: bool) -> Option<Seq<u8>> {
    match key {
        TerminalKey::Enter => Some(seq![0x0au8]),
        TerminalKey::Tab => Some(seq![0x09u8]),
        TerminalKey::Backspace => Some(seq![0x7fu8]),
        TerminalKey::Escape => Some(seq![0x1bu8]),
        TerminalKey::ArrowUp => Some(arrow(application_cursor, 0x41u8)),
        TerminalKey::ArrowDown => Some(arrow(application_cursor, 0x42u8)),
        TerminalKey::ArrowRight => Some(arrow(application_cursor, 0x43u8)),
        TerminalKey::ArrowLeft => Some(arrow(application_cursor, 0x44u8)),
        TerminalKey::Home => Some(seq![0x1bu8, 0x5bu8, 0x48u8]),
        TerminalKey::End => Some(seq![0x1bu8, 0x5bu8, 0x46u8]),
        TerminalKey::Insert => Some(seq![0x1bu8, 0x5bu8, 0x32u8, 0x7eu8]),
        TerminalKey::Delete => Some(seq![0x1bu8, 0x5bu8, 0x33u8, 0x7eu8]),
        TerminalKey::PageUp => Some(seq![0x1bu8, 0x5bu8, 0x35u8, 0x7eu8]),
        TerminalKey::PageDown => Some(seq![0x1bu8, 0x5bu8, 0x36u8, 0x7eu8]),
        _ => None,
    }
}

/// The bytes a key press sends: the fixed encoding when the key has one,
/// else the control code for Ctrl (without Shift) plus a letter.
pub open spec fn key_bytes_spec(
    key: TerminalKey,
    modifiers: KeyModifiers,
    application_cursor: bool,
) -> Option<Seq<u8>> {
    if fixed_key_bytes(key, application_cursor) is Some {
        fixed_key_bytes(key, application_cursor)
    } else if modifiers.ctrl && !modifiers.shift && letter_index(key) is Some {
        Some(seq![(letter_index(key)->0 + 1) as u8])
    } else {
        None
    }
}

fn arrow_bytes(application_cursor: bool, letter: u8) -> (bytes: Vec<u8>)
    ensures
        bytes@ == arrow(application_cursor, letter),
{
    let v = if application_cursor {
        vec![0x1bu8, 0x4fu8, letter]
    } else {
        vec![0x1bu8, 0x5bu8, letter]
    };
    assert(v@ =~= arrow(application_cursor, letter));
    v
}

/// Encodes one key press.
pub fn key_bytes(key: TerminalKey, modifiers: KeyModifiers, application_cursor: bool) -> (bytes:
    Option<Vec<u8>>)
    ensures
        match bytes {
            Some(b) => key_bytes_spec(key, modifiers, application_cursor) == Some(b@),
            None => key_bytes_spec(key, modifiers, application_cursor) is None,
        },
{
    let fixed: Option<Vec<u8>> = match key {
        TerminalKey::Enter => Some(vec![0x0au8]),
        TerminalKey::Tab => Some(vec![0x09u8]),
        TerminalKey::Backspace => Some(vec![0x7fu8]),
        TerminalKey::Escape => Some(vec![0x1bu8]),
        TerminalKey::ArrowUp => Some(arrow_bytes(application_cursor, 0x41u8)),
        TerminalKey::ArrowDown => Some(arrow_bytes(application_cursor, 0x42u8)),
        TerminalKey::ArrowRight => Some(arrow_bytes(application_cursor, 0x43u8)),
        TerminalKey::ArrowLeft => Some(arrow_bytes(application_cursor, 0x44u8)),
        TerminalKey::Home => Some(vec![0x1bu8, 0x5bu8, 0x48u8]),
        TerminalKey::End => Some(vec![0x1bu8, 0x5bu8, 0x46u8]),
        TerminalKey::Insert => Some(vec![0x1bu8, 0x5bu8, 0x32u8, 0x7eu8]),
        TerminalKey::Delete => Some(vec![0x1bu8, 0x5bu8, 0x33u8, 0x7eu8]),
        TerminalKey::PageUp => Some(vec![0x1bu8, 0x5bu8, 0x35u8, 0x7eu8]),
        TerminalKey::PageDown => Some(vec![0x1bu8, 0x5bu8, 0x36u8, 0x7eu8]),
        _ => None,
    };
    proof {
        if fixed is Some {
            assert(fixed_key_bytes(key, application_cursor) == Some(fixed->0@));
        } else {
            assert(fixed_key_bytes(key, application_cursor) is None);
        }
    }
    if fixed.is_some() {
        return fixed;
    }
    if modifiers.ctrl && !modifiers.shift {
        if let Some(code) = control_letter(key) {
            let v = vec![code];
            assert(v@ =~= seq![code]);
            return Some(v);
        }
    }
    None
}

/// The bytes of an ASCII text, one per character.
pub open spec fn ascii_bytes(text: Seq<char>) -> Seq<u8> {
    text.map_values(|c: char| c as u8)
}

/// The keys with a fixed encoding send the xterm sequences whatever
/// modifiers are held: Enter `\n`, Tab `\t`, Backspace DEL, Escape ESC; the
/// arrows `ESC [ A`..`ESC [ D` (up, down, right, left), or `ESC O A`..
/// `ESC O D` in application-cursor mode; Home `ESC [ H` and End `ESC [ F`
/// in either mode; Insert, Delete, Page Up and Page Down `ESC [ 2 ~`,
/// `ESC [ 3 ~`, `ESC [ 5 ~` and `ESC [ 6 ~`.
pub proof fn lemma_fixed_keys_send_xterm_sequences(modifiers: KeyModifiers, application_cursor: bool)
    ensures
        key_bytes_spec(TerminalKey::Enter, modifiers, application_cursor) == Some(ascii_bytes("\n"@)),
        key_bytes_spec(TerminalKey::Tab, modifiers, application_cursor) == Some(ascii_bytes("\t"@)),
        key_bytes_spec(TerminalKey::Backspace, modifiers, application_cursor) == Some(
            ascii_bytes("\x7f"@),
        ),
        key_bytes_spec(TerminalKey::Escape, modifiers, application_cursor) == Some(
            ascii_bytes("\x1b"@),
        ),
        key_bytes_spec(TerminalKey::ArrowUp, modifiers, application_cursor) == Some(
            ascii_bytes(if application_cursor { "\x1bOA"@ } else { "\x1b[A"@ }),
        ),
        key_bytes_spec(TerminalKey::ArrowDown, modifiers, application_cursor) == Some(
            ascii_bytes(if application_cursor { "\x1bOB"@ } else { "\x1b[B"@ }),
        ),
        key_bytes_spec(TerminalKey::ArrowRight, modifiers, application_cursor) == Some(
            ascii_bytes(if application_cursor { "\x1bOC"@ } else { "\x1b[C"@ }),
        ),
        key_bytes_spec(TerminalKey::ArrowLeft, modifiers, application_cursor) == Some(
            ascii_bytes(if application_cursor { "\x1bOD"@ } else { "\x1b[D"@ }),
        ),
        key_bytes_spec(TerminalKey::Home, modifiers, application_cursor) == Some(
            ascii_bytes("\x1b[H"@),
        ),
        key_bytes_spec(TerminalKey::End, modifiers, application_cursor) == Some(
            ascii_bytes("\x1b[F"@),
        ),
        key_bytes_spec(TerminalKey::Insert, modifiers, application_cursor) == Some(
            ascii_bytes("\x1b[2~"@),
        ),
        key_bytes_spec(TerminalKey::Delete, modifiers, application_cursor) == Some(
            ascii_bytes("\x1b[3~"@),
        ),
        key_bytes_spec(TerminalKey::PageUp, modifiers, application_cursor) == Some(
            ascii_bytes("\x1b[5~"@),
        ),
        key_bytes_spec(TerminalKey::PageDown, modifiers, application_cursor) == Some(
            ascii_bytes("\x1b[6~"@),
        ),
{
    reveal_strlit("\n");
    reveal_strlit("\t");
    reveal_strlit("\x7f");
    reveal_strlit("\x1b");
    reveal_strlit("\x1bOA");
    reveal_strlit("\x1b[A");
    reveal_strlit("\x1bOB");
    reveal_strlit("\x1b[B");
    reveal_strlit("\x1bOC");
    reveal_strlit("\x1b[C");
    reveal_strlit("\x1bOD");
    reveal_strlit("\x1b[D");
    reveal_strlit("\x1b[H");
    reveal_strlit("\x1b[F");
    reveal_strlit("\x1b[2~");
    reveal_strlit("\x1b[3~");
    reveal_strlit("\x1b[5~");
    reveal_strlit("\x1b[6~");
    assert(ascii_bytes("\n"@) =~= seq![0x0au8]);
    assert(ascii_bytes("\t"@) =~= seq![0x09u8]);
    assert(ascii_bytes("\x7f"@) =~= seq![0x7fu8]);
    assert(ascii_bytes("\x1b"@) =~= seq![0x1bu8]);
    assert(ascii_bytes("\x1bOA"@) =~= arrow(true, 0x41u8));
    assert(ascii_bytes("\x1b[A"@) =~= arrow(false, 0x41u8));
    assert(ascii_bytes("\x1bOB"@) =~= arrow(true, 0x42u8));
    assert(ascii_bytes("\x1b[B"@) =~= arrow(false, 0x42u8));
    assert(ascii_bytes("\x1bOC"@) =~= arrow(true, 0x43u8));
    assert(ascii_bytes("\x1b[C"@) =~= arrow(false, 0x43u8));
    assert(ascii_bytes("\x1bOD"@) =~= arrow(true, 0x44u8));
    assert(ascii_bytes("\x1b[D"@) =~= arrow(false, 0x44u8));
    assert(ascii_bytes("\x1b[H"@) =~= seq![0x1bu8, 0x5bu8, 0x48u8]);
    assert(ascii_bytes("\x1b[F"@) =~= seq![0x1bu8, 0x5bu8, 0x46u8]);
    assert(ascii_bytes("\x1b[2~"@) =~= seq![0x1bu8, 0x5bu8, 0x32u8, 0x7eu8]);
    assert(ascii_bytes("\x1b[3~"@) =~= seq![0x1bu8, 0x5bu8, 0x33u8, 0x7eu8]);
    assert(ascii_bytes("\x1b[5~"@) =~= seq![0x1bu8, 0x5bu8, 0x35u8, 0x7eu8]);
    assert(ascii_bytes("\x1b[6~"@) =~= seq![0x1bu8, 0x5bu8, 0x36u8, 0x7eu8]);
}

/// Whether a text event carries a line ending (it then stands in for the
/// Enter key event of the same frame).
pub open spec fn has_line_ending(event: TerminalEvent) -> bool {
    event matches TerminalEvent::Text(t) && (t@.contains('\r') || t@.contains('\n'))
}

/// Exec form of [`has_line_ending`].
pub fn event_has_line_ending(event: &TerminalEvent) -> (found: bool)
    ensures
        found == has_line_ending(*event),
{
    match event {
        TerminalEvent::Text(t) => {
            let chars = chars_of(t.as_str());
            let mut i: usize = 0;
            while i < chars.len()
                invariant
                    i <= chars@.len(),
                    chars@ == t@,
                    has_line_ending(*event) == (t@.contains('\r') || t@.contains('\n')),
                    forall|j: int| 0 <= j < i ==> chars@[j] != '\r' && chars@[j] != '\n',
                decreases chars@.len() - i,
            {
                if chars[i] == '\r' {
                    assert(t@[i as int] == '\r');
                    assert(t@.contains('\r'));
                    return true;
                }
                if chars[i] == '\n' {
                    assert(t@[i as int] == '\n');
                    assert(t@.contains('\n'));
                    return true;
                }
                i = i + 1;
            }
            false
        },
        _ => false,
    }
}

/// The bytes of typed text: each run of line endings (`'\r'`/`'\n'`)
/// becomes a single `'\n'`, control characters are dropped (without ending
/// a run), everything else is sent as UTF-8.
pub open spec fn text_input_bytes(chars: Seq<char>, after_line_ending: bool) -> Seq<u8>
    decreases chars.len(),
{
    if chars.len() == 0 {
        Seq::empty()
    } else {
        let c = chars[0];
        if c == '\r' || c == '\n' {
            (if after_line_ending {
                Seq::empty()
            } else {
                seq![0x0au8]
            }) + text_input_bytes(chars.drop_first(), true)
        } else if control_char(c) {
            text_input_bytes(chars.drop_first(), after_line_ending)
        } else {
            encode_scalar(c as u32) + text_input_bytes(chars.drop_first(), false)
        }
    }
}

/// All bytes held by `chunks`, in order.
pub open spec fn flatten(chunks: Seq<Seq<u8>>) -> Seq<u8>
    decreases chunks.len(),
{
    if chunks.len() == 0 {
        Seq::empty()
    } else {
        flatten(chunks.drop_last()) + chunks.last()
    }
}

/// How many leading chunks of `before` a write leaves untouched: all of
/// them, or all but a last chunk that still has room.
pub open spec fn untouched_prefix(before: Seq<Seq<u8>>) -> int {
    if before.len() > 0 && before.last().len() < MAX_SHELL_INPUT_BYTES {
        before.len() - 1
    } else {
        before.len() as int
    }
}

/// `after` is `before` with `bytes` written on: the bytes fill a last chunk
/// with room, then open new chunks; every chunk from the first touched one
/// is non-empty and at most [`MAX_SHELL_INPUT_BYTES`] long, and all but the
/// last of them are full.
pub open spec fn written(before: Seq<Seq<u8>>, after: Seq<Seq<u8>>, bytes: Seq<u8>) -> bool {
    &&& flatten(after) == flatten(before) + bytes
    &&& bytes.len() == 0 ==> after == before
    &&& bytes.len() > 0 ==> {
        let keep = untouched_prefix(before);
        &&& after.len() > keep
        &&& forall|i: int| 0 <= i < keep ==> #[trigger] after[i] == before[i]
        &&& forall|i: int| keep <= i < after.len() - 1 ==> #[trigger] after[i].len()
            == MAX_SHELL_INPUT_BYTES
        &&& forall|i: int|
            keep <= i < after.len() ==> 0 < #[trigger] after[i].len() <= MAX_SHELL_INPUT_BYTES
        &&& keep < before.len() ==> after[keep].take(before.last().len() as int) == before.last()
    }
}

proof fn lemma_flatten_push(chunks: Seq<Seq<u8>>, chunk: Seq<u8>)
    ensures
        flatten(chunks.push(chunk)) == flatten(chunks) + chunk,
{
    assert(chunks.push(chunk).drop_last() =~= chunks);
}

proof fn lemma_flatten_update_last(chunks: Seq<Seq<u8>>, b: u8)
    requires
        chunks.len() > 0,
    ensures
        flatten(chunks.update(chunks.len() - 1, chunks.last().push(b))) == flatten(chunks).push(b),
{
    let updated = chunks.update(chunks.len() - 1, chunks.last().push(b));
    assert(updated.drop_last() =~= chunks.drop_last());
    assert(flatten(chunks.drop_last()) + chunks.last().push(b) =~= (flatten(chunks.drop_last())
        + chunks.last()).push(b));
}

/// Writing `a` and then `b` carries the same bytes, in the same order, as
/// writing `a` followed by `b` at once.
pub proof fn lemma_written_in_steps(
    before: Seq<Seq<u8>>,
    middle: Seq<Seq<u8>>,
    after: Seq<Seq<u8>>,
    a: Seq<u8>,
    b: Seq<u8>,
)
    requires
        written(before, middle, a),
        written(middle, after, b),
    ensures
        flatten(after) == flatten(before) + (a + b),
{
    assert(flatten(before) + a + b =~= flatten(before) + (a + b));
}

/// Every write fits one shell input: when every chunk before a write holds
/// between 1 and [`MAX_SHELL_INPUT_BYTES`] bytes, so does every chunk after.
pub proof fn lemma_written_chunks_fit(before: Seq<Seq<u8>>, after: Seq<Seq<u8>>, bytes: Seq<u8>)
    requires
        written(before, after, bytes),
        forall|i: int|
            0 <= i < before.len() ==> 0 < #[trigger] before[i].len() <= MAX_SHELL_INPUT_BYTES,
    ensures
        forall|i: int|
            0 <= i < after.len() ==> 0 < #[trigger] after[i].len() <= MAX_SHELL_INPUT_BYTES,
{
    if bytes.len() > 0 {
        let keep = untouched_prefix(before);
        assert forall|i: int| 0 <= i < after.len() implies 0 < #[trigger] after[i].len()
            <= MAX_SHELL_INPUT_BYTES by {
            if i < keep {
                assert(after[i] == before[i]);
            }
        }
    }
}

/// Appends `bytes` to the pending writes: fills the last write up to
/// [`MAX_SHELL_INPUT_BYTES`], then opens new ones, preserving byte order.
pub fn append_terminal_input(output: &mut Vec<Vec<u8>>, bytes: &[u8])
    requires
        old(output)@.len() > 0 ==> old(output)@.last()@.len() <= MAX_SHELL_INPUT_BYTES,
    ensures
        written(old(output)@.map_values(|c: Vec<u8>| c@), final(output)@.map_values(|c: Vec<u8>| c@), bytes@),
        final(output)@.len() > 0 ==> final(output)@.last()@.len() <= MAX_SHELL_INPUT_BYTES,
{
    let ghost before = output@.map_values(|c: Vec<u8>| c@);
    let ghost keep = untouched_prefix(before);
    let mut i: usize = 0;
    assert(bytes@.take(0) =~= Seq::<u8>::empty());
    assert(flatten(before) + Seq::<u8>::empty() =~= flatten(before));
    while i < bytes.len()
        invariant
            i <= bytes@.len(),
            before.len() > 0 ==> before.last().len() <= MAX_SHELL_INPUT_BYTES,
            keep == untouched_prefix(before),
            flatten(output@.map_values(|c: Vec<u8>| c@)) == flatten(before) + bytes@.take(i as int),
            i == 0 ==> output@.map_values(|c: Vec<u8>| c@) == before,
            i > 0 ==> {
                let after = output@.map_values(|c: Vec<u8>| c@);
                &&& after.len() > keep
                &&& forall|j: int| 0 <= j < keep ==> #[trigger] after[j] == before[j]
                &&& forall|j: int| keep <= j < after.len() - 1 ==> #[trigger] after[j].len()
                    == MAX_SHELL_INPUT_BYTES
                &&& forall|j: int|
                    keep <= j < after.len() ==> 0 < #[trigger] after[j].len()
                        <= MAX_SHELL_INPUT_BYTES
                &&& keep < before.len() ==> after[keep].take(before.last().len() as int)
                    == before.last()
                &&& keep < before.len() ==> after[keep].len() >= before.last().len()
            },
            output@.len() > 0 ==> output@.last()@.len() <= MAX_SHELL_INPUT_BYTES,
        decreases bytes@.len() - i,
    {
        let ghost prev = output@.map_values(|c: Vec<u8>| c@);
        let opened = output.len() == 0 || output[output.len() - 1].len() >= MAX_SHELL_INPUT_BYTES;
        if opened {
            output.push(Vec::new());
            proof {
                assert(output@.map_values(|c: Vec<u8>| c@) =~= prev.push(Seq::empty()));
                lemma_flatten_push(prev, Seq::empty());
                assert(flatten(prev) + Seq::<u8>::empty() =~= flatten(prev));
            }
        }
        let ghost mid = output@.map_values(|c: Vec<u8>| c@);
        let last = output.len() - 1;
        let mut chunk = output.pop().unwrap();
        chunk.push(bytes[i]);
        output.push(chunk);
        proof {
            let after = output@.map_values(|c: Vec<u8>| c@);
            assert(after =~= mid.update(last as int, mid.last().push(bytes@[i as int])));
            lemma_flatten_update_last(mid, bytes@[i as int]);
            assert(bytes@.take(i + 1) =~= bytes@.take(i as int).push(bytes@[i as int]));
            assert(flatten(after) =~= flatten(before) + bytes@.take(i + 1));
            if i == 0 {
                if !opened {
                    assert(keep == before.len() - 1);
                    assert(after[keep].take(before.last().len() as int) =~= before.last());
                }
            } else {
                if !opened && keep < before.len() && last as int == keep {
                    assert(after[keep].take(before.last().len() as int) =~= prev[keep].take(
                        before.last().len() as int,
                    ));
                }
            }
            assert forall|j: int| 0 <= j < keep implies #[trigger] after[j] == before[j] by {
                if i > 0 {
                    assert(after[j] == prev[j]);
                } else {
                    assert(after[j] == prev[j]);
                }
            }
        }
        i = i + 1;
    }
    proof {
        assert(bytes@.take(bytes@.len() as int) =~= bytes@);
    }
}


/// Appends `tail` to `bytes`.
fn extend_bytes(bytes: &mut Vec<u8>, tail: &[u8])
    ensures
        final(bytes)@ == old(bytes)@ + tail@,
{
    let mut i: usize = 0;
    while i < tail.len()
        invariant
            i <= tail@.len(),
            bytes@ == old(bytes)@ + tail@.take(i as int),
        decreases tail@.len() - i,
    {
        bytes.push(tail[i]);
        i = i + 1;
        assert(bytes@ =~= old(bytes)@ + tail@.take(i as int));
    }
    assert(tail@.take(tail@.len() as int) =~= tail@);
}

/// The UTF-8 encoding of one character.
fn encode_char(c: char) -> (bytes: Vec<u8>)
    ensures
        bytes@ == encode_scalar(c as u32),
{
    let mut one = String::new();
    crate::strings::push_char(&mut one, c);
    let encoded = one.as_str().as_bytes();
    proof {
        assert(one@ =~= seq![c]);
        assert(seq![c].drop_first() =~= Seq::<char>::empty());
        assert(encode_utf8(Seq::<char>::empty()) =~= Seq::<u8>::empty());
        assert(seq![c][0] == c);
        assert(encode_utf8(seq![c]) =~= encode_scalar(c as u32) + encode_utf8(Seq::<char>::empty()));
    }
    let mut bytes = Vec::new();
    extend_bytes(&mut bytes, encoded);
    bytes
}

/// The bytes of typed `text` (see [`text_input_bytes`]).
fn text_bytes(text: &str) -> (bytes: Vec<u8>)
    ensures
        bytes@ == text_input_bytes(text@, false),
{
    let chars = chars_of(text);
    let mut bytes: Vec<u8> = Vec::new();
    let mut after_line_ending = false;
    let mut i: usize = 0;
    assert(chars@.skip(0) =~= chars@);
    while i < chars.len()
        invariant
            i <= chars@.len(),
            chars@ == text@,
            bytes@ + text_input_bytes(chars@.skip(i as int), after_line_ending) == text_input_bytes(
                text@,
                false,
            ),
        decreases chars@.len() - i,
    {
        let c = chars[i];
        let ghost rest = chars@.skip(i as int);
        assert(rest.drop_first() =~= chars@.skip(i + 1));
        assert(rest[0] == c);
        if c == '\r' || c == '\n' {
            if !after_line_ending {
                bytes.push(0x0au8);
            }
            after_line_ending = true;
        } else if is_control(c) {
        } else {
            let encoded = encode_char(c);
            extend_bytes(&mut bytes, encoded.as_slice());
            after_line_ending = false;
        }
        i = i + 1;
    }
    assert(chars@.skip(i as int) =~= Seq::<char>::empty());
    assert(bytes@ + Seq::<u8>::empty() =~= bytes@);
    bytes
}

/// Appends typed text to the pending writes: line-ending runs become one
/// `'\n'`, control characters are dropped.
pub fn append_text_input(output: &mut Vec<Vec<u8>>, text: &str)
    requires
        old(output)@.len() > 0 ==> old(output)@.last()@.len() <= MAX_SHELL_INPUT_BYTES,
    ensures
        written(
            old(output)@.map_values(|c: Vec<u8>| c@),
            final(output)@.map_values(|c: Vec<u8>| c@),
            text_input_bytes(text@, false),
        ),
        final(output)@.len() > 0 ==> final(output)@.last()@.len() <= MAX_SHELL_INPUT_BYTES,
{
    let bytes = text_bytes(text);
    append_terminal_input(output, bytes.as_slice());
}

/// `ESC [ 2 0 0 ~`, the bracketed-paste opener.
pub open spec fn paste_start() -> Seq<u8> {
    seq![0x1bu8, 0x5bu8, 0x32u8, 0x30u8, 0x30u8, 0x7eu8]
}

/// `ESC [ 2 0 1 ~`, the bracketed-paste closer.
pub open spec fn paste_end() -> Seq<u8> {
    seq![0x1bu8, 0x5bu8, 0x32u8, 0x30u8, 0x31u8, 0x7eu8]
}

/// A paste as sent: the UTF-8 text, wrapped in the bracketed-paste markers
/// when the program behind the terminal asked for them.
pub open spec fn paste_bytes(text: Seq<char>, bracketed_paste: bool) -> Seq<u8> {
    if bracketed_paste {
        paste_start() + encode_utf8(text) + paste_end()
    } else {
        encode_utf8(text)
    }
}

/// Exec form of [`paste_bytes`].
pub fn paste_payload_bytes(text: &str, bracketed_paste: bool) -> (bytes: Vec<u8>)
    ensures
        bytes@ == paste_bytes(text@, bracketed_paste),
{
    let mut bytes: Vec<u8> = Vec::new();
    if bracketed_paste {
        let start = vec![0x1bu8, 0x5bu8, 0x32u8, 0x30u8, 0x30u8, 0x7eu8];
        extend_bytes(&mut bytes, start.as_slice());
    }
    extend_bytes(&mut bytes, text.as_bytes());
    if bracketed_paste {
        let end = vec![0x1bu8, 0x5bu8, 0x32u8, 0x30u8, 0x31u8, 0x7eu8];
        extend_bytes(&mut bytes, end.as_slice());
    }
    proof {
        if bracketed_paste {
            assert(bytes@ =~= paste_bytes(text@, bracketed_paste));
        } else {
            assert(bytes@ =~= paste_bytes(text@, bracketed_paste));
        }
    }
    bytes
}

/// The bytes one input event sends; `text_supplies_enter` suppresses the
/// Enter key when a text event of the same frame already carried the line
/// ending.
pub open spec fn event_bytes(
    event: TerminalEvent,
    bracketed_paste: bool,
    application_cursor: bool,
    text_supplies_enter: bool,
) -> Seq<u8> {
    match event {
        TerminalEvent::Text(t) => text_input_bytes(t@, false),
        TerminalEvent::Paste(t) => if t@.len() > 0 {
            paste_bytes(t@, bracketed_paste)
        } else {
            Seq::empty()
        },
        TerminalEvent::Copy => seq![3u8],
        TerminalEvent::Cut => seq![24u8],
        TerminalEvent::Key { key, pressed, modifiers } => if !pressed || (key
            == TerminalKey::Enter && text_supplies_enter) {
            Seq::empty()
        } else {
            match key_bytes_spec(key, modifiers, application_cursor) {
                Some(b) => b,
                None => Seq::empty(),
            }
        },
        TerminalEvent::Other => Seq::empty(),
    }
}

/// The bytes of a frame's events, in order.
pub open spec fn events_bytes(
    events: Seq<TerminalEvent>,
    bracketed_paste: bool,
    application_cursor: bool,
    text_supplies_enter: bool,
) -> Seq<u8>
    decreases events.len(),
{
    if events.len() == 0 {
        Seq::empty()
    } else {
        events_bytes(events.drop_last(), bracketed_paste, application_cursor, text_supplies_enter)
            + event_bytes(events.last(), bracketed_paste, application_cursor, text_supplies_enter)
    }
}

/// Whether any event of the frame is text with a line ending.
pub open spec fn any_line_ending(events: Seq<TerminalEvent>) -> bool {
    exists|i: int| 0 <= i < events.len() && has_line_ending(#[trigger] events[i])
}

/// Encodes one frame of input events into shell writes.
pub fn terminal_input(events: &[TerminalEvent], bracketed_paste: bool, application_cursor: bool) -> (output: Vec<Vec<u8>>)
    ensures
        written(
            Seq::empty(),
            output@.map_values(|c: Vec<u8>| c@),
            events_bytes(events@, bracketed_paste, application_cursor, any_line_ending(events@)),
        ),
{
    let mut supplies = false;
    let mut k: usize = 0;
    while k < events.len()
        invariant
            k <= events@.len(),
            supplies == exists|i: int| 0 <= i < k && has_line_ending(#[trigger] events@[i]),
        decreases events@.len() - k,
    {
        if event_has_line_ending(&events[k]) {
            supplies = true;
        }
        k = k + 1;
    }
    let mut bytes: Vec<u8> = Vec::new();
    let mut i: usize = 0;
    while i < events.len()
        invariant
            i <= events@.len(),
            supplies == any_line_ending(events@),
            bytes@ == events_bytes(events@.take(i as int), bracketed_paste, application_cursor, supplies),
        decreases events@.len() - i,
    {
        let ghost before = bytes@;
        let ghost added = event_bytes(events@[i as int], bracketed_paste, application_cursor, supplies);
        match &events[i] {
            TerminalEvent::Text(t) => {
                let b = text_bytes(t.as_str());
                extend_bytes(&mut bytes, b.as_slice());
                assert(added == text_input_bytes(t@, false));
            },
            TerminalEvent::Paste(t) => {
                if !t.as_str().is_empty() {
                    let b = paste_payload_bytes(t.as_str(), bracketed_paste);
                    extend_bytes(&mut bytes, b.as_slice());
                    assert(added == paste_bytes(t@, bracketed_paste));
                } else {
                    assert(added =~= Seq::<u8>::empty());
                }
            },
            TerminalEvent::Copy => {
                bytes.push(3u8);
                assert(added == seq![3u8]);
            },
            TerminalEvent::Cut => {
                bytes.push(24u8);
                assert(added == seq![24u8]);
            },
            TerminalEvent::Key { key, pressed, modifiers } => {
                if *pressed && !(*key == TerminalKey::Enter && supplies) {
                    if let Some(b) = key_bytes(*key, *modifiers, application_cursor) {
                        extend_bytes(&mut bytes, b.as_slice());
                        assert(added == b@);
                    } else {
                        assert(added =~= Seq::<u8>::empty());
                    }
                } else {
                    assert(added =~= Seq::<u8>::empty());
                }
            },
            TerminalEvent::Other => {
                assert(added =~= Seq::<u8>::empty());
            },
        }
        proof {
            assert(events@.take(i + 1).drop_last() =~= events@.take(i as int));
            assert(events@.take(i + 1).last() == events@[i as int]);
            assert(bytes@ =~= before + added);
        }
        i = i + 1;
    }
    assert(events@.take(events@.len() as int) =~= events@);
    let mut output: Vec<Vec<u8>> = Vec::new();
    append_terminal_input(&mut output, bytes.as_slice());
    assert(output@.map_values(|c: Vec<u8>| c@) =~= output@.map_values(|c: Vec<u8>| c@));
    proof {
        assert(Seq::<Vec<u8>>::empty().map_values(|c: Vec<u8>| c@) =~= Seq::<Seq<u8>>::empty());
    }
    output
}

} // verus!
