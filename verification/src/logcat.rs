//! The logcat console: a ring of at most [`MAX_LINES`] parsed rows fed by a
//! byte stream, a line selection that survives trimming, and the small
//! start/stop/pause session state machine.
use vstd::prelude::*;

use crate::clock::{elapsed_millis, now};
use crate::domain::{
    same_optional, same_optional_target, same_target, BackendCommand,
    BackendEvent, DeviceTarget, LogcatSessionId,
};
use crate::i18n::{text, text_spec, Language};
use crate::logline::{
    format_spec, line_passes_filters, line_passes_spec, parse_spec, selection_span,
    selection_span_spec, LogLine, LogLineView,
};
use crate::strings::{
    decimal, decimal_string, lossy_utf8, push_char, push_str, replace, replace_all,
    trim_end_char_spec, trim_end_matches_char, trim_spec, trimmed, to_lowercase,
    unicode_lowercase, utf8_lossy,
};

verus! {

/// Capacity of the row ring.
pub const MAX_LINES: usize = 10_000;

/// Minimum pause between two automatic stream starts.
pub const AUTO_START_RETRY_MILLIS: u64 = 3000;

/// Splits a byte stream at `'\n'`: the completed segments (without their
/// terminator) and the unterminated tail.
pub open spec fn split_lines(s: Seq<u8>) -> (Seq<Seq<u8>>, Seq<u8>)
    decreases s.len(),
{
    if s.len() == 0 {
        (Seq::empty(), Seq::empty())
    } else {
        let (done, current) = split_lines(s.drop_last());
        if s.last() == 10u8 {
            (done.push(current), Seq::empty())
        } else {
            (done, current.push(s.last()))
        }
    }
}

/// The row a completed segment becomes: lossily decoded, trailing `'\r'`
/// removed, then parsed.
pub open spec fn segment_row(segment: Seq<u8>) -> LogLineView {
    parse_spec(trim_end_char_spec(lossy_utf8(segment), '\r'))
}

/// The rows of a run of completed segments.
pub open spec fn segment_rows(segments: Seq<Seq<u8>>) -> Seq<LogLineView> {
    segments.map_values(|segment: Seq<u8>| segment_row(segment))
}

/// The last `n` elements of `s` (all of them when there are fewer).
pub open spec fn keep_last<A>(s: Seq<A>, n: nat) -> Seq<A> {
    if s.len() <= n {
        s
    } else {
        s.skip(s.len() - n)
    }
}

/// How many elements [`keep_last`] drops from the front.
pub open spec fn dropped_count<A>(s: Seq<A>, n: nat) -> nat {
    if s.len() <= n {
        0
    } else {
        (s.len() - n) as nat
    }
}

/// A selection after `removed` rows fell off the front: re-based, or dropped
/// when either end touched the removed rows.
pub open spec fn shifted_selection(selection: Option<(usize, usize)>, removed: nat) -> Option<
    (usize, usize),
> {
    match selection {
        Some((anchor, head)) => if anchor < removed || head < removed {
            None
        } else {
            Some(((anchor - removed) as usize, (head - removed) as usize))
        },
        None => None,
    }
}

/// Every row of `rows` in its formatted form, each followed by `'\n'`.
pub open spec fn joined_rows(rows: Seq<LogLineView>) -> Seq<char>
    decreases rows.len(),
{
    if rows.len() == 0 {
        Seq::empty()
    } else {
        joined_rows(rows.drop_last()) + format_spec(rows.last()) + seq!['\n']
    }
}

/// The indices, in order, of the rows among the first `n` that pass the
/// filters.
pub open spec fn passing_indices(
    rows: Seq<LogLineView>,
    level_filter: nat,
    query: Seq<char>,
    n: nat,
) -> Seq<usize>
    decreases n,
{
    if n == 0 {
        Seq::empty()
    } else {
        let before = passing_indices(rows, level_filter, query, (n - 1) as nat);
        if line_passes_spec(rows[n - 1], level_filter, query) {
            before.push((n - 1) as usize)
        } else {
            before
        }
    }
}

/// The normalized search query: trimmed and lowercased.
pub open spec fn normalized_query(query: Seq<char>) -> Seq<char> {
    unicode_lowercase(trim_spec(query))
}

/// The console state.
pub struct LogcatPanelState {
    pub target: Option<DeviceTarget>,
    /// The session a `StartLogcat` was sent for (pending or live).
    pub session: Option<LogcatSessionId>,
    /// A `StartLogcat` is in flight for `session`.
    pub starting: bool,
    /// The stream is live (started and not yet closed or failed).
    pub running: bool,
    /// The user pressed stop; auto-start stays off until the target changes.
    pub user_stopped: bool,
    pub paused: bool,
    pub auto_scroll: bool,
    /// Last time the view stuck to the bottom (a display throttle).
    pub last_stick: Option<std::time::Instant>,
    /// 0 = all rows, otherwise the minimum severity shifted by one.
    pub level_filter: usize,
    pub query: String,
    pub lines: Vec<LogLine>,
    pub pending_bytes: Vec<u8>,
    pub last_start_attempt: Option<std::time::Instant>,
    /// Row indices passing the current filters.
    pub visible: Vec<usize>,
    /// Selected row range (anchor, head), indices into the ring.
    pub selection: Option<(usize, usize)>,
}

impl LogcatPanelState {
    /// The ring holds at most [`MAX_LINES`] rows and the pending tail never
    /// holds a line terminator.
    pub open spec fn wf(&self) -> bool {
        &&& self.lines@.len() <= MAX_LINES
        &&& forall|i: int| 0 <= i < self.pending_bytes@.len() ==> self.pending_bytes@[i] != 10u8
    }

    /// The rows of the ring, oldest first.
    pub open spec fn rows(&self) -> Seq<LogLineView> {
        self.lines@.map_values(|line: LogLine| line@)
    }

    /// The unterminated tail of the stream.
    pub open spec fn pending(&self) -> Seq<u8> {
        self.pending_bytes@
    }

    /// Whether the selection (when present) lies within the ring.
    pub open spec fn selection_in_ring(&self) -> bool {
        self.selection matches Some((a, h)) ==> a < self.rows().len() && h < self.rows().len()
    }

    /// All fields other than the ring, the pending tail and the selection
    /// are those of `other`.
    pub open spec fn same_controls(&self, other: &Self) -> bool {
        &&& same_optional_target(self.target, other.target)
        &&& self.session == other.session
        &&& self.starting == other.starting
        &&& self.running == other.running
        &&& self.user_stopped == other.user_stopped
        &&& self.paused == other.paused
        &&& self.auto_scroll == other.auto_scroll
        &&& self.level_filter == other.level_filter
        &&& self.query@ == other.query@
    }

    /// An idle console with an empty ring.
    pub fn new() -> (state: Self)
        ensures
            state.wf(),
            state.rows().len() == 0,
            state.pending().len() == 0,
            state.target is None,
            state.session is None,
            !state.starting && !state.running && !state.user_stopped && !state.paused
                && !state.auto_scroll,
            state.level_filter == 0,
            state.query@.len() == 0,
            state.selection is None,
            state.last_start_attempt is None,
    {
        LogcatPanelState {
            target: None,
            session: None,
            starting: false,
            running: false,
            user_stopped: false,
            paused: false,
            auto_scroll: false,
            last_stick: None,
            level_filter: 0,
            query: String::new(),
            lines: Vec::new(),
            pending_bytes: Vec::new(),
            last_start_attempt: None,
            visible: Vec::new(),
            selection: None,
        }
    }

    /// The ring, oldest row first.
    pub fn lines(&self) -> (lines: &Vec<LogLine>)
        ensures
            lines@.map_values(|line: LogLine| line@) == self.rows(),
    {
        &self.lines
    }

    /// The unterminated tail of the stream.
    pub fn pending_bytes(&self) -> (pending: &Vec<u8>)
        ensures
            pending@ == self.pending(),
    {
        &self.pending_bytes
    }

    /// Follows the selected device: a changed target stops the stream,
    /// clears the ring and re-arms auto-start.
    pub fn reset_for(&mut self, target: Option<DeviceTarget>) -> (commands: Vec<BackendCommand>)
        requires
            old(self).wf(),
        ensures
            final(self).wf(),
            same_optional_target(final(self).target, target),
            if same_optional_target(old(self).target, target) {
                &&& commands@.len() == 0
                &&& *final(self) == *old(self)
            } else {
                &&& match old(self).session {
                    Some(session) => commands@.len() == 1 && commands@[0]
                        == BackendCommand::StopLogcat(session),
                    None => commands@.len() == 0,
                }
                &&& final(self).session is None
                &&& !final(self).starting && !final(self).running && !final(self).user_stopped
                &&& final(self).rows().len() == 0
                &&& final(self).pending().len() == 0
                &&& final(self).selection is None
                &&& final(self).paused == old(self).paused
                &&& final(self).level_filter == old(self).level_filter
            },
    {
        if same_optional(&self.target, &target) {
            return Vec::new();
        }
        self.target = target;
        let commands = self.take_down();
        self.user_stopped = false;
        commands
    }

    /// Stops any live stream and clears the ring.
    pub fn take_down(&mut self) -> (commands: Vec<BackendCommand>)
        requires
            old(self).wf(),
        ensures
            final(self).wf(),
            match old(self).session {
                Some(session) => commands@.len() == 1 && commands@[0] == BackendCommand::StopLogcat(
                    session,
                ),
                None => commands@.len() == 0,
            },
            final(self).session is None,
            !final(self).starting,
            !final(self).running,
            final(self).rows().len() == 0,
            final(self).pending().len() == 0,
            final(self).selection is None,
            same_optional_target(final(self).target, old(self).target),
            final(self).user_stopped == old(self).user_stopped,
            final(self).paused == old(self).paused,
            final(self).auto_scroll == old(self).auto_scroll,
            final(self).level_filter == old(self).level_filter,
            final(self).query@ == old(self).query@,
            final(self).visible@ == old(self).visible@,
            final(self).last_stick == old(self).last_stick,
            final(self).last_start_attempt == old(self).last_start_attempt,
    {
        let mut commands = Vec::new();
        if let Some(session) = self.session.take() {
            commands.push(BackendCommand::StopLogcat(session));
        }
        self.starting = false;
        self.running = false;
        self.lines.clear();
        self.pending_bytes.clear();
        self.selection = None;
        proof {
            assert(self.lines@.map_values(|line: LogLine| line@) =~= Seq::<LogLineView>::empty());
        }
        commands
    }

    /// Applies a backend event addressed to this console's session; events
    /// for other sessions or targets change nothing.
    pub fn handle_event(&mut self, event: &BackendEvent)
        requires
            old(self).wf(),
        ensures
            final(self).wf(),
            match *event {
                BackendEvent::LogcatStarted { target, session_id } => if old(self).target matches Some(
                    t,
                ) && same_target(t, target) && old(self).session == Some(session_id) {
                    &&& !final(self).starting && final(self).running && !final(self).user_stopped
                    &&& final(self).session == old(self).session
                    &&& final(self).rows() == old(self).rows()
                    &&& final(self).pending() == old(self).pending()
                    &&& final(self).selection == old(self).selection
                } else {
                    *final(self) == *old(self)
                },
                BackendEvent::LogcatOutput { session_id, bytes } => if old(self).session == Some(
                    session_id,
                ) && bytes@.len() > 0 {
                    final(self).ingested(old(self), bytes@)
                } else {
                    *final(self) == *old(self)
                },
                BackendEvent::LogcatClosed { session_id } => final(self).stream_ended(
                    old(self),
                    session_id,
                ),
                BackendEvent::LogcatFailed { session_id, .. } => final(self).stream_ended(
                    old(self),
                    session_id,
                ),
                _ => *final(self) == *old(self),
            },
    {
        match event {
            BackendEvent::LogcatStarted { target, session_id } => {
                let matches_target = match &self.target {
                    Some(t) => t.same_as(target),
                    None => false,
                };
                if matches_target && self.session == Some(*session_id) {
                    self.starting = false;
                    self.running = true;
                    self.user_stopped = false;
                }
            },
            BackendEvent::LogcatOutput { session_id, bytes } => {
                if self.session == Some(*session_id) && bytes.len() > 0 {
                    self.ingest(bytes.as_slice());
                }
            },
            BackendEvent::LogcatClosed { session_id } => {
                if self.session == Some(*session_id) {
                    self.session = None;
                    self.starting = false;
                    self.running = false;
                }
            },
            BackendEvent::LogcatFailed { session_id, .. } => {
                if self.session == Some(*session_id) {
                    self.session = None;
                    self.starting = false;
                    self.running = false;
                }
            },
            _ => {},
        }
    }

    /// `self` is `before` after the stream `session_id` closed or failed:
    /// the session is forgotten when it is the console's own.
    pub open spec fn stream_ended(&self, before: &Self, session_id: LogcatSessionId) -> bool {
        if before.session == Some(session_id) {
            &&& self.session is None
            &&& !self.starting && !self.running
            &&& self.user_stopped == before.user_stopped
            &&& self.rows() == before.rows()
            &&& self.pending() == before.pending()
            &&& self.selection == before.selection
        } else {
            *self == *before
        }
    }

    /// The rows the ring would hold without its capacity limit after
    /// `bytes` arrived.
    pub open spec fn ingest_rows(&self, bytes: Seq<u8>) -> Seq<LogLineView> {
        self.rows() + if self.paused {
            Seq::empty()
        } else {
            segment_rows(split_lines(self.pending() + bytes).0)
        }
    }

    /// `self` is `before` after `bytes` arrived: completed lines appended
    /// (unless paused) and trimmed to the newest [`MAX_LINES`], the selection
    /// shifted by the rows that fell off, the tail kept pending.
    pub open spec fn ingested(&self, before: &Self, bytes: Seq<u8>) -> bool {
        &&& self.rows() == keep_last(before.ingest_rows(bytes), MAX_LINES as nat)
        &&& self.pending() == split_lines(before.pending() + bytes).1
        &&& self.selection == shifted_selection(
            before.selection,
            dropped_count(before.ingest_rows(bytes), MAX_LINES as nat),
        )
        &&& self.same_controls(before)
        &&& self.visible == before.visible
    }

    /// Splits streamed bytes into lines and appends them while not paused. A
    /// paused stream keeps consuming (dropping) data.
    pub fn ingest(&mut self, bytes: &[u8])
        requires
            old(self).wf(),
        ensures
            final(self).wf(),
            final(self).ingested(old(self), bytes@),
    {
        let ghost start = *self;
        let ghost base = start.pending_bytes@;
        let mut index: usize = 0;
        proof {
            assert(bytes@.take(0) =~= Seq::<u8>::empty());
            assert(base + bytes@.take(0) =~= base);
            lemma_split_lines_no_newline(base);
            assert(segment_rows(Seq::<Seq<u8>>::empty()) =~= Seq::<LogLineView>::empty());
            assert(start.rows() + Seq::<LogLineView>::empty() =~= start.rows());
        }
        while index < bytes.len()
            invariant
                index <= bytes@.len(),
                self.wf(),
                start.wf(),
                base == start.pending_bytes@,
                self.pending_bytes@ == split_lines(base + bytes@.take(index as int)).1,
                self.rows() == keep_last(
                    start.rows() + if start.paused {
                        Seq::empty()
                    } else {
                        segment_rows(split_lines(base + bytes@.take(index as int)).0)
                    },
                    MAX_LINES as nat,
                ),
                self.selection == shifted_selection(
                    start.selection,
                    dropped_count(
                        start.rows() + if start.paused {
                            Seq::empty()
                        } else {
                            segment_rows(split_lines(base + bytes@.take(index as int)).0)
                        },
                        MAX_LINES as nat,
                    ),
                ),
                self.same_controls(&start),
                self.visible == start.visible,
            decreases bytes@.len() - index,
        {
            let byte = bytes[index];
            let ghost prefix = base + bytes@.take(index as int);
            let ghost next = base + bytes@.take(index + 1);
            proof {
                assert(next.drop_last() =~= prefix);
                assert(next.last() == byte);
            }
            if byte == 10u8 {
                let text = utf8_lossy(self.pending_bytes.as_slice());
                let line_text = trim_end_matches_char(text.as_str(), '\r');
                let line = LogLine::parse(line_text.as_str());
                let ghost combined = start.rows() + segment_rows(split_lines(prefix).0);
                proof {
                    assert(segment_rows(split_lines(next).0) =~= segment_rows(split_lines(prefix).0).push(line@));
                    assert(start.rows() + segment_rows(split_lines(next).0) =~= combined.push(line@));
                }
                if !self.paused {
                    self.append(line);
                    proof {
                        lemma_keep_last_push(combined, line@, MAX_LINES as nat);
                        lemma_shift_compose(
                            start.selection,
                            dropped_count(combined, MAX_LINES as nat),
                            if keep_last(combined, MAX_LINES as nat).len() + 1 > MAX_LINES { 1 } else { 0 },
                        );
                    }
                }
                self.pending_bytes.clear();
            } else {
                self.pending_bytes.push(byte);
                proof {
                    assert(split_lines(next).0 == split_lines(prefix).0);
                }
            }
            index = index + 1;
        }
        proof {
            assert(bytes@.take(bytes@.len() as int) =~= bytes@);
        }
    }

    /// Appends one row, dropping the oldest when the ring is full.
    fn append(&mut self, line: LogLine)
        requires
            old(self).wf(),
        ensures
            final(self).wf(),
            final(self).rows() == keep_last(old(self).rows().push(line@), MAX_LINES as nat),
            final(self).selection == shifted_selection(
                old(self).selection,
                dropped_count(old(self).rows().push(line@), MAX_LINES as nat),
            ),
            dropped_count(old(self).rows().push(line@), MAX_LINES as nat) == (if old(
                self,
            ).rows().len() + 1 > MAX_LINES {
                1nat
            } else {
                0nat
            }),
            final(self).pending_bytes == old(self).pending_bytes,
            final(self).same_controls(old(self)),
            final(self).visible == old(self).visible,
            final(self).paused == old(self).paused,
    {
        let ghost before = self.lines@.map_values(|l: LogLine| l@);
        self.lines.push(line);
        proof {
            assert(self.lines@.map_values(|l: LogLine| l@) =~= before.push(line@));
        }
        if self.lines.len() > MAX_LINES {
            self.lines.remove(0);
            proof {
                assert(self.lines@.map_values(|l: LogLine| l@) =~= before.push(line@).skip(1));
            }
            self.shift_selection_after_trim(1);
        } else {
            proof {
                assert(shifted_selection(self.selection, 0) == self.selection);
            }
        }
    }

    /// Selection anchors are ring indices; when rows fall off the front, a
    /// range that touched them is dropped rather than re-anchored.
    pub fn shift_selection_after_trim(&mut self, removed: usize)
        ensures
            final(self).selection == shifted_selection(old(self).selection, removed as nat),
            final(self).lines == old(self).lines,
            final(self).pending_bytes == old(self).pending_bytes,
            final(self).same_controls(old(self)),
            final(self).visible == old(self).visible,
    {
        match self.selection {
            Some((anchor, head)) => {
                if anchor < removed || head < removed {
                    self.selection = None;
                } else {
                    self.selection = Some((anchor - removed, head - removed));
                }
            },
            None => {},
        }
    }
}

proof fn lemma_split_lines_no_newline(s: Seq<u8>)
    requires
        forall|i: int| 0 <= i < s.len() ==> s[i] != 10u8,
    ensures
        split_lines(s) == (Seq::<Seq<u8>>::empty(), s),
    decreases s.len(),
{
    if s.len() > 0 {
        lemma_split_lines_no_newline(s.drop_last());
        assert(s.drop_last().push(s.last()) =~= s);
    }
}

proof fn lemma_keep_last_push<A>(s: Seq<A>, x: A, n: nat)
    requires
        n > 0,
    ensures
        keep_last(keep_last(s, n).push(x), n) == keep_last(s.push(x), n),
        dropped_count(s.push(x), n) == dropped_count(s, n) + (if keep_last(s, n).len() + 1 > n {
            1nat
        } else {
            0nat
        }),
{
    if s.len() < n {
    } else {
        assert(keep_last(keep_last(s, n).push(x), n) =~= keep_last(s.push(x), n));
    }
}

proof fn lemma_shift_compose(selection: Option<(usize, usize)>, a: nat, b: nat)
    ensures
        shifted_selection(shifted_selection(selection, a), b) == shifted_selection(selection, a + b),
{
}

/// The unterminated tail of a split holds no line terminator.
proof fn lemma_split_tail_no_newline(s: Seq<u8>)
    ensures
        forall|i: int| 0 <= i < split_lines(s).1.len() ==> split_lines(s).1[i] != 10u8,
    decreases s.len(),
{
    if s.len() > 0 {
        lemma_split_tail_no_newline(s.drop_last());
        let prev = split_lines(s.drop_last()).1;
        if s.last() != 10u8 {
            assert forall|i: int| 0 <= i < split_lines(s).1.len() implies split_lines(s).1[i]
                != 10u8 by {
                if i < prev.len() {
                    assert(split_lines(s).1[i] == prev[i]);
                }
            }
        }
    }
}

/// Splitting `s + t` is splitting `s`, then its tail followed by `t`.
proof fn lemma_split_lines_append(s: Seq<u8>, t: Seq<u8>)
    ensures
        split_lines(s + t).0 == split_lines(s).0 + split_lines(split_lines(s).1 + t).0,
        split_lines(s + t).1 == split_lines(split_lines(s).1 + t).1,
    decreases t.len(),
{
    let tail = split_lines(s).1;
    if t.len() == 0 {
        assert(s + t =~= s);
        assert(tail + t =~= tail);
        lemma_split_tail_no_newline(s);
        lemma_split_lines_no_newline(tail);
        assert(split_lines(s).0 + Seq::<Seq<u8>>::empty() =~= split_lines(s).0);
    } else {
        let t0 = t.drop_last();
        lemma_split_lines_append(s, t0);
        assert((s + t).drop_last() =~= s + t0);
        assert((s + t).last() == t.last());
        assert((tail + t).drop_last() =~= tail + t0);
        assert((tail + t).last() == t.last());
        if t.last() == 10u8 {
            assert(split_lines(s + t).0 =~= split_lines(s).0 + split_lines(tail + t).0);
        }
    }
}

/// Trimming to the newest `n` before or after appending `y` keeps the same
/// elements, and the drops add up.
proof fn lemma_keep_last_append<A>(x: Seq<A>, y: Seq<A>, n: nat)
    ensures
        keep_last(keep_last(x, n) + y, n) == keep_last(x + y, n),
        dropped_count(x + y, n) == dropped_count(x, n) + dropped_count(keep_last(x, n) + y, n),
{
    if x.len() <= n {
    } else {
        assert(keep_last(keep_last(x, n) + y, n) =~= keep_last(x + y, n));
    }
}

/// Stream bytes that arrive in two pieces leave the console as the same
/// bytes arriving at once would: the same rows, the same pending tail, the
/// same selection, and the same controls.
pub proof fn lemma_ingest_split_independent(
    s0: LogcatPanelState,
    s1: LogcatPanelState,
    s2: LogcatPanelState,
    a: Seq<u8>,
    b: Seq<u8>,
)
    requires
        s1.ingested(&s0, a),
        s2.ingested(&s1, b),
    ensures
        s2.ingested(&s0, a + b),
{
    let p0 = s0.pending();
    assert(p0 + a + b =~= p0 + (a + b));
    lemma_split_lines_append(p0 + a, b);
    let first = split_lines(p0 + a).0;
    let second = split_lines(s1.pending() + b).0;
    assert(segment_rows(first + second) =~= segment_rows(first) + segment_rows(second));
    let x = s0.rows() + if s0.paused {
        Seq::empty()
    } else {
        segment_rows(first)
    };
    let y = if s0.paused {
        Seq::empty()
    } else {
        segment_rows(second)
    };
    assert(s0.ingest_rows(a) == x);
    assert(s1.ingest_rows(b) == s1.rows() + y);
    assert(x + y =~= s0.ingest_rows(a + b));
    lemma_keep_last_append(x, y, MAX_LINES as nat);
    lemma_shift_compose(
        s0.selection,
        dropped_count(x, MAX_LINES as nat),
        dropped_count(keep_last(x, MAX_LINES as nat) + y, MAX_LINES as nat),
    );
}


impl LogcatPanelState {
    /// Start button: opens a stream on the selected device unless one is
    /// already starting or running.
    pub fn start_clicked(&mut self) -> (command: Option<BackendCommand>)
        requires
            old(self).wf(),
        ensures
            final(self).wf(),
            if !old(self).running && !old(self).starting && old(self).target is Some {
                &&& command matches Some(BackendCommand::StartLogcat { target, session_id }) && same_target(
                    target,
                    old(self).target->0,
                ) && final(self).session == Some(session_id)
                &&& final(self).starting && !final(self).paused && !final(self).user_stopped
                &&& final(self).rows() == old(self).rows()
                &&& final(self).selection == old(self).selection
                &&& final(self).last_start_attempt is Some
            } else {
                command is None && *final(self) == *old(self)
            },
    {
        if self.running || self.starting {
            return None;
        }
        let target = match &self.target {
            Some(t) => t.duplicate(),
            None => return None,
        };
        let session_id = LogcatSessionId::new();
        self.session = Some(session_id);
        self.starting = true;
        self.paused = false;
        self.user_stopped = false;
        self.last_start_attempt = Some(now());
        Some(BackendCommand::StartLogcat { target, session_id })
    }

    /// Stop button: takes the stream down and keeps auto-start off until the
    /// target changes.
    pub fn stop_clicked(&mut self) -> (commands: Vec<BackendCommand>)
        requires
            old(self).wf(),
        ensures
            final(self).wf(),
            match old(self).session {
                Some(session) => commands@.len() == 1 && commands@[0] == BackendCommand::StopLogcat(
                    session,
                ),
                None => commands@.len() == 0,
            },
            final(self).user_stopped,
            final(self).session is None,
            !final(self).starting && !final(self).running,
            final(self).rows().len() == 0,
            final(self).pending().len() == 0,
            final(self).selection is None,
            same_optional_target(final(self).target, old(self).target),
            final(self).paused == old(self).paused,
            final(self).auto_scroll == old(self).auto_scroll,
            final(self).level_filter == old(self).level_filter,
            final(self).query@ == old(self).query@,
            final(self).visible@ == old(self).visible@,
            final(self).last_stick == old(self).last_stick,
            final(self).last_start_attempt == old(self).last_start_attempt,
    {
        let commands = self.take_down();
        self.user_stopped = true;
        commands
    }

    /// Pause/resume: a paused stream keeps consuming, and dropping, rows.
    pub fn toggle_pause(&mut self)
        ensures
            *final(self) == (LogcatPanelState { paused: !old(self).paused, ..*old(self) }),
    {
        self.paused = !self.paused;
    }

    /// Clear button: empties the ring (the stream keeps running).
    pub fn clear(&mut self)
        requires
            old(self).wf(),
        ensures
            final(self).wf(),
            final(self).rows().len() == 0,
            final(self).selection is None,
            final(self).pending() == old(self).pending(),
            final(self).same_controls(old(self)),
    {
        self.lines.clear();
        self.selection = None;
        proof {
            assert(self.lines@.map_values(|line: LogLine| line@) =~= Seq::<LogLineView>::empty());
        }
    }

    /// Rebuilds `visible` for the current filters.
    pub fn rebuild_visible(&mut self)
        requires
            old(self).wf(),
        ensures
            final(self).wf(),
            final(self).visible@ == passing_indices(
                old(self).rows(),
                old(self).level_filter as nat,
                normalized_query(old(self).query@),
                old(self).rows().len(),
            ),
            final(self).lines == old(self).lines,
            final(self).pending_bytes == old(self).pending_bytes,
            final(self).selection == old(self).selection,
            final(self).same_controls(old(self)),
    {
        let query = normalized_query_of(&self.query);
        let mut visible: Vec<usize> = Vec::new();
        let mut i: usize = 0;
        while i < self.lines.len()
            invariant
                i <= self.lines@.len(),
                query@ == normalized_query(self.query@),
                visible@ == passing_indices(self.rows(), self.level_filter as nat, query@, i as nat),
            decreases self.lines@.len() - i,
        {
            assert(self.rows()[i as int] == self.lines@[i as int]@);
            if line_passes_filters(&self.lines[i], self.level_filter, query.as_str()) {
                visible.push(i);
            }
            i = i + 1;
        }
        self.visible = visible;
    }

    /// The formatted rows passing the current filters, one per line.
    pub fn filtered_text(&self) -> (body: String)
        ensures
            body@ == joined_rows(
                passing_indices(
                    self.rows(),
                    self.level_filter as nat,
                    normalized_query(self.query@),
                    self.rows().len(),
                ).map_values(|i: usize| self.rows()[i as int]),
            ),
    {
        let query = normalized_query_of(&self.query);
        let mut body = String::new();
        let mut i: usize = 0;
        let ghost rows = self.rows();
        while i < self.lines.len()
            invariant
                i <= self.lines@.len(),
                rows == self.rows(),
                query@ == normalized_query(self.query@),
                body@ == joined_rows(
                    passing_indices(rows, self.level_filter as nat, query@, i as nat).map_values(
                        |j: usize| rows[j as int],
                    ),
                ),
                forall|k: int|
                    0 <= k < passing_indices(rows, self.level_filter as nat, query@, i as nat).len()
                        ==> #[trigger] passing_indices(rows, self.level_filter as nat, query@, i as nat)[k]
                        < i,
            decreases self.lines@.len() - i,
        {
            let ghost before = passing_indices(rows, self.level_filter as nat, query@, i as nat);
            assert(rows[i as int] == self.lines@[i as int]@);
            if line_passes_filters(&self.lines[i], self.level_filter, query.as_str()) {
                let shown = self.lines[i].format();
                push_str(&mut body, shown.as_str());
                push_char(&mut body, '\n');
                proof {
                    let after = before.push(i);
                    assert(passing_indices(rows, self.level_filter as nat, query@, (i + 1) as nat)
                        == after);
                    let mapped = after.map_values(|j: usize| rows[j as int]);
                    assert(mapped.drop_last() =~= before.map_values(|j: usize| rows[j as int]));
                    assert(mapped.last() == rows[i as int]);
                    assert(body@ =~= joined_rows(mapped));
                }
            } else {
                assert(passing_indices(rows, self.level_filter as nat, query@, (i + 1) as nat)
                    == before);
            }
            i = i + 1;
        }
        body
    }

    /// Every row of the ring, formatted, one per line (the export format).
    pub fn export_text(&self) -> (body: String)
        ensures
            body@ == joined_rows(self.rows()),
    {
        let mut body = String::new();
        let mut i: usize = 0;
        let ghost rows = self.rows();
        while i < self.lines.len()
            invariant
                i <= self.lines@.len(),
                rows == self.rows(),
                body@ == joined_rows(rows.take(i as int)),
            decreases self.lines@.len() - i,
        {
            let shown = self.lines[i].format();
            push_str(&mut body, shown.as_str());
            push_char(&mut body, '\n');
            proof {
                assert(rows.take(i + 1).drop_last() =~= rows.take(i as int));
            }
            i = i + 1;
        }
        assert(rows.take(rows.len() as int) =~= rows);
        body
    }
}

/// `query.trim().to_lowercase()`.
fn normalized_query_of(query: &String) -> (normalized: String)
    ensures
        normalized@ == normalized_query(query@),
{
    let t = trimmed(query.as_str());
    to_lowercase(t.as_str())
}

/// The formatted rows covered by the selection, one per line; `None`
/// without a selection.
pub fn selection_text(state: &LogcatPanelState) -> (body: Option<String>)
    requires
        state.selection_in_ring(),
    ensures
        match selection_span_spec(state.selection) {
            Some((start, end)) => body matches Some(b) && b@ == joined_rows(
                state.rows().subrange(start as int, end + 1),
            ),
            None => body is None,
        },
{
    let (start, end) = match selection_span(state.selection) {
        Some(span) => span,
        None => return None,
    };
    let ghost rows = state.rows();
    let count = state.lines.len();
    let mut body = String::new();
    let mut i = start;
    assert(rows.subrange(start as int, start as int) =~= Seq::<LogLineView>::empty());
    while i <= end
        invariant
            start <= i <= end + 1,
            end < rows.len(),
            count == rows.len(),
            rows == state.rows(),
            body@ == joined_rows(rows.subrange(start as int, i as int)),
        decreases end + 1 - i,
    {
        let shown = state.lines[i].format();
        push_str(&mut body, shown.as_str());
        push_char(&mut body, '\n');
        proof {
            assert(rows.subrange(start as int, i + 1).drop_last() =~= rows.subrange(
                start as int,
                i as int,
            ));
        }
        i = i + 1;
    }
    Some(body)
}

/// The formatted rows at `visible`, in that order, one per line.
pub fn visible_text(state: &LogcatPanelState, visible: &[usize]) -> (body: String)
    requires
        forall|k: int| 0 <= k < visible@.len() ==> #[trigger] visible@[k] < state.rows().len(),
    ensures
        body@ == joined_rows(visible@.map_values(|i: usize| state.rows()[i as int])),
{
    let ghost rows = state.rows();
    let mut body = String::new();
    let mut k: usize = 0;
    while k < visible.len()
        invariant
            k <= visible@.len(),
            rows == state.rows(),
            forall|j: int| 0 <= j < visible@.len() ==> #[trigger] visible@[j] < rows.len(),
            body@ == joined_rows(visible@.take(k as int).map_values(|i: usize| rows[i as int])),
        decreases visible@.len() - k,
    {
        let index = visible[k];
        let shown = state.lines[index].format();
        push_str(&mut body, shown.as_str());
        push_char(&mut body, '\n');
        proof {
            assert(visible@.take(k + 1).map_values(|i: usize| rows[i as int]).drop_last()
                =~= visible@.take(k as int).map_values(|i: usize| rows[i as int]));
        }
        k = k + 1;
    }
    assert(visible@.take(visible@.len() as int) =~= visible@);
    body
}

/// Whether the console has a device to stream from.
pub fn online_and_selected(state: &LogcatPanelState) -> (online: bool)
    ensures
        online == state.target is Some,
{
    state.target.is_some()
}

/// The translated `key` with `{visible}` and `{total}` filled in.
pub open spec fn text_with_count_spec(
    language: Language,
    key: Seq<char>,
    visible: nat,
    total: nat,
) -> Seq<char> {
    replace_all(
        replace_all(text_spec(language, key), "{visible}"@, decimal(visible)),
        "{total}"@,
        decimal(total),
    )
}

/// "显示 123 / 4560 行": the translated template with the counts filled in.
pub fn text_with_count(language: Language, key: &str, visible: usize, total: usize) -> (shown: String)
    ensures
        shown@ == text_with_count_spec(language, key@, visible as nat, total as nat),
{
    let template = text(language, key);
    let visible_text = decimal_string(visible as u64);
    let total_text = decimal_string(total as u64);
    proof {
        reveal_strlit("{visible}");
        reveal_strlit("{total}");
    }
    let partial = replace(template, "{visible}", visible_text.as_str());
    replace(partial.as_str(), "{total}", total_text.as_str())
}

/// Whether the automatic start is ruled out regardless of timing.
pub open spec fn auto_start_blocked(state: &LogcatPanelState, target_online: bool) -> bool {
    ||| !target_online
    ||| state.running
    ||| state.starting
    ||| state.user_stopped
    ||| state.session is Some
    ||| state.target is None
}

/// `state` after an automatic start with session `session_id`.
pub open spec fn auto_started(
    state: &LogcatPanelState,
    before: &LogcatPanelState,
    commands: Seq<BackendCommand>,
) -> bool {
    &&& commands.len() == 1
    &&& commands[0] matches BackendCommand::StartLogcat { target, session_id } && same_target(
        target,
        before.target->0,
    ) && state.session == Some(session_id)
    &&& state.starting
    &&& same_optional_target(state.target, before.target)
    &&& !state.running && !state.user_stopped && state.paused == before.paused
    &&& state.lines == before.lines
    &&& state.pending_bytes == before.pending_bytes
    &&& state.selection == before.selection
}

/// The start decision once the time since the last attempt is known:
/// start when nothing blocks it and no attempt happened within
/// [`AUTO_START_RETRY_MILLIS`].
pub fn auto_start_after(
    state: &mut LogcatPanelState,
    target_online: bool,
    since_last_attempt: Option<u64>,
) -> (commands: Vec<BackendCommand>)
    requires
        old(state).wf(),
    ensures
        final(state).wf(),
        if auto_start_blocked(old(state), target_online) || (since_last_attempt matches Some(ms)
            && ms < AUTO_START_RETRY_MILLIS) {
            commands@.len() == 0 && *final(state) == *old(state)
        } else {
            auto_started(final(state), old(state), commands@)
        },
{
    let mut commands = Vec::new();
    if !target_online || state.running || state.starting || state.user_stopped
        || state.session.is_some() {
        return commands;
    }
    if let Some(ms) = since_last_attempt {
        if ms < AUTO_START_RETRY_MILLIS {
            return commands;
        }
    }
    let target = match &state.target {
        Some(t) => t.duplicate(),
        None => return commands,
    };
    let session_id = LogcatSessionId::new();
    state.session = Some(session_id);
    state.starting = true;
    commands.push(BackendCommand::StartLogcat { target, session_id });
    commands
}

/// Called each frame while the console is on screen: starts the stream when
/// a device is online and no session exists, backing off
/// [`AUTO_START_RETRY_MILLIS`] between attempts.
pub fn auto_start(state: &mut LogcatPanelState, target_online: bool) -> (commands: Vec<
    BackendCommand,
>)
    requires
        old(state).wf(),
    ensures
        final(state).wf(),
        auto_start_blocked(old(state), target_online) ==> commands@.len() == 0 && *final(state)
            == *old(state),
        !auto_start_blocked(old(state), target_online) && old(state).last_start_attempt is None
            ==> auto_started(final(state), old(state), commands@),
        commands@.len() == 0 ==> *final(state) == *old(state),
        commands@.len() > 0 ==> auto_started(final(state), old(state), commands@)
            && final(state).last_start_attempt is Some,
{
    let since = match &state.last_start_attempt {
        Some(at) => Some(elapsed_millis(at)),
        None => None,
    };
    let commands = auto_start_after(state, target_online, since);
    if commands.len() > 0 {
        state.last_start_attempt = Some(now());
    }
    commands
}

impl Default for LogcatPanelState {
    fn default() -> (state: Self)
        ensures
            state.wf(),
            state.rows().len() == 0,
            state.pending().len() == 0,
            state.target is None,
            state.session is None,
            !state.starting && !state.running && !state.user_stopped && !state.paused,
            state.selection is None,
    {
        LogcatPanelState::new()
    }
}

/// The search ignores letter case: whether a row passes depends on its
/// tag, its message and the query only through their lowercase forms (the
/// query taken without surrounding whitespace), so rows and queries that
/// lowercase alike pass alike.
pub proof fn lemma_search_ignores_case(
    line: LogLineView,
    other: LogLineView,
    filter: nat,
    query: Seq<char>,
    other_query: Seq<char>,
)
    requires
        line.level == other.level,
        unicode_lowercase(line.tag) == unicode_lowercase(other.tag),
        unicode_lowercase(line.message) == unicode_lowercase(other.message),
        unicode_lowercase(trim_spec(query)) == unicode_lowercase(trim_spec(other_query)),
    ensures
        line_passes_spec(line, filter, normalized_query(query)) == line_passes_spec(
            other,
            filter,
            normalized_query(other_query),
        ),
{
}

} // verus!
