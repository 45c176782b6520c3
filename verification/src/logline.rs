//! One row of `logcat -v threadtime` output: parsing, formatting and the
//! severity and text filters of the logcat console.
use vstd::prelude::*;

use crate::strings::{
    chars_of, is_infix, is_whitespace, push_char, push_str, skip_whitespace,
    str_contains, string_from_chars, to_lowercase, trim_start_spec, unicode_lowercase,
    white_space,
};
use vstd::string::StrSliceExecFns;

verus! {

broadcast use vstd::string::group_string_axioms;

/// The abstract content of a [`LogLine`].
pub struct LogLineView {
    pub time: Seq<char>,
    pub pid: Seq<char>,
    pub tid: Seq<char>,
    pub level: char,
    pub tag: Seq<char>,
    pub message: Seq<char>,
}

/// A parsed logcat row; unrecognized rows keep their raw text as the message
/// and carry the level `'?'`.
#[derive(Clone, Debug)]
pub struct LogLine {
    pub time: String,
    pub pid: String,
    pub tid: String,
    pub level: char,
    pub tag: String,
    pub message: String,
}

impl View for LogLine {
    type V = LogLineView;

    open spec fn view(&self) -> LogLineView {
        LogLineView {
            time: self.time@,
            pid: self.pid@,
            tid: self.tid@,
            level: self.level,
            tag: self.tag@,
            message: self.message@,
        }
    }
}

/// Position of a severity letter in ascending order `V D I W E F`.
pub open spec fn level_rank(level: char) -> Option<nat> {
    if level == 'V' {
        Some(0)
    } else if level == 'D' {
        Some(1)
    } else if level == 'I' {
        Some(2)
    } else if level == 'W' {
        Some(3)
    } else if level == 'E' {
        Some(4)
    } else if level == 'F' {
        Some(5)
    } else {
        None
    }
}

/// Length of the run of non-whitespace characters that starts `s`.
pub open spec fn token_len(s: Seq<char>) -> nat
    decreases s.len(),
{
    if s.len() == 0 || white_space(s[0]) {
        0
    } else {
        1 + token_len(s.drop_first())
    }
}

/// Prepends `fields` to the fields of a split result.
pub open spec fn prepend_fields(
    fields: Seq<Seq<char>>,
    split: Option<(Seq<Seq<char>>, Seq<char>)>,
) -> Option<(Seq<Seq<char>>, Seq<char>)> {
    match split {
        Some((more, rest)) => Some((fields + more, rest)),
        None => None,
    }
}

/// The first `count` whitespace-separated fields of `s` and the remainder
/// with its leading whitespace removed; `None` when fewer fields exist.
pub open spec fn split_prefix_spec(s: Seq<char>, count: nat) -> Option<(Seq<Seq<char>>, Seq<char>)>
    decreases count,
{
    if count == 0 {
        Some((Seq::empty(), trim_start_spec(s)))
    } else {
        let t = trim_start_spec(s);
        let end = token_len(t);
        if end == 0 {
            None
        } else {
            prepend_fields(seq![t.take(end as int)], split_prefix_spec(t.skip(end as int), (count - 1) as nat))
        }
    }
}

proof fn lemma_split_prefix_len(s: Seq<char>, count: nat)
    ensures
        split_prefix_spec(s, count) matches Some((fields, _)) ==> fields.len() == count,
    decreases count,
{
    if count > 0 {
        let t = trim_start_spec(s);
        let end = token_len(t);
        if end > 0 {
            lemma_split_prefix_len(t.skip(end as int), (count - 1) as nat);
        }
    }
}

proof fn lemma_token_len_bound(s: Seq<char>)
    ensures
        token_len(s) <= s.len(),
        forall|k: int| 0 <= k < token_len(s) ==> !white_space(#[trigger] s[k]),
        token_len(s) < s.len() ==> white_space(s[token_len(s) as int]),
    decreases s.len(),
{
    if s.len() > 0 && !white_space(s[0]) {
        lemma_token_len_bound(s.drop_first());
        assert forall|k: int| 0 <= k < token_len(s) implies !white_space(#[trigger] s[k]) by {
            if k > 0 {
                assert(s[k] == s.drop_first()[k - 1]);
            }
        }
    }
}

/// Index of the first whitespace character at or after `from` (or the end).
fn token_end(chars: &[char], from: usize) -> (end: usize)
    requires
        from <= chars@.len(),
    ensures
        from <= end <= chars@.len(),
        token_len(chars@.subrange(from as int, chars@.len() as int)) == end - from,
{
    let mut i = from;
    while i < chars.len() && !is_whitespace(chars[i])
        invariant
            from <= i <= chars@.len(),
            token_len(chars@.subrange(from as int, chars@.len() as int)) == (i - from) + token_len(
                chars@.subrange(i as int, chars@.len() as int),
            ),
        decreases chars@.len() - i,
    {
        assert(chars@.subrange(i as int, chars@.len() as int).drop_first() =~= chars@.subrange(
            i + 1,
            chars@.len() as int,
        ));
        i = i + 1;
    }
    i
}

/// Splits the first `count` whitespace-separated fields off `raw`,
/// collapsing runs of whitespace; returns the fields and the remainder with
/// its leading whitespace removed.
pub fn split_prefix_fields(raw: &str, count: usize) -> (split: Option<(Vec<&str>, &str)>)
    ensures
        match split {
            Some((fields, rest)) => split_prefix_spec(raw@, count as nat) == Some(
                (fields@.map_values(|f: &str| f@), rest@),
            ),
            None => split_prefix_spec(raw@, count as nat) is None,
        },
{
    let chars = chars_of(raw);
    let mut fields: Vec<&str> = Vec::new();
    let mut i: usize = 0;
    let mut k: usize = 0;
    assert(chars@.subrange(0, chars@.len() as int) =~= raw@);
    while k < count
        invariant
            k <= count,
            i <= chars@.len(),
            chars@ == raw@,
            split_prefix_spec(raw@, count as nat) == prepend_fields(
                fields@.map_values(|f: &str| f@),
                split_prefix_spec(chars@.subrange(i as int, chars@.len() as int), (count - k) as nat),
            ),
        decreases count - k,
    {
        let ghost fields_before = fields@.map_values(|f: &str| f@);
        let ghost rest_before = chars@.subrange(i as int, chars@.len() as int);
        let start = skip_whitespace(chars.as_slice(), i);
        let end = token_end(chars.as_slice(), start);
        let ghost t = chars@.subrange(start as int, chars@.len() as int);
        if end == start {
            proof {
                assert(split_prefix_spec(rest_before, (count - k) as nat) is None);
            }
            return None;
        }
        let field = raw.substring_char(start, end);
        proof {
            assert(t.take((end - start) as int) =~= chars@.subrange(start as int, end as int));
            assert(t.skip((end - start) as int) =~= chars@.subrange(end as int, chars@.len() as int));
        }
        fields.push(field);
        proof {
            assert(fields@.map_values(|f: &str| f@) =~= fields_before + seq![field@]);
            let later = split_prefix_spec(chars@.subrange(end as int, chars@.len() as int), (count - k - 1) as nat);
            assert(split_prefix_spec(rest_before, (count - k) as nat) == prepend_fields(seq![field@], later));
            match later {
                Some((more, r)) => {
                    assert(fields_before + (seq![field@] + more) =~= (fields_before + seq![field@]) + more);
                },
                None => {},
            }
        }
        i = end;
        k = k + 1;
    }
    let start = skip_whitespace(chars.as_slice(), i);
    let rest = raw.substring_char(start, chars.len());
    proof {
        let fv = fields@.map_values(|f: &str| f@);
        assert(fv + Seq::<Seq<char>>::empty() =~= fv);
    }
    Some((fields, rest))
}

/// Index of the first `": "` in `s` at or after `from`.
pub open spec fn separator_from(s: Seq<char>, from: nat) -> Option<nat>
    decreases s.len() - from,
{
    if from + 1 >= s.len() {
        None
    } else if s[from as int] == ':' && s[from + 1 as int] == ' ' {
        Some(from)
    } else {
        separator_from(s, from + 1)
    }
}

/// Tag and message of the text after the severity letter: split at the first
/// `": "`, or the whole text as the tag when there is none.
pub open spec fn split_tag_spec(s: Seq<char>) -> (Seq<char>, Seq<char>) {
    match separator_from(s, 0) {
        Some(i) => (s.take(i as int), s.skip(i + 2 as int)),
        None => (s, Seq::empty()),
    }
}

/// A row that was not recognized: its raw text as the message.
pub open spec fn raw_row(raw: Seq<char>) -> LogLineView {
    LogLineView {
        time: Seq::empty(),
        pid: Seq::empty(),
        tid: Seq::empty(),
        level: '?',
        tag: Seq::empty(),
        message: raw,
    }
}

/// The parse of one `threadtime` line `MM-DD HH:MM:SS.mmm PID TID L TAG: msg`.
pub open spec fn parse_spec(raw: Seq<char>) -> LogLineView {
    match split_prefix_spec(raw, 5) {
        Some((fields, rest)) => if fields.len() == 5 && fields[4].len() == 1 && level_rank(
            fields[4][0],
        ) is Some {
            LogLineView {
                time: fields[0] + seq![' '] + fields[1],
                pid: fields[2],
                tid: fields[3],
                level: fields[4][0],
                tag: split_tag_spec(rest).0,
                message: split_tag_spec(rest).1,
            }
        } else {
            raw_row(raw)
        },
        None => raw_row(raw),
    }
}

/// The text a row shows (and copies as).
pub open spec fn format_spec(line: LogLineView) -> Seq<char> {
    if line.level == '?' {
        line.message
    } else {
        line.time + seq![' ', line.level, '/'] + line.tag + seq![' '] + line.pid + seq![':', ' ']
            + line.message
    }
}

/// Exec form of [`level_rank`].
fn level_position(level: char) -> (rank: Option<usize>)
    ensures
        match rank {
            Some(r) => level_rank(level) == Some(r as nat),
            None => level_rank(level) is None,
        },
{
    match level {
        'V' => Some(0),
        'D' => Some(1),
        'I' => Some(2),
        'W' => Some(3),
        'E' => Some(4),
        'F' => Some(5),
        _ => None,
    }
}

/// Splits `s` at its first `": "`.
fn split_tag(s: &str) -> (parts: (String, String))
    ensures
        parts.0@ == split_tag_spec(s@).0,
        parts.1@ == split_tag_spec(s@).1,
{
    let chars = chars_of(s);
    let mut i: usize = 0;
    while chars.len() > 0 && i < chars.len() - 1
        invariant
            i <= chars@.len(),
            chars@ == s@,
            separator_from(s@, 0) == separator_from(s@, i as nat),
        decreases chars@.len() - i,
    {
        if chars[i] == ':' && chars[i + 1] == ' ' {
            let tag = string_from_chars(vstd::slice::slice_subrange(chars.as_slice(), 0, i));
            let message = string_from_chars(vstd::slice::slice_subrange(chars.as_slice(), i + 2, chars.len()));
            proof {
                assert(chars@.subrange(0, i as int) =~= s@.take(i as int));
                assert(chars@.subrange(i + 2, chars@.len() as int) =~= s@.skip(i + 2));
            }
            return (tag, message);
        }
        i = i + 1;
    }
    (s.to_owned(), String::new())
}

impl LogLine {
    /// Parses one `threadtime` line: `MM-DD HH:MM:SS.mmm PID TID L TAG: msg`.
    /// Runs of whitespace are collapsed, and everything past the severity
    /// letter is kept verbatim. Unrecognized lines survive as level-'?' rows
    /// so device noise is never silently dropped.
    pub fn parse(raw: &str) -> (line: Self)
        ensures
            line@ == parse_spec(raw@),
    {
        proof {
            lemma_split_prefix_len(raw@, 5);
        }
        if let Some((fields, rest)) = split_prefix_fields(raw, 5) {
            proof {
                assert(fields@.map_values(|f: &str| f@).len() == 5);
            }
            let ghost fv = fields@.map_values(|f: &str| f@);
            assert(fv[4] == fields@[4]@);
            if fields[4].unicode_len() == 1 {
                let level = fields[4].get_char(0);
                if level_position(level).is_some() {
                    let (tag, message) = split_tag(rest);
                    let mut time = fields[0].to_owned();
                    push_char(&mut time, ' ');
                    push_str(&mut time, fields[1]);
                    proof {
                        assert(fv[0] == fields@[0]@);
                        assert(fv[1] == fields@[1]@);
                        assert(fv[2] == fields@[2]@);
                        assert(fv[3] == fields@[3]@);
                        assert(time@ =~= fv[0] + seq![' '] + fv[1]);
                    }
                    return LogLine {
                        time,
                        pid: fields[2].to_owned(),
                        tid: fields[3].to_owned(),
                        level,
                        tag,
                        message,
                    };
                }
            }
        }
        LogLine {
            time: String::new(),
            pid: String::new(),
            tid: String::new(),
            level: '?',
            tag: String::new(),
            message: raw.to_owned(),
        }
    }

    /// Position of the row's severity in `V D I W E F`; `None` for
    /// unrecognized rows.
    pub fn severity_index(&self) -> (index: Option<usize>)
        ensures
            match index {
                Some(i) => level_rank(self.level) == Some(i as nat),
                None => level_rank(self.level) is None,
            },
    {
        level_position(self.level)
    }

    /// The row as shown: `time L/tag pid: message`, or the raw text of an
    /// unrecognized row.
    pub fn format(&self) -> (shown: String)
        ensures
            shown@ == format_spec(self@),
    {
        if self.level == '?' {
            self.message.clone()
        } else {
            let mut out = self.time.clone();
            push_char(&mut out, ' ');
            push_char(&mut out, self.level);
            push_char(&mut out, '/');
            push_str(&mut out, self.tag.as_str());
            push_char(&mut out, ' ');
            push_str(&mut out, self.pid.as_str());
            push_char(&mut out, ':');
            push_char(&mut out, ' ');
            push_str(&mut out, self.message.as_str());
            assert(out@ =~= format_spec(self@));
            out
        }
    }
}

/// The severity filter: `filter` 0 keeps everything; otherwise it is the
/// minimum severity shifted by one (the dropdown carries "all" first), and
/// unrecognized rows are dropped.
pub open spec fn level_passes_spec(filter: nat, severity: Option<nat>) -> bool {
    if filter == 0 {
        true
    } else {
        match severity {
            Some(index) => index + 1 >= filter,
            None => false,
        }
    }
}

/// Exec form of [`level_passes_spec`].
pub fn level_passes(filter: usize, severity_index: Option<usize>) -> (passes: bool)
    ensures
        passes == level_passes_spec(
            filter as nat,
            match severity_index {
                Some(i) => Some(i as nat),
                None => None,
            },
        ),
{
    match (filter, severity_index) {
        (0, _) => true,
        (_, None) => false,
        (_, Some(index)) => index as u128 + 1 >= filter as u128,
    }
}

/// Whether a row passes the severity filter and the (already lowercased)
/// query, which must appear in the lowercased tag or message.
pub open spec fn line_passes_spec(line: LogLineView, level_filter: nat, query: Seq<char>) -> bool {
    &&& level_passes_spec(level_filter, level_rank(line.level))
    &&& (query.len() == 0 || is_infix(query, unicode_lowercase(line.tag)) || is_infix(
        query,
        unicode_lowercase(line.message),
    ))
}

/// The shared per-line filter: minimum severity plus the search query.
pub fn line_passes_filters(line: &LogLine, level_filter: usize, query: &str) -> (passes: bool)
    ensures
        passes == line_passes_spec(line@, level_filter as nat, query@),
{
    if !level_passes(level_filter, line.severity_index()) {
        return false;
    }
    if query.is_empty() {
        return true;
    }
    let tag = to_lowercase(line.tag.as_str());
    if str_contains(tag.as_str(), query) {
        return true;
    }
    let message = to_lowercase(line.message.as_str());
    str_contains(message.as_str(), query)
}

/// Normalizes an (anchor, head) pair into an ordered inclusive span.
pub open spec fn selection_span_spec(selection: Option<(usize, usize)>) -> Option<(usize, usize)> {
    match selection {
        Some((anchor, head)) => if anchor <= head {
            Some((anchor, head))
        } else {
            Some((head, anchor))
        },
        None => None,
    }
}

/// Exec form of [`selection_span_spec`].
pub fn selection_span(selection: Option<(usize, usize)>) -> (span: Option<(usize, usize)>)
    ensures
        span == selection_span_spec(selection),
{
    match selection {
        Some((anchor, head)) => if anchor <= head {
            Some((anchor, head))
        } else {
            Some((head, anchor))
        },
        None => None,
    }
}

/// No line is dropped: every parsed row carries either a severity letter or
/// the level `'?'`, and a row with level `'?'` keeps (and shows) exactly the
/// raw text it came from.
pub proof fn lemma_unrecognized_rows_keep_text(raw: Seq<char>)
    ensures
        level_rank(parse_spec(raw).level) is Some || parse_spec(raw).level == '?',
        parse_spec(raw).level == '?' ==> parse_spec(raw) == raw_row(raw) && format_spec(
            parse_spec(raw),
        ) == raw,
{
}

/// A row shown at a stricter minimum severity is also shown at any looser
/// one (with the same query).
pub proof fn lemma_level_filter_monotone(
    line: LogLineView,
    looser: nat,
    stricter: nat,
    query: Seq<char>,
)
    requires
        looser <= stricter,
        line_passes_spec(line, stricter, query),
    ensures
        line_passes_spec(line, looser, query),
{
}

/// A selection spans the same rows whichever way it was dragged, and the
/// span starts at its smaller end.
pub proof fn lemma_selection_span_direction(anchor: usize, head: usize)
    ensures
        selection_span_spec(Some((anchor, head))) == selection_span_spec(Some((head, anchor))),
        selection_span_spec(Some((anchor, head))) matches Some((first, last)) && first <= last,
{
}

/// A run of visible characters: not empty, no whitespace.
pub open spec fn is_token(s: Seq<char>) -> bool {
    &&& s.len() > 0
    &&& forall|i: int| 0 <= i < s.len() ==> !white_space(#[trigger] s[i])
}

/// `s` holds no `": "`.
pub open spec fn no_separator(s: Seq<char>) -> bool {
    forall|i: int| 0 <= i < s.len() - 1 ==> !(#[trigger] s[i] == ':' && s[i + 1] == ' ')
}

proof fn lemma_token_then_break(tok: Seq<char>, rest: Seq<char>)
    requires
        is_token(tok),
        rest.len() == 0 || white_space(rest[0]),
    ensures
        token_len(tok + rest) == tok.len(),
    decreases tok.len(),
{
    let s = tok + rest;
    assert(s[0] == tok[0]);
    assert(!white_space(tok[0]));
    if tok.len() > 1 {
        let t = tok.drop_first();
        assert forall|i: int| 0 <= i < t.len() implies !white_space(#[trigger] t[i]) by {
            assert(t[i] == tok[i + 1]);
        }
        lemma_token_then_break(t, rest);
        assert(s.drop_first() =~= t + rest);
    } else {
        assert(s.drop_first() =~= rest);
        assert(token_len(rest) == 0);
    }
}

/// Splitting fields off a token followed by a space takes the token whole.
proof fn lemma_split_token(tok: Seq<char>, after: Seq<char>, count: nat)
    requires
        is_token(tok),
        count > 0,
    ensures
        split_prefix_spec(tok + seq![' '] + after, count) == prepend_fields(
            seq![tok],
            split_prefix_spec(after, (count - 1) as nat),
        ),
{
    let s = tok + seq![' '] + after;
    assert(s[0] == tok[0]);
    assert(trim_start_spec(s) == s);
    let rest = seq![' '] + after;
    assert(s =~= tok + rest);
    lemma_token_then_break(tok, rest);
    assert(s.take(tok.len() as int) =~= tok);
    assert(s.skip(tok.len() as int) =~= rest);
    assert(rest.drop_first() =~= after);
    assert(trim_start_spec(rest) == trim_start_spec(after));
    if count - 1 > 0 {
        assert(split_prefix_spec(rest, (count - 1) as nat) == split_prefix_spec(
            after,
            (count - 1) as nat,
        ));
    }
}

/// `": "` first occurs in `tag + ": " + message` right after the tag.
proof fn lemma_separator_after_tag(tag: Seq<char>, message: Seq<char>, from: nat)
    requires
        no_separator(tag),
        from <= tag.len(),
    ensures
        separator_from(tag + seq![':', ' '] + message, from) == Some(tag.len()),
    decreases tag.len() - from,
{
    let s = tag + seq![':', ' '] + message;
    if from < tag.len() {
        assert(s[from as int] == tag[from as int]);
        if from + 1 < tag.len() {
            assert(s[from + 1 as int] == tag[from + 1 as int]);
        } else {
            assert(s[from + 1 as int] == ':');
        }
        lemma_separator_after_tag(tag, message, from + 1);
    } else {
        assert(s[from as int] == ':' && s[from + 1 as int] == ' ');
    }
}

/// A `threadtime` row `date time pid tid L tag: message` shows as
/// `date time L/tag pid: message`: the process id, not the thread id,
/// follows the tag, and the time, level, tag and message come through as
/// they were written.
pub proof fn lemma_threadtime_row_shows_pid(
    date: Seq<char>,
    clock: Seq<char>,
    pid: Seq<char>,
    tid: Seq<char>,
    level: char,
    tag: Seq<char>,
    message: Seq<char>,
)
    requires
        is_token(date),
        is_token(clock),
        is_token(pid),
        is_token(tid),
        level == 'V' || level == 'D' || level == 'I' || level == 'W' || level == 'E' || level == 'F',
        tag.len() > 0,
        !white_space(tag[0]),
        no_separator(tag),
    ensures
        ({
            let raw = date + seq![' '] + clock + seq![' '] + pid + seq![' '] + tid + seq![' ', level, ' ']
                + tag + seq![':', ' '] + message;
            let row = parse_spec(raw);
            &&& row.pid == pid
            &&& row.tid == tid
            &&& row.level == level
            &&& row.tag == tag
            &&& row.message == message
            &&& format_spec(row) == date + seq![' '] + clock + seq![' ', level, '/'] + tag + seq![' ']
                + pid + seq![':', ' '] + message
        }),
{
    let text = tag + seq![':', ' '] + message;
    let r4 = seq![level] + seq![' '] + text;
    let r3 = tid + seq![' '] + r4;
    let r2 = pid + seq![' '] + r3;
    let r1 = clock + seq![' '] + r2;
    let raw = date + seq![' '] + r1;
    assert(raw =~= date + seq![' '] + clock + seq![' '] + pid + seq![' '] + tid + seq![' ', level, ' ']
        + tag + seq![':', ' '] + message);
    let lv = seq![level];
    assert(is_token(lv));
    assert(text[0] == tag[0]);
    assert(trim_start_spec(text) == text);
    lemma_split_token(date, r1, 5);
    lemma_split_token(clock, r2, 4);
    lemma_split_token(pid, r3, 3);
    lemma_split_token(tid, r4, 2);
    lemma_split_token(lv, text, 1);
    let fields = seq![date, clock, pid, tid, lv];
    assert(split_prefix_spec(raw, 5) == Some((fields, text))) by {
        assert(seq![date] + (seq![clock] + (seq![pid] + (seq![tid] + (seq![lv] + Seq::<Seq<char>>::empty()))))
            =~= fields);
    }
    lemma_separator_after_tag(tag, message, 0);
    assert(text.take(tag.len() as int) =~= tag);
    assert(text.skip(tag.len() + 2 as int) =~= message);
}

/// The minimum-severity filter follows the order `V D I W E F`: with the
/// dropdown's positions (0 for all rows, then one per letter in that order),
/// a row with the letter at position `k` passes exactly the filters up to
/// its own, and the filter leaves the search part of the decision alone.
pub proof fn lemma_severity_filter_order(line: LogLineView, k: int, filter: nat, query: Seq<char>)
    requires
        0 <= k < 6,
        line.level == seq!['V', 'D', 'I', 'W', 'E', 'F'][k],
    ensures
        line_passes_spec(line, filter, query) == (filter <= k + 1 && line_passes_spec(
            line,
            0,
            query,
        )),
{
}

} // verus!
