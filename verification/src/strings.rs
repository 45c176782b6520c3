//! Small string and character utilities over the `Seq<char>` view of
//! `str`/`String`, shared by the parsers and formatters of the crate.
use vstd::prelude::*;

verus! {

/// `str` equality (`<str as PartialEq>::eq`): true exactly when both hold the
/// same characters.
#[verifier::external_body]
pub fn str_equal(a: &str, b: &str) -> (equal: bool)
    ensures
        equal == (a@ == b@),
{
    a == b
}

/// `String::push`: appends one character.
#[verifier::external_body]
pub fn push_char(s: &mut String, c: char)
    ensures
        final(s)@ == old(s)@.push(c),
{
    s.push(c);
}

/// Appends a string slice.
pub fn push_str(s: &mut String, tail: &str)
    ensures
        final(s)@ == old(s)@ + tail@,
{
    vstd::string::StringExecFns::append(s, tail);
}

} // verus!

verus! {

broadcast use vstd::string::group_string_axioms;

/// The characters of `s`, in order.
pub fn chars_of(s: &str) -> (chars: Vec<char>)
    ensures
        chars@ == s@,
{
    let mut chars: Vec<char> = Vec::new();
    for c in it: s.chars()
        invariant
            chars@ == it.seq().take(it.index() as int),
    {
        chars.push(c);
    }
    assert(chars@ =~= s@);
    chars
}


/// A string holding exactly `chars`.
pub fn string_from_chars(chars: &[char]) -> (s: String)
    ensures
        s@ == chars@,
{
    let mut s = String::new();
    let mut i: usize = 0;
    while i < chars.len()
        invariant
            i <= chars@.len(),
            s@ == chars@.take(i as int),
        decreases chars@.len() - i,
    {
        push_char(&mut s, chars[i]);
        i = i + 1;
        assert(s@ =~= chars@.take(i as int));
    }
    assert(chars@.take(chars@.len() as int) =~= chars@);
    s
}

/// The Unicode `White_Space` property (PropList.txt): the controls from
/// `\t` to `\r`, the space, NEL, NO-BREAK SPACE, OGHAM SPACE MARK, the
/// spaces from EN QUAD to HAIR SPACE, the line and paragraph separators,
/// NARROW NO-BREAK SPACE, MEDIUM MATHEMATICAL SPACE and IDEOGRAPHIC SPACE.
pub open spec fn white_space(c: char) -> bool {
    ||| ('\t' <= c && c <= '\r')
    ||| c == ' '
    ||| c == '\u{85}'
    ||| c == '\u{a0}'
    ||| c == '\u{1680}'
    ||| ('\u{2000}' <= c && c <= '\u{200a}')
    ||| c == '\u{2028}'
    ||| c == '\u{2029}'
    ||| c == '\u{202f}'
    ||| c == '\u{205f}'
    ||| c == '\u{3000}'
}

/// Whether `c` has the `White_Space` property, as `char::is_whitespace`
/// decides it.
pub fn is_whitespace(c: char) -> (ws: bool)
    ensures
        ws == white_space(c),
{
    ('\t' <= c && c <= '\r') || c == ' ' || c == '\u{85}' || c == '\u{a0}' || c == '\u{1680}'
        || ('\u{2000}' <= c && c <= '\u{200a}') || c == '\u{2028}' || c == '\u{2029}' || c
        == '\u{202f}' || c == '\u{205f}' || c == '\u{3000}'
}

/// The Unicode general category `Cc`: the C0 controls, DELETE and the C1
/// controls.
pub open spec fn control_char(c: char) -> bool {
    c <= '\u{1f}' || ('\u{7f}' <= c && c <= '\u{9f}')
}

/// Whether `c` is in the general category `Cc`, as `char::is_control`
/// decides it.
pub fn is_control(c: char) -> (control: bool)
    ensures
        control == control_char(c),
{
    c <= '\u{1f}' || ('\u{7f}' <= c && c <= '\u{9f}')
}

/// The Unicode lowercase mapping of a string (`str::to_lowercase`).
pub uninterp spec fn unicode_lowercase(s: Seq<char>) -> Seq<char>;

/// `str::to_lowercase`.
#[verifier::external_body]
pub fn to_lowercase(s: &str) -> (lower: String)
    ensures
        lower@ == unicode_lowercase(s@),
{
    s.to_lowercase()
}

/// Whether `needle` occurs as a contiguous run inside `hay`.
pub open spec fn is_infix(needle: Seq<char>, hay: Seq<char>) -> bool {
    exists|i: int|
        0 <= i && i + needle.len() <= hay.len() && #[trigger] hay.subrange(i, i + needle.len())
            == needle
}

/// Whether `needle` occurs in `hay` starting at `start`.
fn occurs_at(hay: &Vec<char>, needle: &Vec<char>, start: usize) -> (found: bool)
    requires
        start + needle@.len() <= hay@.len(),
    ensures
        found == (hay@.subrange(start as int, start + needle@.len()) == needle@),
{
    let hay_len: usize = hay.len();
    let mut k: usize = 0;
    while k < needle.len()
        invariant
            start + needle@.len() <= hay@.len(),
            hay_len == hay@.len(),
            k <= needle@.len(),
            forall|t: int| 0 <= t < k ==> hay@[start + t] == needle@[t],
        decreases needle@.len() - k,
    {
        if hay[start + k] != needle[k] {
            assert(hay@.subrange(start as int, start + needle@.len())[k as int] != needle@[k as int]);
            return false;
        }
        k = k + 1;
    }
    assert(hay@.subrange(start as int, start + needle@.len()) =~= needle@);
    true
}

/// Whether `needle` occurs in `hay` as a contiguous run, as `str::contains`
/// with a string pattern decides it.
pub fn str_contains(hay: &str, needle: &str) -> (found: bool)
    ensures
        found == is_infix(needle@, hay@),
{
    let h = chars_of(hay);
    let n = chars_of(needle);
    if n.len() > h.len() {
        return false;
    }
    let last: usize = h.len() - n.len();
    let mut i: usize = 0;
    while i <= last
        invariant
            last == h@.len() - n@.len(),
            i <= last + 1,
            h@ == hay@,
            n@ == needle@,
            forall|j: int|
                0 <= j < i ==> #[trigger] hay@.subrange(j, j + needle@.len()) != needle@,
        decreases last + 1 - i,
    {
        if occurs_at(&h, &n, i) {
            return true;
        }
        if i == last {
            return false;
        }
        i = i + 1;
    }
    false
}

/// The text `String::from_utf8_lossy` decodes from `bytes`: invalid
/// sequences become U+FFFD.
pub uninterp spec fn lossy_utf8(bytes: Seq<u8>) -> Seq<char>;

/// `String::from_utf8_lossy`; on valid UTF-8 the text is the exact decoding.
#[verifier::external_body]
pub fn utf8_lossy(bytes: &[u8]) -> (text: String)
    ensures
        text@ == lossy_utf8(bytes@),
        vstd::utf8::valid_utf8(bytes@) ==> text@ == vstd::utf8::decode_utf8(bytes@),
{
    String::from_utf8_lossy(bytes).into_owned()
}

/// `s` without its leading whitespace.
pub open spec fn trim_start_spec(s: Seq<char>) -> Seq<char>
    decreases s.len(),
{
    if s.len() > 0 && white_space(s[0]) {
        trim_start_spec(s.drop_first())
    } else {
        s
    }
}

/// `s` without its trailing whitespace.
pub open spec fn trim_end_spec(s: Seq<char>) -> Seq<char>
    decreases s.len(),
{
    if s.len() > 0 && white_space(s.last()) {
        trim_end_spec(s.drop_last())
    } else {
        s
    }
}

/// `s` without leading and trailing whitespace.
pub open spec fn trim_spec(s: Seq<char>) -> Seq<char> {
    trim_end_spec(trim_start_spec(s))
}

/// `s` without trailing copies of `c`.
pub open spec fn trim_end_char_spec(s: Seq<char>, c: char) -> Seq<char>
    decreases s.len(),
{
    if s.len() > 0 && s.last() == c {
        trim_end_char_spec(s.drop_last(), c)
    } else {
        s
    }
}

/// What `trim_start_spec` leaves is empty or starts with a non-whitespace
/// character.
proof fn lemma_trim_start_first(s: Seq<char>)
    ensures
        trim_start_spec(s).len() == 0 || !white_space(trim_start_spec(s)[0]),
    decreases s.len(),
{
    if s.len() > 0 && white_space(s[0]) {
        lemma_trim_start_first(s.drop_first());
    }
}

/// What `trim_end_spec` leaves is empty or ends with a non-whitespace
/// character.
proof fn lemma_trim_end_last(s: Seq<char>)
    ensures
        trim_end_spec(s).len() == 0 || !white_space(trim_end_spec(s).last()),
    decreases s.len(),
{
    if s.len() > 0 && white_space(s.last()) {
        lemma_trim_end_last(s.drop_last());
    }
}

/// Trimming the end keeps a leading non-whitespace character.
proof fn lemma_trim_end_keeps_first(s: Seq<char>)
    requires
        s.len() > 0,
        !white_space(s[0]),
    ensures
        trim_end_spec(s).len() > 0,
        trim_end_spec(s)[0] == s[0],
    decreases s.len(),
{
    if white_space(s.last()) {
        lemma_trim_end_keeps_first(s.drop_last());
    }
}

/// Trimming twice is trimming once.
pub proof fn lemma_trim_idempotent(s: Seq<char>)
    ensures
        trim_spec(trim_spec(s)) == trim_spec(s),
{
    let a = trim_start_spec(s);
    let t = trim_end_spec(a);
    lemma_trim_start_first(s);
    lemma_trim_end_last(a);
    if a.len() > 0 {
        lemma_trim_end_keeps_first(a);
    }
    if t.len() == 0 {
        assert(trim_start_spec(t) == t);
    } else {
        assert(trim_start_spec(t) == t);
        assert(trim_end_spec(t) == t);
    }
}

/// A text that starts and ends with a non-whitespace character is its own
/// trim.
pub proof fn lemma_trim_fixed(s: Seq<char>)
    requires
        s.len() > 0,
        !white_space(s[0]),
        !white_space(s.last()),
    ensures
        trim_spec(s) == s,
{
    assert(trim_start_spec(s) == s);
    assert(trim_end_spec(s) == s);
}

/// Index of the first non-whitespace character at or after `from`.
pub fn skip_whitespace(chars: &[char], from: usize) -> (index: usize)
    requires
        from <= chars@.len(),
    ensures
        from <= index <= chars@.len(),
        trim_start_spec(chars@.subrange(from as int, chars@.len() as int)) == chars@.subrange(
            index as int,
            chars@.len() as int,
        ),
{
    let mut i = from;
    while i < chars.len() && is_whitespace(chars[i])
        invariant
            from <= i <= chars@.len(),
            trim_start_spec(chars@.subrange(from as int, chars@.len() as int)) == trim_start_spec(
                chars@.subrange(i as int, chars@.len() as int),
            ),
        decreases chars@.len() - i,
    {
        assert(chars@.subrange(i as int, chars@.len() as int).drop_first() =~= chars@.subrange(
            i + 1,
            chars@.len() as int,
        ));
        i = i + 1;
    }
    i
}

/// Index just past the last non-whitespace character before `to`.
pub fn trailing_whitespace_start(chars: &[char], from: usize, to: usize) -> (index: usize)
    requires
        from <= to <= chars@.len(),
    ensures
        from <= index <= to,
        trim_end_spec(chars@.subrange(from as int, to as int)) == chars@.subrange(
            from as int,
            index as int,
        ),
{
    let mut i = to;
    while i > from && is_whitespace(chars[i - 1])
        invariant
            from <= i <= to,
            to <= chars@.len(),
            trim_end_spec(chars@.subrange(from as int, to as int)) == trim_end_spec(
                chars@.subrange(from as int, i as int),
            ),
        decreases i - from,
    {
        assert(chars@.subrange(from as int, i as int).drop_last() =~= chars@.subrange(
            from as int,
            i - 1,
        ));
        i = i - 1;
    }
    i
}

/// `str::trim` as a new string.
pub fn trimmed(s: &str) -> (t: String)
    ensures
        t@ == trim_spec(s@),
{
    let chars = chars_of(s);
    let start = skip_whitespace(chars.as_slice(), 0);
    let end = trailing_whitespace_start(chars.as_slice(), start, chars.len());
    assert(chars@.subrange(0, chars@.len() as int) =~= chars@);
    let t = string_from_chars(vstd::slice::slice_subrange(chars.as_slice(), start, end));
    t
}

/// Value of a run of ASCII decimal digits.
pub open spec fn digits_value(s: Seq<char>) -> nat
    decreases s.len(),
{
    if s.len() == 0 {
        0
    } else {
        digits_value(s.drop_last()) * 10 + (s.last() as nat - '0' as nat) as nat
    }
}

/// Whether every character of `s` is an ASCII digit.
pub open spec fn all_ascii_digits(s: Seq<char>) -> bool {
    forall|i: int| 0 <= i < s.len() ==> '0' <= #[trigger] s[i] <= '9'
}

/// The digits an unsigned integer `FromStr` reads: an optional leading `+`
/// followed by at least one ASCII digit and nothing else.
pub open spec fn unsigned_digits(s: Seq<char>) -> Option<Seq<char>> {
    let body = if s.len() > 0 && s[0] == '+' {
        s.drop_first()
    } else {
        s
    };
    if body.len() > 0 && all_ascii_digits(body) {
        Some(body)
    } else {
        None
    }
}

/// What `str::parse::<uN>` gives for a type whose largest value is `max`.
pub open spec fn parse_unsigned_spec(s: Seq<char>, max: nat) -> Option<nat> {
    match unsigned_digits(s) {
        Some(body) => if digits_value(body) <= max {
            Some(digits_value(body))
        } else {
            None
        },
        None => None,
    }
}

proof fn lemma_digits_value_monotone(s: Seq<char>, i: int)
    requires
        0 <= i <= s.len(),
        all_ascii_digits(s),
    ensures
        digits_value(s.take(i)) <= digits_value(s),
    decreases s.len() - i,
{
    if i < s.len() {
        lemma_digits_value_monotone(s, i + 1);
        assert(s.take(i + 1).drop_last() =~= s.take(i));
        assert(s.take(i + 1).last() == s[i]);
        assert(digits_value(s.take(i + 1)) == digits_value(s.take(i)) * 10 + (s[i] as nat
            - '0' as nat) as nat);
    } else {
        assert(s.take(i) =~= s);
    }
}

/// `str::parse::<u64>`: `None` for an empty, signed-negative, non-digit or
/// out-of-range text.
pub fn parse_u64(s: &str) -> (value: Option<u64>)
    ensures
        match value {
            Some(v) => parse_unsigned_spec(s@, u64::MAX as nat) == Some(v as nat),
            None => parse_unsigned_spec(s@, u64::MAX as nat) is None,
        },
{
    let chars = chars_of(s);
    let start: usize = if chars.len() > 0 && chars[0] == '+' { 1 } else { 0 };
    let ghost body = chars@.subrange(start as int, chars@.len() as int);
    proof {
        if chars@.len() > 0 && chars@[0] == '+' {
            assert(body =~= s@.drop_first());
        } else {
            assert(body =~= s@);
        }
    }
    if start >= chars.len() {
        return None;
    }
    assert(unsigned_digits(s@) is Some <==> all_ascii_digits(body));
    assert(unsigned_digits(s@) is Some ==> unsigned_digits(s@)->0 == body);
    let mut value: u64 = 0;
    let mut i = start;
    while i < chars.len()
        invariant
            start <= i <= chars@.len(),
            body == chars@.subrange(start as int, chars@.len() as int),
            chars@ == s@,
            unsigned_digits(s@) is Some <==> all_ascii_digits(body),
            unsigned_digits(s@) is Some ==> unsigned_digits(s@)->0 == body,
            all_ascii_digits(chars@.subrange(start as int, i as int)),
            value as nat == digits_value(chars@.subrange(start as int, i as int)),
        decreases chars@.len() - i,
    {
        let c = chars[i];
        assert(chars@.subrange(start as int, i + 1).drop_last() =~= chars@.subrange(
            start as int,
            i as int,
        ));
        if c < '0' || c > '9' {
            assert(!all_ascii_digits(body)) by {
                assert(body[i - start] == c);
            }
            return None;
        }
        let digit = (c as u32 - '0' as u32) as u64;
        if value > (u64::MAX - digit) / 10 {
            proof {
                assert(all_ascii_digits(chars@.subrange(start as int, i + 1)));
                assert(digits_value(chars@.subrange(start as int, i + 1)) > u64::MAX) by (
                nonlinear_arith)
                    requires
                        digits_value(chars@.subrange(start as int, i + 1)) == value * 10 + digit,
                        value > (u64::MAX - digit) / 10,
                        digit <= 9,
                ;
                if all_ascii_digits(body) {
                    assert(body.take(i + 1 - start) =~= chars@.subrange(start as int, i + 1));
                    lemma_digits_value_monotone(body, i + 1 - start);
                }
            }
            return None;
        }
        value = value * 10 + digit;
        i = i + 1;
    }
    assert(chars@.subrange(start as int, i as int) =~= body);
    Some(value)
}


/// `str::parse::<u16>`.
pub fn parse_u16(s: &str) -> (value: Option<u16>)
    ensures
        match value {
            Some(v) => parse_unsigned_spec(s@, u16::MAX as nat) == Some(v as nat),
            None => parse_unsigned_spec(s@, u16::MAX as nat) is None,
        },
{
    match parse_u64(s) {
        Some(v) => if v <= u16::MAX as u64 {
            Some(v as u16)
        } else {
            None
        },
        None => None,
    }
}

/// The ASCII digit for `d < 10`.
pub open spec fn digit_char(d: nat) -> char {
    ('0' as nat + d) as char
}

/// Decimal notation of `n`, as `usize::to_string` writes it.
pub open spec fn decimal(n: nat) -> Seq<char>
    decreases n,
{
    if n < 10 {
        seq![digit_char(n)]
    } else {
        decimal(n / 10).push(digit_char(n % 10))
    }
}

/// The decimal notation of `n` is a non-empty run of ASCII digits whose
/// value is `n`.
pub proof fn lemma_decimal_digits(n: nat)
    ensures
        decimal(n).len() > 0,
        all_ascii_digits(decimal(n)),
        digits_value(decimal(n)) == n,
    decreases n,
{
    if n >= 10 {
        lemma_decimal_digits(n / 10);
        let d = decimal(n);
        assert(d.drop_last() =~= decimal(n / 10));
        assert(d.last() as nat - '0' as nat == n % 10);
        assert(n == (n / 10) * 10 + n % 10);
        assert(digits_value(d.drop_last()) == n / 10);
        assert(digits_value(d) == digits_value(d.drop_last()) * 10 + (d.last() as nat
            - '0' as nat) as nat);
        assert forall|i: int| 0 <= i < d.len() implies '0' <= #[trigger] d[i] <= '9' by {
            if i < d.len() - 1 {
                assert(d[i] == decimal(n / 10)[i]);
            }
        }
    } else {
        assert(decimal(n).drop_last() =~= Seq::<char>::empty());
        assert(decimal(n).last() as nat - '0' as nat == n);
        assert(digits_value(decimal(n).drop_last()) == 0);
    }
}

/// The decimal notation of `n` reads back as `n` and has no surrounding
/// whitespace.
pub proof fn lemma_decimal_parses_back(n: nat, max: nat)
    requires
        n <= max,
    ensures
        trim_spec(decimal(n)) == decimal(n),
        parse_unsigned_spec(trim_spec(decimal(n)), max) == Some(n),
{
    lemma_decimal_digits(n);
    let d = decimal(n);
    assert('0' <= d[0] <= '9');
    assert('0' <= d[d.len() - 1] <= '9');
    lemma_trim_fixed(d);
    assert(unsigned_digits(d) == Some(d));
}

/// Decimal notation of `n`.
pub fn decimal_string(n: u64) -> (s: String)
    ensures
        s@ == decimal(n as nat),
{
    // Digits are produced least significant first, then emitted in reverse.
    let mut reversed: Vec<char> = Vec::new();
    let mut rest = n;
    let ghost mut done: Seq<char> = Seq::empty();
    loop
        invariant_except_break
            decimal(n as nat) == decimal(rest as nat) + done,
            forall|k: int|
                0 <= k < reversed@.len() ==> #[trigger] reversed@[k] == done[done.len() - 1 - k],
            reversed@.len() == done.len(),
        ensures
            decimal(n as nat) == done,
            forall|k: int|
                0 <= k < reversed@.len() ==> #[trigger] reversed@[k] == done[done.len() - 1 - k],
            reversed@.len() == done.len(),
        decreases rest,
    {
        let c = char_of_digit(rest % 10);
        reversed.push(c);
        if rest < 10 {
            proof {
                let old_done = done;
                done = seq![c] + done;
                assert(decimal(rest as nat) =~= seq![c]);
                assert(decimal(n as nat) =~= done);
            }
            break;
        }
        proof {
            let old_done = done;
            done = seq![c] + done;
            assert(decimal(rest as nat) == decimal((rest / 10) as nat).push(c));
            assert(decimal(n as nat) =~= decimal((rest / 10) as nat) + done);
        }
        rest = rest / 10;
    }
    assert(decimal(n as nat) =~= done);
    let mut out = String::new();
    let mut i = reversed.len();
    while i > 0
        invariant
            i <= reversed@.len(),
            reversed@.len() == done.len(),
            forall|k: int|
                0 <= k < reversed@.len() ==> #[trigger] reversed@[k] == done[done.len() - 1 - k],
            out@ == done.take(reversed@.len() - i),
        decreases i,
    {
        i = i - 1;
        push_char(&mut out, reversed[i]);
        assert(out@ =~= done.take(reversed@.len() - i));
    }
    assert(done.take(done.len() as int) =~= done);
    out
}

fn char_of_digit(d: u64) -> (c: char)
    requires
        d < 10,
    ensures
        c == digit_char(d as nat),
{
    match d {
        0 => '0',
        1 => '1',
        2 => '2',
        3 => '3',
        4 => '4',
        5 => '5',
        6 => '6',
        7 => '7',
        8 => '8',
        _ => '9',
    }
}

/// `str::replace` for a non-empty pattern: every non-overlapping occurrence
/// of `pattern`, scanning left to right, becomes `with`.
pub open spec fn replace_all(s: Seq<char>, pattern: Seq<char>, with: Seq<char>) -> Seq<char>
    decreases s.len(),
{
    if pattern.len() == 0 || s.len() < pattern.len() {
        s
    } else if s.take(pattern.len() as int) == pattern {
        with + replace_all(s.skip(pattern.len() as int), pattern, with)
    } else {
        seq![s[0]] + replace_all(s.drop_first(), pattern, with)
    }
}

/// Whether `pattern` occurs in `s` at `at`.
fn matches_at(s: &[char], at: usize, pattern: &[char]) -> (found: bool)
    requires
        at + pattern@.len() <= s@.len(),
    ensures
        found == (s@.subrange(at as int, at + pattern@.len()) == pattern@),
{
    let total = s.len();
    let mut k: usize = 0;
    while k < pattern.len()
        invariant
            total == s@.len(),
            k <= pattern@.len(),
            at + pattern@.len() <= s@.len(),
            forall|j: int| 0 <= j < k ==> s@[at + j] == pattern@[j],
        decreases pattern@.len() - k,
    {
        assert(at + k < s@.len());
        if s[at + k] != pattern[k] {
            assert(s@.subrange(at as int, at + pattern@.len())[k as int] != pattern@[k as int]);
            return false;
        }
        k = k + 1;
    }
    assert(s@.subrange(at as int, at + pattern@.len()) =~= pattern@);
    true
}

/// `s.replace(pattern, with)`.
pub fn replace(s: &str, pattern: &str, with: &str) -> (out: String)
    requires
        pattern@.len() > 0,
    ensures
        out@ == replace_all(s@, pattern@, with@),
{
    let chars = chars_of(s);
    let pat = chars_of(pattern);
    let mut out = String::new();
    let mut i: usize = 0;
    assert(chars@.skip(0) =~= chars@);
    while i < chars.len()
        invariant
            i <= chars@.len(),
            chars@ == s@,
            pat@ == pattern@,
            pat@.len() > 0,
            out@ + replace_all(chars@.skip(i as int), pat@, with@) == replace_all(
                chars@,
                pat@,
                with@,
            ),
        decreases chars@.len() - i,
    {
        let ghost rest = chars@.skip(i as int);
        if pat.len() <= chars.len() - i && matches_at(chars.as_slice(), i, pat.as_slice()) {
            assert(rest.take(pat@.len() as int) =~= chars@.subrange(i as int, i + pat@.len()));
            assert(rest.skip(pat@.len() as int) =~= chars@.skip(i + pat@.len()));
            push_str(&mut out, with);
            i = i + pat.len();
            assert(out@ + replace_all(chars@.skip(i as int), pat@, with@) =~= replace_all(
                chars@,
                pat@,
                with@,
            ));
        } else {
            proof {
                if rest.len() >= pat@.len() {
                    assert(rest.take(pat@.len() as int) =~= chars@.subrange(i as int, i + pat@.len()));
                }
                assert(rest.drop_first() =~= chars@.skip(i + 1));
            }
            push_char(&mut out, chars[i]);
            i = i + 1;
            assert(out@ + replace_all(chars@.skip(i as int), pat@, with@) =~= replace_all(
                chars@,
                pat@,
                with@,
            ));
        }
    }
    assert(chars@.skip(i as int) =~= Seq::<char>::empty());
    assert(out@ =~= out@ + replace_all(chars@.skip(i as int), pat@, with@));
    out
}


/// `s.trim_end_matches(c)` as a new string.
pub fn trim_end_matches_char(s: &str, c: char) -> (t: String)
    ensures
        t@ == trim_end_char_spec(s@, c),
{
    let chars = chars_of(s);
    let mut end = chars.len();
    assert(chars@.take(end as int) =~= chars@);
    while end > 0 && chars[end - 1] == c
        invariant
            end <= chars@.len(),
            chars@ == s@,
            trim_end_char_spec(s@, c) == trim_end_char_spec(chars@.take(end as int), c),
        decreases end,
    {
        assert(chars@.take(end as int).drop_last() =~= chars@.take(end - 1));
        end = end - 1;
    }
    assert(chars@.take(chars@.len() as int) =~= chars@);
    let t = string_from_chars(vstd::slice::slice_subrange(chars.as_slice(), 0, end));
    assert(chars@.subrange(0, end as int) =~= chars@.take(end as int));
    t
}


/// `str::trim_end` as a new string.
pub fn trimmed_end(s: &str) -> (t: String)
    ensures
        t@ == trim_end_spec(s@),
{
    let chars = chars_of(s);
    let end = trailing_whitespace_start(chars.as_slice(), 0, chars.len());
    assert(chars@.subrange(0, chars@.len() as int) =~= chars@);
    string_from_chars(vstd::slice::slice_subrange(chars.as_slice(), 0, end))
}

} // verus!
