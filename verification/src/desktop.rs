//! Window-level rules of the desktop app: the panel list, the resize seams
//! of the borderless window, which dropped files are APKs, the list of
//! recently used network endpoints and the selected device.
use vstd::prelude::*;

use crate::domain::{BridgeError, DeviceRecord, DeviceSnapshot, ErrorCode};
use crate::strings::{chars_of, parse_u16, parse_unsigned_spec, str_equal, trim_spec, trimmed};

verus! {

broadcast use vstd::string::group_string_axioms;

// ---------------------------------------------------------------------------
// Panels

/// The content panels of the main window, in navigation order.
#[derive(Clone, Copy, Debug, PartialEq, Eq, Structural)]
pub enum Panel {
    Overview,
    Files,
    Applications,
    Processes,
    Performance,
    Shell,
    Layout,
    Screenshot,
    Logcat,
    WebView,
    Mirror,
}

/// The translation key naming a panel.
pub open spec fn panel_key(panel: Panel) -> Seq<char> {
    match panel {
        Panel::Overview => "overview"@,
        Panel::Files => "files"@,
        Panel::Applications => "applications"@,
        Panel::Processes => "processes"@,
        Panel::Performance => "performance"@,
        Panel::Shell => "shell"@,
        Panel::Layout => "layout"@,
        Panel::Screenshot => "screenshot"@,
        Panel::Logcat => "logcat"@,
        Panel::WebView => "webview"@,
        Panel::Mirror => "mirror"@,
    }
}

/// The emoji shown for a panel on the collapsed navigation rail.
pub open spec fn panel_icon(panel: Panel) -> Seq<char> {
    match panel {
        Panel::Overview => "📊"@,
        Panel::Files => "📁"@,
        Panel::Applications => "📦"@,
        Panel::Processes => "📋"@,
        Panel::Performance => "⚡"@,
        Panel::Shell => "💻"@,
        Panel::Layout => "🔍"@,
        Panel::Screenshot => "📷"@,
        Panel::Logcat => "📜"@,
        Panel::WebView => "🌐"@,
        Panel::Mirror => "📺"@,
    }
}

/// The panels in navigation order.
pub open spec fn panel_order() -> Seq<Panel> {
    seq![
        Panel::Overview,
        Panel::Files,
        Panel::Applications,
        Panel::Processes,
        Panel::Performance,
        Panel::Shell,
        Panel::Layout,
        Panel::Screenshot,
        Panel::Logcat,
        Panel::WebView,
        Panel::Mirror,
    ]
}

impl Panel {
    /// Every panel once, in navigation order.
    pub fn all() -> (panels: [Panel; 11])
        ensures
            panels@ == panel_order(),
    {
        let panels = [
            Panel::Overview,
            Panel::Files,
            Panel::Applications,
            Panel::Processes,
            Panel::Performance,
            Panel::Shell,
            Panel::Layout,
            Panel::Screenshot,
            Panel::Logcat,
            Panel::WebView,
            Panel::Mirror,
        ];
        assert(panels@ =~= panel_order());
        panels
    }

    /// The translation key naming this panel.
    pub fn key(self) -> (key: &'static str)
        ensures
            key@ == panel_key(self),
    {
        match self {
            Panel::Overview => "overview",
            Panel::Files => "files",
            Panel::Applications => "applications",
            Panel::Processes => "processes",
            Panel::Performance => "performance",
            Panel::Shell => "shell",
            Panel::Layout => "layout",
            Panel::Screenshot => "screenshot",
            Panel::Logcat => "logcat",
            Panel::WebView => "webview",
            Panel::Mirror => "mirror",
        }
    }

    /// The emoji shown for this panel on the collapsed navigation rail.
    pub fn icon(self) -> (icon: &'static str)
        ensures
            icon@ == panel_icon(self),
    {
        match self {
            Panel::Overview => "📊",
            Panel::Files => "📁",
            Panel::Applications => "📦",
            Panel::Processes => "📋",
            Panel::Performance => "⚡",
            Panel::Shell => "💻",
            Panel::Layout => "🔍",
            Panel::Screenshot => "📷",
            Panel::Logcat => "📜",
            Panel::WebView => "🌐",
            Panel::Mirror => "📺",
        }
    }

    /// The first panel, in navigation order, whose key is `key`.
    pub fn from_key(key: &str) -> (panel: Option<Panel>)
        ensures
            match panel {
                Some(p) => exists|i: int|
                    0 <= i < panel_order().len() && panel_order()[i] == p && panel_key(p) == key@
                        && forall|j: int|
                        0 <= j < i ==> panel_key(#[trigger] panel_order()[j]) != key@,
                None => forall|i: int|
                    0 <= i < panel_order().len() ==> panel_key(#[trigger] panel_order()[i])
                        != key@,
            },
    {
        let panels = Panel::all();
        let mut i: usize = 0;
        while i < 11
            invariant
                panels@ == panel_order(),
                i <= 11,
                forall|j: int| 0 <= j < i ==> panel_key(#[trigger] panel_order()[j]) != key@,
            decreases 11 - i,
        {
            if str_equal(panels[i].key(), key) {
                assert(panel_order()[i as int] == panels[i as int]);
                return Some(panels[i]);
            }
            i = i + 1;
        }
        None
    }
}

// ---------------------------------------------------------------------------
// Resize seams

/// An edge or corner of the window where dragging resizes it.
#[derive(Clone, Copy, Debug, PartialEq, Eq, Structural)]
pub enum ResizeSeam {
    North,
    South,
    East,
    West,
    NorthEast,
    NorthWest,
    SouthEast,
    SouthWest,
}

/// The seam for a pointer inside the window that lies within the seam
/// thickness of the given edges: a corner when two adjacent edges are near
/// (west before east, north before south), else the single edge.
pub open spec fn seam_spec(
    near_left: bool,
    near_right: bool,
    near_top: bool,
    near_bottom: bool,
) -> Option<ResizeSeam> {
    if near_left && near_top {
        Some(ResizeSeam::NorthWest)
    } else if near_left && near_bottom {
        Some(ResizeSeam::SouthWest)
    } else if near_right && near_top {
        Some(ResizeSeam::NorthEast)
    } else if near_right && near_bottom {
        Some(ResizeSeam::SouthEast)
    } else if near_left {
        Some(ResizeSeam::West)
    } else if near_right {
        Some(ResizeSeam::East)
    } else if near_top {
        Some(ResizeSeam::North)
    } else if near_bottom {
        Some(ResizeSeam::South)
    } else {
        None
    }
}

/// Which seam a pointer inside the window is on, from its nearness to each
/// edge.
pub fn seam_for(near_left: bool, near_right: bool, near_top: bool, near_bottom: bool) -> (seam:
    Option<ResizeSeam>)
    ensures
        seam == seam_spec(near_left, near_right, near_top, near_bottom),
{
    if near_left && near_top {
        Some(ResizeSeam::NorthWest)
    } else if near_left && near_bottom {
        Some(ResizeSeam::SouthWest)
    } else if near_right && near_top {
        Some(ResizeSeam::NorthEast)
    } else if near_right && near_bottom {
        Some(ResizeSeam::SouthEast)
    } else if near_left {
        Some(ResizeSeam::West)
    } else if near_right {
        Some(ResizeSeam::East)
    } else if near_top {
        Some(ResizeSeam::North)
    } else if near_bottom {
        Some(ResizeSeam::South)
    } else {
        None
    }
}

// ---------------------------------------------------------------------------
// APK drops

/// The characters after the last `/` of `p`.
pub open spec fn last_segment(p: Seq<char>) -> Seq<char>
    decreases p.len(),
{
    if p.len() == 0 || p.last() == '/' {
        Seq::empty()
    } else {
        last_segment(p.drop_last()).push(p.last())
    }
}

/// The file name of a `/`-separated path as `Path::file_name` reads it:
/// trailing separators and `.` components are skipped, and a path that ends
/// in `..` (or has no normal component) has none. Only `/` separates
/// components here, as on Unix; on Windows `Path` also splits at `\` and
/// reads drive prefixes, which this model does not. The two readings agree
/// on paths with neither `\` nor a drive prefix, and can differ on Windows
/// paths that end in `\`, hold a `\.` component, or end in a component
/// that is a bare `.apk`.
pub open spec fn file_name(p: Seq<char>) -> Option<Seq<char>>
    decreases p.len(),
{
    if p.len() == 0 {
        None
    } else if p.last() == '/' {
        file_name(p.drop_last())
    } else if last_segment(p) == seq!['.'] {
        file_name(p.drop_last())
    } else if last_segment(p) == seq!['.', '.'] {
        None
    } else {
        Some(last_segment(p))
    }
}

/// The characters after the last `.` of `f`.
pub open spec fn after_last_dot(f: Seq<char>) -> Seq<char>
    decreases f.len(),
{
    if f.len() == 0 || f.last() == '.' {
        Seq::empty()
    } else {
        after_last_dot(f.drop_last()).push(f.last())
    }
}

/// The extension of a file name as `Path::extension` reads it: the text after
/// the last `.`, provided something precedes that dot.
pub open spec fn extension(f: Seq<char>) -> Option<Seq<char>> {
    let after = after_last_dot(f);
    if after.len() + 1 < f.len() {
        Some(after)
    } else {
        None
    }
}

/// Whether an extension is `apk` in any ASCII case.
pub open spec fn is_apk_extension(e: Seq<char>) -> bool {
    &&& e.len() == 3
    &&& (e[0] == 'a' || e[0] == 'A')
    &&& (e[1] == 'p' || e[1] == 'P')
    &&& (e[2] == 'k' || e[2] == 'K')
}

/// Whether a path names an APK by its extension.
pub open spec fn apk_path(p: Seq<char>) -> bool {
    match file_name(p) {
        Some(f) => match extension(f) {
            Some(e) => is_apk_extension(e),
            None => false,
        },
        None => false,
    }
}

proof fn lemma_last_segment_len(p: Seq<char>)
    ensures
        last_segment(p).len() <= p.len(),
        last_segment(p) == p.subrange(p.len() - last_segment(p).len(), p.len() as int),
        last_segment(p).len() < p.len() ==> p[p.len() - last_segment(p).len() - 1] == '/',
        forall|k: int|
            0 <= k < last_segment(p).len() ==> #[trigger] last_segment(p)[k] != '/',
    decreases p.len(),
{
    if p.len() > 0 && p.last() != '/' {
        lemma_last_segment_len(p.drop_last());
        assert(last_segment(p) =~= p.subrange(p.len() - last_segment(p).len(), p.len() as int));
    }
}

proof fn lemma_after_last_dot_len(f: Seq<char>)
    ensures
        after_last_dot(f).len() <= f.len(),
        after_last_dot(f) == f.subrange(f.len() - after_last_dot(f).len(), f.len() as int),
        after_last_dot(f).len() < f.len() ==> f[f.len() - after_last_dot(f).len() - 1] == '.',
        forall|k: int|
            0 <= k < after_last_dot(f).len() ==> #[trigger] after_last_dot(f)[k] != '.',
    decreases f.len(),
{
    if f.len() > 0 && f.last() != '.' {
        lemma_after_last_dot_len(f.drop_last());
        assert(after_last_dot(f) =~= f.subrange(f.len() - after_last_dot(f).len(), f.len() as int));
    }
}

/// Start of the run of characters other than `stop` that ends at `end`.
fn run_start(chars: &Vec<char>, end: usize, stop: char) -> (start: usize)
    requires
        end <= chars@.len(),
    ensures
        start <= end,
        start == 0 || chars@[start - 1] == stop,
        forall|k: int| start <= k < end ==> chars@[k] != stop,
{
    let mut start = end;
    while start > 0 && chars[start - 1] != stop
        invariant
            start <= end <= chars@.len(),
            forall|k: int| start <= k < end ==> chars@[k] != stop,
        decreases start,
    {
        start = start - 1;
    }
    start
}

/// `last_segment` of a prefix, from the position of the previous `/`.
proof fn lemma_last_segment_run(p: Seq<char>, start: int)
    requires
        0 <= start <= p.len(),
        start == 0 || p[start - 1] == '/',
        forall|k: int| start <= k < p.len() ==> p[k] != '/',
    ensures
        last_segment(p) == p.subrange(start, p.len() as int),
    decreases p.len(),
{
    if p.len() > start {
        lemma_last_segment_run(p.drop_last(), start);
        assert(p.drop_last().subrange(start, p.len() - 1).push(p.last()) =~= p.subrange(
            start,
            p.len() as int,
        ));
    } else {
        if start > 0 {
            assert(p.last() == '/');
        }
        assert(p.subrange(start, p.len() as int) =~= Seq::<char>::empty());
    }
}

/// `after_last_dot` of a text, from the position of the previous `.`.
proof fn lemma_after_last_dot_run(f: Seq<char>, start: int)
    requires
        0 <= start <= f.len(),
        start == 0 || f[start - 1] == '.',
        forall|k: int| start <= k < f.len() ==> f[k] != '.',
    ensures
        after_last_dot(f) == f.subrange(start, f.len() as int),
    decreases f.len(),
{
    if f.len() > start {
        lemma_after_last_dot_run(f.drop_last(), start);
        assert(f.drop_last().subrange(start, f.len() - 1).push(f.last()) =~= f.subrange(
            start,
            f.len() as int,
        ));
    } else {
        if start > 0 {
            assert(f.last() == '.');
        }
        assert(f.subrange(start, f.len() as int) =~= Seq::<char>::empty());
    }
}

/// Whether the characters `chars[from..to]` have an `apk` extension.
fn segment_is_apk(chars: &Vec<char>, from: usize, to: usize) -> (apk: bool)
    requires
        from <= to <= chars@.len(),
    ensures
        apk == match extension(chars@.subrange(from as int, to as int)) {
            Some(e) => is_apk_extension(e),
            None => false,
        },
{
    let ghost f = chars@.subrange(from as int, to as int);
    let mut dot = to;
    while dot > from && chars[dot - 1] != '.'
        invariant
            from <= dot <= to <= chars@.len(),
            forall|k: int| dot <= k < to ==> chars@[k] != '.',
        decreases dot,
    {
        dot = dot - 1;
    }
    proof {
        lemma_after_last_dot_run(f, dot - from);
        assert(f.subrange(dot - from, f.len() as int) =~= chars@.subrange(dot as int, to as int));
    }
    // The dot must exist and be preceded by at least one character.
    if dot - from < 2 {
        return false;
    }
    if to - dot != 3 {
        return false;
    }
    let a = chars[dot];
    let p = chars[dot + 1];
    let k = chars[dot + 2];
    (a == 'a' || a == 'A') && (p == 'p' || p == 'P') && (k == 'k' || k == 'K')
}

/// Whether a hovered or dropped file is an APK, by its extension and in any
/// ASCII case (Windows users often carry `.APK`); the path is read with `/`
/// as its only separator (see [`file_name`]).
pub fn is_apk_path(path: Option<&str>) -> (apk: bool)
    ensures
        apk == match path {
            Some(p) => apk_path(p@),
            None => false,
        },
{
    let p = match path {
        Some(p) => p,
        None => return false,
    };
    let chars = chars_of(p);
    let mut end = chars.len();
    assert(chars@.take(end as int) =~= p@);
    loop
        invariant
            end <= chars@.len(),
            chars@ == p@,
            path == Some(p),
            apk_path(p@) == apk_path(chars@.take(end as int)),
        decreases end,
    {
        if end == 0 {
            assert(chars@.take(0) =~= Seq::<char>::empty());
            return false;
        }
        let ghost q = chars@.take(end as int);
        assert(q.drop_last() =~= chars@.take(end - 1));
        assert(q.last() == chars@[end - 1]);
        if chars[end - 1] == '/' {
            end = end - 1;
            continue;
        }
        let start = run_start(&chars, end, '/');
        proof {
            lemma_last_segment_run(q, start as int);
            assert(q.subrange(start as int, end as int) =~= chars@.subrange(
                start as int,
                end as int,
            ));
        }
        let len = end - start;
        if len == 1 && chars[start] == '.' {
            assert(last_segment(q) =~= seq!['.']);
            end = end - 1;
            continue;
        }
        if len == 2 && chars[start] == '.' && chars[start + 1] == '.' {
            assert(last_segment(q) =~= seq!['.', '.']);
            return false;
        }
        proof {
            if last_segment(q) == seq!['.'] {
                assert(last_segment(q)[0] == chars@[start as int]);
            }
            if last_segment(q) == seq!['.', '.'] {
                assert(last_segment(q)[0] == chars@[start as int]);
                assert(last_segment(q)[1] == chars@[start + 1]);
            }
        }
        return segment_is_apk(&chars, start, end);
    }
}

// ---------------------------------------------------------------------------
// Recent endpoints

/// How many recently connected endpoints are remembered.
pub const MAX_RECENT_ENDPOINTS: usize = 8;

/// A network adb endpoint, `host:port`.
#[derive(Debug)]
pub struct AdbEndpoint {
    host: String,
    port: u16,
}

impl View for AdbEndpoint {
    type V = (Seq<char>, u16);

    closed spec fn view(&self) -> (Seq<char>, u16) {
        (self.host@, self.port)
    }
}

impl AdbEndpoint {
    /// The endpoint `host:port`. Every host text is taken as it is: the
    /// library holds no rule that refuses a host, and adb itself reports a
    /// host it cannot reach when the connect runs.
    pub fn new(host: String, port: u16) -> (endpoint: Self)
        ensures
            endpoint@ == (host@, port),
    {
        AdbEndpoint { host, port }
    }

    pub fn host(&self) -> (host: &str)
        ensures
            host@ == self@.0,
    {
        self.host.as_str()
    }

    pub fn port(&self) -> (port: u16)
        ensures
            port == self@.1,
    {
        self.port
    }

    /// A copy with the same host and port.
    pub fn duplicate(&self) -> (copy: Self)
        ensures
            copy@ == self@,
    {
        AdbEndpoint { host: self.host.clone(), port: self.port }
    }

    /// Whether both name the same host and port.
    pub fn same_as(&self, other: &AdbEndpoint) -> (same: bool)
        ensures
            same == (self@ == other@),
    {
        self.port == other.port && str_equal(self.host.as_str(), other.host.as_str())
    }
}

/// The endpoints' contents, in order.
pub open spec fn endpoints_view(list: Seq<AdbEndpoint>) -> Seq<(Seq<char>, u16)> {
    list.map_values(|e: AdbEndpoint| e@)
}

/// `list` without the occurrences of `e`, order kept.
pub open spec fn without(list: Seq<(Seq<char>, u16)>, e: (Seq<char>, u16)) -> Seq<
    (Seq<char>, u16),
>
    decreases list.len(),
{
    if list.len() == 0 {
        Seq::empty()
    } else if list.last() == e {
        without(list.drop_last(), e)
    } else {
        without(list.drop_last(), e).push(list.last())
    }
}

/// The recent list after connecting to `e`: `e` first, the others after it
/// in their order without `e`, at most [`MAX_RECENT_ENDPOINTS`] in all.
pub open spec fn remembered(list: Seq<(Seq<char>, u16)>, e: (Seq<char>, u16)) -> Seq<
    (Seq<char>, u16),
> {
    let full = seq![e] + without(list, e);
    if full.len() <= MAX_RECENT_ENDPOINTS {
        full
    } else {
        full.take(MAX_RECENT_ENDPOINTS as int)
    }
}

/// Whether no endpoint occurs twice.
pub open spec fn distinct_endpoints(list: Seq<(Seq<char>, u16)>) -> bool {
    forall|i: int, j: int| 0 <= i < j < list.len() ==> list[i] != list[j]
}

proof fn lemma_without_facts(list: Seq<(Seq<char>, u16)>, e: (Seq<char>, u16))
    ensures
        without(list, e).len() <= list.len(),
        !without(list, e).contains(e),
        forall|x: (Seq<char>, u16)| #[trigger] without(list, e).contains(x) ==> list.contains(x),
        distinct_endpoints(list) ==> distinct_endpoints(without(list, e)),
        !list.contains(e) ==> without(list, e) == list,
    decreases list.len(),
{
    if list.len() > 0 {
        let rest = list.drop_last();
        lemma_without_facts(rest, e);
        let w = without(rest, e);
        assert forall|x: (Seq<char>, u16)| #[trigger] without(list, e).contains(x) implies list.contains(x) by {
            if w.contains(x) {
                let k = choose|k: int| 0 <= k < w.len() && w[k] == x;
                assert(rest.contains(x));
                let m = choose|m: int| 0 <= m < rest.len() && rest[m] == x;
                assert(list[m] == x);
            } else {
                assert(x == list.last());
                assert(list[list.len() - 1] == x);
            }
        }
        if list.last() != e {
            assert forall|x: (Seq<char>, u16)| w.push(list.last()).contains(x) implies x != e by {
                if x == e {
                    let k = choose|k: int| 0 <= k < w.len() + 1 && w.push(list.last())[k] == x;
                    if k < w.len() {
                        assert(w[k] == e);
                        assert(w.contains(e));
                    }
                }
            }
            if distinct_endpoints(list) {
                assert(distinct_endpoints(rest)) by {
                    assert forall|i: int, j: int| 0 <= i < j < rest.len() implies rest[i]
                        != rest[j] by {
                        assert(list[i] == rest[i] && list[j] == rest[j]);
                    }
                }
                assert forall|i: int, j: int|
                    0 <= i < j < w.len() + 1 implies w.push(list.last())[i] != w.push(
                    list.last(),
                )[j] by {
                    if j == w.len() {
                        if w[i] == list.last() {
                            assert(w.contains(list.last()));
                            assert(rest.contains(list.last()));
                            let m = choose|m: int| 0 <= m < rest.len() && rest[m] == list.last();
                            assert(list[m] == list[list.len() - 1]);
                        }
                    }
                }
            }
        } else {
            if distinct_endpoints(list) {
                assert forall|i: int, j: int| 0 <= i < j < rest.len() implies rest[i]
                    != rest[j] by {
                    assert(list[i] == rest[i] && list[j] == rest[j]);
                }
            }
        }
        if !list.contains(e) {
            assert(!rest.contains(e)) by {
                if rest.contains(e) {
                    let m = choose|m: int| 0 <= m < rest.len() && rest[m] == e;
                    assert(list[m] == e);
                }
            }
            assert(list.last() != e) by {
                assert(list[list.len() - 1] == list.last());
            }
            assert(w.push(list.last()) =~= list);
        }
    } else {
        assert(without(list, e) =~= list);
    }
}

/// Connecting puts the endpoint first, keeps it there exactly once, keeps
/// the list within [`MAX_RECENT_ENDPOINTS`] and only ever holds endpoints
/// that were connected to.
pub proof fn lemma_remembered_shape(list: Seq<(Seq<char>, u16)>, e: (Seq<char>, u16))
    ensures
        remembered(list, e).len() >= 1,
        remembered(list, e).len() <= MAX_RECENT_ENDPOINTS,
        remembered(list, e)[0] == e,
        forall|i: int| 0 < i < remembered(list, e).len() ==> #[trigger] remembered(list, e)[i] != e,
        forall|i: int|
            0 < i < remembered(list, e).len() ==> list.contains(#[trigger] remembered(list, e)[i]),
{
    lemma_without_facts(list, e);
    let w = without(list, e);
    let r = remembered(list, e);
    assert forall|i: int| 0 < i < r.len() implies #[trigger] r[i] != e && list.contains(r[i]) by {
        assert(r[i] == w[i - 1]);
        assert(w.contains(w[i - 1]));
    }
}

/// Remembering keeps the list free of repeats.
pub proof fn lemma_remembered_distinct(list: Seq<(Seq<char>, u16)>, e: (Seq<char>, u16))
    requires
        distinct_endpoints(list),
    ensures
        distinct_endpoints(remembered(list, e)),
{
    lemma_without_facts(list, e);
    let w = without(list, e);
    let r = remembered(list, e);
    assert forall|i: int, j: int| 0 <= i < j < r.len() implies r[i] != r[j] by {
        if i == 0 {
            assert(r[j] == w[j - 1]);
            assert(w.contains(w[j - 1]));
        } else {
            assert(r[i] == w[i - 1] && r[j] == w[j - 1]);
        }
    }
}

/// Connecting again to the most recent endpoint leaves the list unchanged.
pub proof fn lemma_remember_again(list: Seq<(Seq<char>, u16)>, e: (Seq<char>, u16))
    ensures
        remembered(remembered(list, e), e) == remembered(list, e),
{
    lemma_without_facts(list, e);
    let w = without(list, e);
    let r = remembered(list, e);
    let rest = r.drop_first();
    assert(!rest.contains(e)) by {
        if rest.contains(e) {
            let k = choose|k: int| 0 <= k < rest.len() && rest[k] == e;
            assert(r[k + 1] == w[k]);
            assert(w.contains(w[k]));
        }
    }
    lemma_without_facts(rest, e);
    lemma_without_prepend(rest, e);
    assert(r =~= seq![e] + rest);
    assert(without(r, e) == without(rest, e));
    assert(without(r, e) == rest);
    assert(seq![e] + without(r, e) =~= r);
}

/// Removing `e` from a list that starts with `e` removes that first copy.
proof fn lemma_without_prepend(list: Seq<(Seq<char>, u16)>, e: (Seq<char>, u16))
    ensures
        without(seq![e] + list, e) == without(list, e),
    decreases list.len(),
{
    let whole = seq![e] + list;
    if list.len() == 0 {
        assert(whole =~= seq![e]);
        assert(whole.drop_last() =~= Seq::<(Seq<char>, u16)>::empty());
        assert(whole.last() == e);
        assert(without(whole, e) == without(whole.drop_last(), e));
    } else {
        lemma_without_prepend(list.drop_last(), e);
        assert(whole.drop_last() =~= seq![e] + list.drop_last());
        assert(whole.last() == list.last());
        if list.last() == e {
            assert(without(whole, e) == without(whole.drop_last(), e));
        } else {
            assert(without(whole, e) == without(whole.drop_last(), e).push(list.last()));
        }
    }
}

/// Puts a just-connected endpoint at the front of the recent list; see
/// [`remembered`].
pub fn remember_endpoint(recent: &mut Vec<AdbEndpoint>, endpoint: AdbEndpoint)
    ensures
        endpoints_view(final(recent)@) == remembered(endpoints_view(old(recent)@), endpoint@),
{
    let ghost old_view = endpoints_view(recent@);
    let mut kept: Vec<AdbEndpoint> = Vec::new();
    let mut i: usize = 0;
    while i < recent.len()
        invariant
            i <= recent@.len(),
            old_view == endpoints_view(recent@),
            endpoints_view(kept@) == without(old_view.take(i as int), endpoint@),
        decreases recent@.len() - i,
    {
        assert(old_view.take(i + 1).drop_last() =~= old_view.take(i as int));
        if !recent[i].same_as(&endpoint) {
            kept.push(recent[i].duplicate());
            assert(endpoints_view(kept@) =~= without(old_view.take(i as int), endpoint@).push(
                recent@[i as int]@,
            ));
        }
        i = i + 1;
    }
    assert(old_view.take(recent@.len() as int) =~= old_view);
    kept.insert(0, endpoint);
    assert(endpoints_view(kept@) =~= seq![endpoint@] + without(old_view, endpoint@));
    kept.truncate(MAX_RECENT_ENDPOINTS);
    assert(endpoints_view(kept@) =~= remembered(old_view, endpoint@));
    *recent = kept;
}

/// The port typed in the connect form: the trimmed text as a `u16`, or
/// `adb.endpoint.port_invalid`.
pub fn endpoint_port(text: &str) -> (port: Result<u16, BridgeError>)
    ensures
        match port {
            Ok(p) => parse_unsigned_spec(trim_spec(text@), u16::MAX as nat) == Some(p as nat),
            Err(error) => parse_unsigned_spec(trim_spec(text@), u16::MAX as nat) is None
                && error.code == ErrorCode::InvalidInput && error.message_key@
                == "adb.endpoint.port_invalid"@,
        },
{
    let t = trimmed(text);
    match parse_u16(t.as_str()) {
        Some(p) => Ok(p),
        None => Err(BridgeError::invalid_input("adb.endpoint.port_invalid")),
    }
}

/// The endpoint typed in the connect form: the host as typed and the parsed
/// port.
pub fn endpoint_from_inputs(host: &str, port_text: &str) -> (endpoint: Result<
    AdbEndpoint,
    BridgeError,
>)
    ensures
        match endpoint {
            Ok(e) => parse_unsigned_spec(trim_spec(port_text@), u16::MAX as nat) == Some(
                e@.1 as nat,
            ) && e@.0 == host@,
            Err(error) => parse_unsigned_spec(trim_spec(port_text@), u16::MAX as nat) is None
                && error.message_key@ == "adb.endpoint.port_invalid"@,
        },
{
    match endpoint_port(port_text) {
        Ok(port) => Ok(AdbEndpoint::new(host.to_owned(), port)),
        Err(error) => Err(error),
    }
}

// ---------------------------------------------------------------------------
// Selected device

/// Index of the first record whose serial is `serial`.
pub open spec fn first_with_serial(devices: Seq<DeviceRecord>, serial: Seq<char>) -> Option<int>
    decreases devices.len(),
{
    if devices.len() == 0 {
        None
    } else {
        match first_with_serial(devices.drop_last(), serial) {
            Some(i) => Some(i),
            None => if devices.last().descriptor.serial@ == serial {
                Some(devices.len() - 1)
            } else {
                None
            },
        }
    }
}

/// The record of the selected device: the first record with the selected
/// serial, none when nothing is selected or the selection is not listed.
pub open spec fn selected_index(snapshot: DeviceSnapshot) -> Option<int> {
    match snapshot.selected {
        Some(serial) => first_with_serial(snapshot.devices@, serial@),
        None => None,
    }
}

proof fn lemma_first_with_serial(devices: Seq<DeviceRecord>, serial: Seq<char>, i: int)
    requires
        0 <= i <= devices.len(),
        forall|k: int| 0 <= k < i ==> #[trigger] devices[k].descriptor.serial@ != serial,
    ensures
        i < devices.len() && devices[i].descriptor.serial@ == serial ==> first_with_serial(
            devices,
            serial,
        ) == Some(i),
        i == devices.len() ==> first_with_serial(devices, serial) is None,
    decreases devices.len(),
{
    if devices.len() > 0 {
        if i < devices.len() {
            if i < devices.len() - 1 {
                lemma_first_with_serial(devices.drop_last(), serial, i);
            } else {
                lemma_first_with_serial(devices.drop_last(), serial, i);
            }
        } else {
            lemma_first_with_serial(devices.drop_last(), serial, i - 1);
        }
    }
}

/// The record of the selected device; see [`selected_index`].
pub fn selected_record(snapshot: &DeviceSnapshot) -> (record: Option<&DeviceRecord>)
    ensures
        match selected_index(*snapshot) {
            Some(i) => record == Some(&snapshot.devices@[i]),
            None => record is None,
        },
{
    let serial = match &snapshot.selected {
        Some(s) => s,
        None => return None,
    };
    let mut i: usize = 0;
    while i < snapshot.devices.len()
        invariant
            i <= snapshot.devices@.len(),
            snapshot.selected == Some(*serial),
            forall|k: int|
                0 <= k < i ==> #[trigger] snapshot.devices@[k].descriptor.serial@ != serial@,
        decreases snapshot.devices@.len() - i,
    {
        if snapshot.devices[i].descriptor.serial.same_as(serial) {
            proof {
                lemma_first_with_serial(snapshot.devices@, serial@, i as int);
            }
            return Some(&snapshot.devices[i]);
        }
        i = i + 1;
    }
    proof {
        lemma_first_with_serial(snapshot.devices@, serial@, i as int);
    }
    None
}

} // verus!
