//! Classified log buffer and severity parsing for the Logs tab.
//!
//! Each line's severity is read once, when it comes in. The level token
//! (`ERROR`, `WARN`, `INFO`, `DEBUG`, `TRACE`) has to stand on its own, not
//! inside a longer word, near the start of the line; the earliest one counts.
use vstd::prelude::*;

use crate::ring::{capped_extend, capped_push, Ring};
use crate::text::{
    byte_len, byte_width, chars_of, contains, head, head_bytes, occurs, occurs_at, occurs_here,
    text_of, to_lowercase, unicode_lowercase,
};

verus! {

/// How many lines are kept.
pub const LOG_BUFFER_MAX: usize = 2000;

/// How many bytes of a line are searched for its level.
pub const LEVEL_WINDOW: usize = 80;

#[derive(Debug, Clone, Copy, PartialEq, Eq, Hash, Structural)]
pub enum LogSeverity {
    Error,
    Warn,
    Info,
    Debug,
}

impl DeepView for LogSeverity {
    type V = LogSeverity;

    open spec fn deep_view(&self) -> LogSeverity {
        *self
    }
}

impl LogSeverity {
    /// The severities in the order of their chips.
    pub fn all() -> (r: [LogSeverity; 4])
        ensures
            r@ == seq![LogSeverity::Error, LogSeverity::Warn, LogSeverity::Info, LogSeverity::Debug],
    {
        let r: [LogSeverity; 4] = [
            LogSeverity::Error,
            LogSeverity::Warn,
            LogSeverity::Info,
            LogSeverity::Debug,
        ];
        assert(r@ =~= seq![
            LogSeverity::Error,
            LogSeverity::Warn,
            LogSeverity::Info,
            LogSeverity::Debug,
        ]);
        r
    }

    /// The level token of a severity.
    pub open spec fn name(self) -> Seq<char> {
        match self {
            LogSeverity::Error => "ERROR"@,
            LogSeverity::Warn => "WARN"@,
            LogSeverity::Info => "INFO"@,
            LogSeverity::Debug => "DEBUG"@,
        }
    }

    pub fn label(self) -> (r: &'static str)
        ensures
            r@ == self.name(),
    {
        match self {
            LogSeverity::Error => "ERROR",
            LogSeverity::Warn => "WARN",
            LogSeverity::Info => "INFO",
            LogSeverity::Debug => "DEBUG",
        }
    }
}

/// A log line with its severity.
#[derive(Debug, PartialEq)]
pub struct LogLine {
    pub severity: LogSeverity,
    pub text: String,
}

/// What [`LogLine`] holds, as mathematical values.
#[verifier::ext_equal]
pub struct LogLineView {
    pub severity: LogSeverity,
    pub text: Seq<char>,
}

impl DeepView for LogLine {
    type V = LogLineView;

    open spec fn deep_view(&self) -> LogLineView {
        LogLineView {
            severity: self.severity.deep_view(),
            text: self.text.deep_view(),
        }
    }
}

impl Clone for LogLine {
    fn clone(&self) -> (r: LogLine)
        ensures
            r.deep_view() == self.deep_view(),
    {
        LogLine {
            severity: self.severity,
            text: self.text.clone(),
        }
    }
}

impl LogLine {
    /// The line with the severity that its text tells.
    pub open spec fn classified(text: Seq<char>) -> LogLineView {
        LogLineView { severity: severity_of(text), text }
    }

    /// Builds a classified line from a raw string.
    pub fn classify(text: String) -> (r: LogLine)
        ensures
            r.deep_view() == LogLine::classified(text@),
    {
        let severity = parse_severity(text.as_str());
        LogLine { severity, text }
    }
}

// ---------------------------------------------------------------------
// Severity
// ---------------------------------------------------------------------

/// Whether `c` is an ASCII letter.
pub open spec fn is_letter(c: char) -> bool {
    'a' <= c <= 'z' || 'A' <= c <= 'Z'
}

/// Whether `needle` stands in `hay` at `i` with no letter right before or
/// right behind it.
pub open spec fn token_at(hay: Seq<char>, needle: Seq<char>, i: int) -> bool {
    &&& occurs_at(hay, needle, i)
    &&& !(i > 0 && is_letter(hay[i - 1]))
    &&& !(i + needle.len() < hay.len() && is_letter(hay[i + needle.len()]))
}

/// `r` is the first position at which `needle` is a token of `hay`, if any.
pub open spec fn is_first_token(hay: Seq<char>, needle: Seq<char>, r: Option<int>) -> bool {
    match r {
        Some(i) => token_at(hay, needle, i) && forall|j: int|
            0 <= j < i ==> !token_at(hay, needle, j),
        None => forall|j: int| !token_at(hay, needle, j),
    }
}

/// The first position at which `needle` is a token of `hay`.
pub open spec fn first_token(hay: Seq<char>, needle: Seq<char>) -> Option<int> {
    choose|r: Option<int>| is_first_token(hay, needle, r)
}

proof fn first_token_is(hay: Seq<char>, needle: Seq<char>, r: Option<int>)
    requires
        is_first_token(hay, needle, r),
    ensures
        first_token(hay, needle) == r,
{
    let f = first_token(hay, needle);
    assert(is_first_token(hay, needle, f));
    match (f, r) {
        (Some(i), Some(j)) => {
            if i < j {
                assert(!token_at(hay, needle, i));
            } else if j < i {
                assert(!token_at(hay, needle, j));
            }
        },
        _ => {},
    }
}

fn letter(c: char) -> (r: bool)
    ensures
        r == is_letter(c),
{
    ('a' <= c && c <= 'z') || ('A' <= c && c <= 'Z')
}

fn is_token_here(h: &Vec<char>, n: &Vec<char>, i: usize) -> (r: bool)
    ensures
        r == token_at(h@, n@, i as int),
{
    if !occurs_here(h, n, i) {
        return false;
    }
    let end: usize = h.len();
    let before = i > 0 && letter(h[i - 1]);
    let behind: usize = i + n.len();
    let after = behind < end && letter(h[behind]);
    !before && !after
}

/// Where the first token is, in bytes from the start of `hay`.
pub open spec fn token_offset(hay: Seq<char>, needle: Seq<char>) -> Option<int> {
    match first_token(hay, needle) {
        Some(i) => Some(byte_len(hay.take(i)) as int),
        None => None,
    }
}

/// Whether the scan for a token goes on at a character: behind every place up
/// to the first token where `needle` is only part of a longer word, one byte
/// on, a character begins.
pub open spec fn scans_by_characters(hay: Seq<char>, needle: Seq<char>) -> bool {
    forall|j: int|
        (#[trigger] occurs_at(hay, needle, j)) && (forall|i: int|
            0 <= i <= j ==> !token_at(hay, needle, i)) ==> j < hay.len() && byte_width(hay[j]) == 1
}

proof fn ascii_needles_scan(hay: Seq<char>, needle: Seq<char>)
    requires
        needle.len() > 0,
        byte_width(needle[0]) == 1,
    ensures
        scans_by_characters(hay, needle),
{
    assert forall|j: int|
        (#[trigger] occurs_at(hay, needle, j)) && (forall|i: int|
            0 <= i <= j ==> !token_at(hay, needle, i)) implies j < hay.len() && byte_width(hay[j])
        == 1 by {
        assert(hay.subrange(j, j + needle.len())[0] == hay[j]);
    }
}

/// Finds the first place where `needle` is a token of `hay`, past those where
/// it is only part of a longer word. The place is counted in bytes.
pub fn find_token(hay: &str, needle: &str) -> (r: Option<usize>)
    requires
        scans_by_characters(hay@, needle@),
    ensures
        (match r {
            Some(i) => Some(i as int),
            None => None,
        }) == token_offset(hay@, needle@),
{
    let h = chars_of(hay);
    let n = chars_of(needle);
    let mut i: usize = 0;
    while i < h.len() && !is_token_here(&h, &n, i)
        invariant
            h@ == hay@,
            n@ == needle@,
            i <= h@.len(),
            forall|j: int| 0 <= j < i ==> !token_at(h@, n@, j),
        decreases h@.len() - i,
    {
        i = i + 1;
    }
    if is_token_here(&h, &n, i) {
        proof {
            first_token_is(hay@, needle@, Some(i as int));
        }
        let before = text_of(&h, 0, i);
        assert(before@ =~= hay@.take(i as int));
        return Some(before.as_str().as_bytes().len());
    }
    proof {
        assert forall|j: int| !token_at(h@, n@, j) by {}
        first_token_is(hay@, needle@, None);
    }
    None
}

/// The better of what was found so far and a token at `pos`: the earlier one.
pub open spec fn earlier(
    best: Option<(int, LogSeverity)>,
    pos: Option<int>,
    sev: LogSeverity,
) -> Option<(int, LogSeverity)> {
    match (best, pos) {
        (Some((p, s)), Some(q)) => if q < p {
            Some((q, sev))
        } else {
            Some((p, s))
        },
        (None, Some(q)) => Some((q, sev)),
        (b, None) => b,
    }
}

/// The earliest level token of `h`, with the severity it stands for.
pub open spec fn earliest_level(h: Seq<char>) -> Option<(int, LogSeverity)> {
    let a = earlier(None, token_offset(h, "ERROR"@), LogSeverity::Error);
    let b = earlier(a, token_offset(h, "WARN"@), LogSeverity::Warn);
    let c = earlier(b, token_offset(h, "INFO"@), LogSeverity::Info);
    let d = earlier(c, token_offset(h, "DEBUG"@), LogSeverity::Debug);
    earlier(d, token_offset(h, "TRACE"@), LogSeverity::Debug)
}

/// The severity that a line tells.
pub open spec fn severity_of(line: Seq<char>) -> LogSeverity {
    match earliest_level(head(line, LEVEL_WINDOW as int)) {
        Some((_, s)) => s,
        None => LogSeverity::Info,
    }
}

fn pick(best: Option<(usize, LogSeverity)>, pos: Option<usize>, sev: LogSeverity) -> (r: Option<
    (usize, LogSeverity),
>)
    ensures
        level(r) == earlier(
            level(best),
            match pos {
                Some(i) => Some(i as int),
                None => None,
            },
            sev,
        ),
{
    match (best, pos) {
        (Some((p, s)), Some(q)) => if q < p {
            Some((q, sev))
        } else {
            Some((p, s))
        },
        (None, Some(q)) => Some((q, sev)),
        (b, None) => b,
    }
}

spec fn level(o: Option<(usize, LogSeverity)>) -> Option<(int, LogSeverity)> {
    match o {
        Some((i, s)) => Some((i as int, s)),
        None => None,
    }
}

/// Classifies a raw log line by the earliest level token near its start.
/// Without one it is an info line.
pub fn parse_severity(line: &str) -> (r: LogSeverity)
    ensures
        r == severity_of(line@),
{
    let h = head_bytes(line, LEVEL_WINDOW);
    proof {
        reveal_strlit("ERROR");
        reveal_strlit("WARN");
        reveal_strlit("INFO");
        reveal_strlit("DEBUG");
        reveal_strlit("TRACE");
        ascii_needles_scan(h@, "ERROR"@);
        ascii_needles_scan(h@, "WARN"@);
        ascii_needles_scan(h@, "INFO"@);
        ascii_needles_scan(h@, "DEBUG"@);
        ascii_needles_scan(h@, "TRACE"@);
    }
    let a = pick(None, find_token(h, "ERROR"), LogSeverity::Error);
    let b = pick(a, find_token(h, "WARN"), LogSeverity::Warn);
    let c = pick(b, find_token(h, "INFO"), LogSeverity::Info);
    let d = pick(c, find_token(h, "DEBUG"), LogSeverity::Debug);
    match pick(d, find_token(h, "TRACE"), LogSeverity::Debug) {
        Some((_, s)) => s,
        None => LogSeverity::Info,
    }
}

/// The token of a severity that is found first decides, whatever tokens come
/// later; without any token the line is an info line.
pub proof fn earliest_token_decides(h: Seq<char>)
    ensures
        match earliest_level(h) {
            Some((p, s)) => {
                &&& token_offset(h, "ERROR"@) matches Some(q) ==> p <= q
                &&& token_offset(h, "WARN"@) matches Some(q) ==> p <= q
                &&& token_offset(h, "INFO"@) matches Some(q) ==> p <= q
                &&& token_offset(h, "DEBUG"@) matches Some(q) ==> p <= q
                &&& token_offset(h, "TRACE"@) matches Some(q) ==> p <= q
                &&& s == LogSeverity::Error ==> token_offset(h, "ERROR"@) == Some(p)
                &&& s == LogSeverity::Warn ==> token_offset(h, "WARN"@) == Some(p)
                &&& s == LogSeverity::Info ==> token_offset(h, "INFO"@) == Some(p)
                &&& s == LogSeverity::Debug ==> token_offset(h, "DEBUG"@) == Some(p) || token_offset(
                    h,
                    "TRACE"@,
                ) == Some(p)
            },
            None => token_offset(h, "ERROR"@) is None && token_offset(h, "WARN"@) is None
                && token_offset(h, "INFO"@) is None && token_offset(h, "DEBUG"@) is None
                && token_offset(h, "TRACE"@) is None,
        },
{
}

/// Whether a severity word stands at `i`.
pub open spec fn level_at(h: Seq<char>, i: int) -> bool {
    ||| token_at(h, "ERROR"@, i)
    ||| token_at(h, "WARN"@, i)
    ||| token_at(h, "INFO"@, i)
    ||| token_at(h, "DEBUG"@, i)
    ||| token_at(h, "TRACE"@, i)
}

proof fn offsets_grow(h: Seq<char>, i: int, j: int)
    requires
        0 <= i < j <= h.len(),
    ensures
        byte_len(h.take(i)) < byte_len(h.take(j)),
    decreases i,
{
    let t = h.drop_first();
    assert(h.take(j)[0] == h[0]);
    assert(h.take(j).drop_first() =~= t.take(j - 1));
    if i > 0 {
        assert(h.take(i)[0] == h[0]);
        assert(h.take(i).drop_first() =~= t.take(i - 1));
        offsets_grow(t, i - 1, j - 1);
    }
}

proof fn some_token_is_first(h: Seq<char>, needle: Seq<char>, from: int)
    requires
        0 <= from,
        forall|j: int| 0 <= j < from ==> !token_at(h, needle, j),
    ensures
        is_first_token(h, needle, first_token(h, needle)),
    decreases h.len() + 1 - from,
{
    if from > h.len() {
        assert forall|j: int| !token_at(h, needle, j) by {}
        assert(is_first_token(h, needle, None));
    } else if token_at(h, needle, from) {
        assert(is_first_token(h, needle, Some(from)));
    } else {
        some_token_is_first(h, needle, from + 1);
    }
}

proof fn later_token(h: Seq<char>, needle: Seq<char>, i: int)
    requires
        0 <= i <= h.len(),
        needle.len() > 0,
        forall|j: int| 0 <= j <= i ==> !token_at(h, needle, j),
    ensures
        token_offset(h, needle) matches Some(q) ==> byte_len(h.take(i)) < q,
{
    some_token_is_first(h, needle, 0);
    if let Some(k) = first_token(h, needle) {
        assert(token_at(h, needle, k));
        offsets_grow(h, i, k);
    }
}

proof fn token_starts_with(h: Seq<char>, needle: Seq<char>, i: int)
    requires
        token_at(h, needle, i),
        needle.len() > 0,
    ensures
        h[i] == needle[0],
        i < h.len(),
{
    assert(h.subrange(i, i + needle.len())[0] == h[i]);
}

/// The first severity word in the beginning of a line decides its severity,
/// whatever follows; a line without one is information.
pub proof fn first_word_decides(line: Seq<char>, i: int)
    ensures
        ({
            let h = head(line, 80);
            let first = level_at(h, i) && forall|j: int| 0 <= j < i ==> !level_at(h, j);
            &&& first && token_at(h, "ERROR"@, i) ==> severity_of(line) == LogSeverity::Error
            &&& first && token_at(h, "WARN"@, i) ==> severity_of(line) == LogSeverity::Warn
            &&& first && token_at(h, "INFO"@, i) ==> severity_of(line) == LogSeverity::Info
            &&& first && token_at(h, "DEBUG"@, i) ==> severity_of(line) == LogSeverity::Debug
            &&& first && token_at(h, "TRACE"@, i) ==> severity_of(line) == LogSeverity::Debug
            &&& (forall|j: int| !level_at(h, j)) ==> severity_of(line) == LogSeverity::Info
        }),
{
    let h = head(line, 80);
    earliest_token_decides(h);
    reveal_strlit("ERROR");
    reveal_strlit("WARN");
    reveal_strlit("INFO");
    reveal_strlit("DEBUG");
    reveal_strlit("TRACE");
    if level_at(h, i) && (forall|j: int| 0 <= j < i ==> !level_at(h, j)) {
        if token_at(h, "ERROR"@, i) {
            token_starts_with(h, "ERROR"@, i);
        }
        if token_at(h, "WARN"@, i) {
            token_starts_with(h, "WARN"@, i);
        }
        if token_at(h, "INFO"@, i) {
            token_starts_with(h, "INFO"@, i);
        }
        if token_at(h, "DEBUG"@, i) {
            token_starts_with(h, "DEBUG"@, i);
        }
        if token_at(h, "TRACE"@, i) {
            token_starts_with(h, "TRACE"@, i);
        }
        assert forall|j: int| 0 <= j < i implies !token_at(h, "ERROR"@, j) && !token_at(
            h,
            "WARN"@,
            j,
        ) && !token_at(h, "INFO"@, j) && !token_at(h, "DEBUG"@, j) && !token_at(h, "TRACE"@, j) by {
            assert(!level_at(h, j));
        }
        first_or_later(h, "ERROR"@, i);
        first_or_later(h, "WARN"@, i);
        first_or_later(h, "INFO"@, i);
        first_or_later(h, "DEBUG"@, i);
        first_or_later(h, "TRACE"@, i);
    }
    if forall|j: int| !level_at(h, j) {
        assert forall|j: int|
            !token_at(h, "ERROR"@, j) && !token_at(h, "WARN"@, j) && !token_at(h, "INFO"@, j)
                && !token_at(h, "DEBUG"@, j) && !token_at(h, "TRACE"@, j) by {
            assert(!level_at(h, j));
        }
        first_token_is(h, "ERROR"@, None);
        first_token_is(h, "WARN"@, None);
        first_token_is(h, "INFO"@, None);
        first_token_is(h, "DEBUG"@, None);
        first_token_is(h, "TRACE"@, None);
    }
}

proof fn first_or_later(h: Seq<char>, needle: Seq<char>, i: int)
    requires
        0 <= i < h.len(),
        needle.len() > 0,
        forall|j: int| 0 <= j < i ==> !token_at(h, needle, j),
    ensures
        token_at(h, needle, i) ==> token_offset(h, needle) == Some(byte_len(h.take(i)) as int),
        !token_at(h, needle, i) ==> (token_offset(h, needle) matches Some(q) ==> byte_len(
            h.take(i),
        ) < q),
{
    if token_at(h, needle, i) {
        first_token_is(h, needle, Some(i));
    } else {
        later_token(h, needle, i);
    }
}

/// Classifying a line keeps its text, and the lines stay in order.
pub proof fn lines_keep_their_text(lines: Seq<Seq<char>>, i: int)
    requires
        0 <= i < lines.len(),
    ensures
        classified_all(lines).len() == lines.len(),
        classified_all(lines)[i].text == lines[i],
        classified_all(lines)[i].severity == severity_of(lines[i]),
{
}

// ---------------------------------------------------------------------
// Filters
// ---------------------------------------------------------------------

/// Filter state for the Logs tab: one switch per severity, and the text
/// searched for as it was typed (empty for no search).
#[derive(Debug, PartialEq)]
pub struct LogFilters {
    pub show_error: bool,
    pub show_warn: bool,
    pub show_info: bool,
    pub show_debug: bool,
    pub search: String,
}

/// What [`LogFilters`] holds, as mathematical values.
#[verifier::ext_equal]
pub struct LogFiltersView {
    pub show_error: bool,
    pub show_warn: bool,
    pub show_info: bool,
    pub show_debug: bool,
    pub search: Seq<char>,
}

impl DeepView for LogFilters {
    type V = LogFiltersView;

    open spec fn deep_view(&self) -> LogFiltersView {
        LogFiltersView {
            show_error: self.show_error.deep_view(),
            show_warn: self.show_warn.deep_view(),
            show_info: self.show_info.deep_view(),
            show_debug: self.show_debug.deep_view(),
            search: self.search.deep_view(),
        }
    }
}

impl Clone for LogFilters {
    fn clone(&self) -> (r: LogFilters)
        ensures
            r.deep_view() == self.deep_view(),
    {
        LogFilters {
            show_error: self.show_error,
            show_warn: self.show_warn,
            show_info: self.show_info,
            show_debug: self.show_debug,
            search: self.search.clone(),
        }
    }
}

impl LogFiltersView {
    /// Everything shows.
    pub open spec fn open_wide() -> LogFiltersView {
        LogFiltersView {
            show_error: true,
            show_warn: true,
            show_info: true,
            show_debug: true,
            search: Seq::empty(),
        }
    }

    /// Whether lines of a severity show.
    pub open spec fn shown(self, severity: LogSeverity) -> bool {
        match severity {
            LogSeverity::Error => self.show_error,
            LogSeverity::Warn => self.show_warn,
            LogSeverity::Info => self.show_info,
            LogSeverity::Debug => self.show_debug,
        }
    }

    /// The filters with one severity switched over.
    pub open spec fn toggled(self, severity: LogSeverity) -> LogFiltersView {
        match severity {
            LogSeverity::Error => LogFiltersView { show_error: !self.show_error, ..self },
            LogSeverity::Warn => LogFiltersView { show_warn: !self.show_warn, ..self },
            LogSeverity::Info => LogFiltersView { show_info: !self.show_info, ..self },
            LogSeverity::Debug => LogFiltersView { show_debug: !self.show_debug, ..self },
        }
    }

    /// Whether a line of a severity passes, by its text and the searched text
    /// in lower case.
    pub open spec fn passed(
        self,
        severity: LogSeverity,
        lowered_text: Seq<char>,
        lowered_search: Seq<char>,
    ) -> bool {
        self.shown(severity) && (self.search.len() == 0 || occurs(lowered_text, lowered_search))
    }

    /// Whether a line shows.
    pub open spec fn accepts(self, line: LogLineView) -> bool {
        self.passed(
            line.severity,
            unicode_lowercase(line.text),
            unicode_lowercase(self.search),
        )
    }
}

impl Default for LogFilters {
    fn default() -> (r: LogFilters)
        ensures
            r.deep_view() == LogFiltersView::open_wide(),
    {
        LogFilters {
            show_error: true,
            show_warn: true,
            show_info: true,
            show_debug: true,
            search: String::new(),
        }
    }
}

impl LogFilters {
    pub fn shows(&self, severity: LogSeverity) -> (r: bool)
        ensures
            r == self.deep_view().shown(severity),
    {
        match severity {
            LogSeverity::Error => self.show_error,
            LogSeverity::Warn => self.show_warn,
            LogSeverity::Info => self.show_info,
            LogSeverity::Debug => self.show_debug,
        }
    }

    pub fn toggle(&mut self, severity: LogSeverity)
        ensures
            final(self).deep_view() == old(self).deep_view().toggled(severity),
    {
        match severity {
            LogSeverity::Error => {
                self.show_error = !self.show_error;
            },
            LogSeverity::Warn => {
                self.show_warn = !self.show_warn;
            },
            LogSeverity::Info => {
                self.show_info = !self.show_info;
            },
            LogSeverity::Debug => {
                self.show_debug = !self.show_debug;
            },
        }
    }

    /// Whether a line of a severity passes, by its text and the searched text
    /// in lower case.
    pub fn passes(&self, severity: LogSeverity, lowered_text: &str, lowered_search: &str) -> (r:
        bool)
        ensures
            r == self.deep_view().passed(severity, lowered_text@, lowered_search@),
    {
        self.shows(severity) && (self.search.as_str().is_empty() || contains(
            lowered_text,
            lowered_search,
        ))
    }

    /// Whether a line shows: its severity first, then the searched text,
    /// upper and lower case alike.
    pub fn matches(&self, line: &LogLine) -> (r: bool)
        ensures
            r == self.deep_view().accepts(line.deep_view()),
    {
        let needle = to_lowercase(self.search.as_str());
        let text = to_lowercase(line.text.as_str());
        self.passes(line.severity, text.as_str(), needle.as_str())
    }
}

/// Switching a severity over twice changes nothing, and once changes only
/// that severity.
pub proof fn toggle_law(f: LogFiltersView, a: LogSeverity, b: LogSeverity)
    ensures
        f.toggled(a).toggled(a) == f,
        f.toggled(a).shown(b) == (if a == b {
            !f.shown(b)
        } else {
            f.shown(b)
        }),
        f.toggled(a).search == f.search,
{
}

/// Everything shows under the default filters.
pub proof fn default_shows_everything(line: LogLineView)
    ensures
        LogFiltersView::open_wide().accepts(line),
{
}

// ---------------------------------------------------------------------
// The buffer
// ---------------------------------------------------------------------

/// Appends a line to the buffer; the oldest goes when it is full.
pub fn push_line(buf: &mut Ring<LogLine>, line: LogLine)
    ensures
        final(buf).deep_view() == capped_push(
            old(buf).deep_view(),
            line.deep_view(),
            LOG_BUFFER_MAX as nat,
        ),
{
    buf.push(line, LOG_BUFFER_MAX);
}

/// Raw lines, classified.
pub open spec fn classified_all(lines: Seq<Seq<char>>) -> Seq<LogLineView> {
    Seq::new(lines.len(), |i: int| LogLine::classified(lines[i]))
}

/// Classifies raw lines and appends them.
pub fn push_lines(buf: &mut Ring<LogLine>, lines: &Vec<String>)
    ensures
        final(buf).deep_view() == capped_extend(
            old(buf).deep_view(),
            classified_all(lines.deep_view()),
            LOG_BUFFER_MAX as nat,
        ),
{
    let ghost all = classified_all(lines.deep_view());
    let ghost before = buf.deep_view();
    let mut i: usize = 0;
    assert(all.take(0).len() == 0);
    while i < lines.len()
        invariant
            i <= lines@.len(),
            all == classified_all(lines.deep_view()),
            buf.deep_view() == capped_extend(before, all.take(i as int), LOG_BUFFER_MAX as nat),
        decreases lines@.len() - i,
    {
        assert(all.take(i + 1).drop_last() =~= all.take(i as int));
        assert(all.take(i + 1).last() == LogLine::classified(lines@[i as int]@));
        push_line(buf, LogLine::classify(lines[i].clone()));
        i = i + 1;
    }
    assert(all.take(i as int) =~= all);
}

} // verus!
