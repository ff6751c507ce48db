//! Characters and strings: the text operations the rest of the library is
//! stated over, each with a model on `Seq<char>`.
use vstd::prelude::*;
use vstd::string::StrSliceExecFns;
use vstd::utf8::{encode_scalar, encode_utf8};

verus! {

/// `String::push` appends the character at the end.
pub assume_specification[ String::push ](s: &mut String, c: char)
    ensures
        final(s)@ == old(s)@.push(c),
;

// ---------------------------------------------------------------------
// Characters
// ---------------------------------------------------------------------

/// The characters with the Unicode property `White_Space`.
pub open spec fn is_space(c: char) -> bool {
    let n = c as u32;
    ||| 0x9 <= n <= 0xd
    ||| n == 0x20
    ||| n == 0x85
    ||| n == 0xa0
    ||| n == 0x1680
    ||| 0x2000 <= n <= 0x200a
    ||| n == 0x2028
    ||| n == 0x2029
    ||| n == 0x202f
    ||| n == 0x205f
    ||| n == 0x3000
}

/// Whether `c` is white space.
pub fn is_whitespace(c: char) -> (r: bool)
    ensures
        r == is_space(c),
{
    let n: u32 = c as u32;
    (0x9 <= n && n <= 0xd) || n == 0x20 || n == 0x85 || n == 0xa0 || n == 0x1680 || (0x2000 <= n
        && n <= 0x200a) || n == 0x2028 || n == 0x2029 || n == 0x202f || n == 0x205f || n == 0x3000
}

/// ASCII upper case of one character.
pub open spec fn upper(c: char) -> char {
    if 'a' <= c <= 'z' {
        (c as u32 - 32) as char
    } else {
        c
    }
}

/// ASCII lower case of one character.
pub open spec fn lower(c: char) -> char {
    if 'A' <= c <= 'Z' {
        (c as u32 + 32) as char
    } else {
        c
    }
}

pub fn ascii_upper(c: char) -> (r: char)
    ensures
        r == upper(c),
{
    if 'a' <= c && c <= 'z' {
        ((c as u8) - 32) as char
    } else {
        c
    }
}

pub fn ascii_lower(c: char) -> (r: char)
    ensures
        r == lower(c),
{
    if 'A' <= c && c <= 'Z' {
        ((c as u8) + 32) as char
    } else {
        c
    }
}

/// `s` in ASCII lower case.
pub open spec fn lowered(s: Seq<char>) -> Seq<char> {
    Seq::new(s.len(), |i: int| lower(s[i]))
}

/// `s` in ASCII upper case.
pub open spec fn uppered(s: Seq<char>) -> Seq<char> {
    Seq::new(s.len(), |i: int| upper(s[i]))
}

/// What `str::to_lowercase` makes of a text: its lower case by the Unicode
/// rules.
pub uninterp spec fn unicode_lowercase(s: Seq<char>) -> Seq<char>;

/// `str::to_lowercase`. The result is a function of the text alone.
#[verifier::external_body]
pub(crate) fn to_lowercase(s: &str) -> (r: String)
    ensures
        r@ == unicode_lowercase(s@),
{
    s.to_lowercase()
}

// ---------------------------------------------------------------------
// Strings as sequences of characters
// ---------------------------------------------------------------------

/// The characters of `s`, in order.
pub fn chars_of(s: &str) -> (r: Vec<char>)
    ensures
        r@ == s@,
{
    let mut out: Vec<char> = Vec::new();
    for c in it: s.chars()
        invariant
            it.seq() == s@,
            out@ == s@.take(it.index() as int),
    {
        out.push(c);
    }
    out
}

/// The string spelled by `chars[from..to]`.
pub fn text_of(chars: &Vec<char>, from: usize, to: usize) -> (r: String)
    requires
        from <= to <= chars@.len(),
    ensures
        r@ == chars@.subrange(from as int, to as int),
{
    let mut out = String::new();
    let mut i: usize = from;
    while i < to
        invariant
            from <= i <= to <= chars@.len(),
            out@ == chars@.subrange(from as int, i as int),
        decreases to - i,
    {
        out.push(chars[i]);
        i = i + 1;
        assert(chars@.subrange(from as int, i as int) == chars@.subrange(
            from as int,
            i - 1,
        ).push(chars@[i - 1]));
    }
    out
}

/// Whether the two strings spell the same text.
pub fn same(a: &str, b: &str) -> (r: bool)
    ensures
        r == (a@ == b@),
{
    let x = chars_of(a);
    let y = chars_of(b);
    same_chars(&x, &y)
}

pub fn same_chars(x: &Vec<char>, y: &Vec<char>) -> (r: bool)
    ensures
        r == (x@ == y@),
{
    if x.len() != y.len() {
        return false;
    }
    let mut i: usize = 0;
    while i < x.len()
        invariant
            i <= x@.len(),
            x@.len() == y@.len(),
            forall|k: int| 0 <= k < i ==> x@[k] == y@[k],
        decreases x@.len() - i,
    {
        if x[i] != y[i] {
            return false;
        }
        i = i + 1;
    }
    assert(x@ =~= y@);
    true
}

/// Whether the two strings spell the same text in ASCII lower case.
pub fn same_ignoring_case(a: &str, b: &str) -> (r: bool)
    ensures
        r == (lowered(a@) == lowered(b@)),
{
    let x = chars_of(a);
    let y = chars_of(b);
    if x.len() != y.len() {
        assert(lowered(a@).len() != lowered(b@).len());
        return false;
    }
    let mut i: usize = 0;
    while i < x.len()
        invariant
            i <= x@.len(),
            x@ == a@,
            y@ == b@,
            x@.len() == y@.len(),
            forall|k: int| 0 <= k < i ==> lower(x@[k]) == lower(y@[k]),
        decreases x@.len() - i,
    {
        if ascii_lower(x[i]) != ascii_lower(y[i]) {
            assert(lowered(a@)[i as int] != lowered(b@)[i as int]);
            return false;
        }
        i = i + 1;
    }
    assert(lowered(a@) =~= lowered(b@));
    true
}

/// `s` in ASCII upper case.
pub fn to_upper(s: &str) -> (r: String)
    ensures
        r@ == uppered(s@),
{
    let mut out = String::new();
    for c in it: s.chars()
        invariant
            it.seq() == s@,
            out@ == uppered(s@.take(it.index() as int)),
    {
        out.push(ascii_upper(c));
        assert(out@ =~= uppered(s@.take(it.index() + 1)));
    }
    assert(s@.take(s@.len() as int) =~= s@);
    out
}

/// The concatenation of two strings.
pub fn cat(a: &str, b: &str) -> (r: String)
    ensures
        r@ == a@ + b@,
{
    let mut out = a.to_owned();
    out.append(b);
    out
}

/// The concatenation of three strings.
pub fn cat3(a: &str, b: &str, c: &str) -> (r: String)
    ensures
        r@ == a@ + b@ + c@,
{
    let mut out = a.to_owned();
    out.append(b);
    out.append(c);
    out
}

/// `s`, or its beginning with an ellipsis in place of what goes beyond `max`
/// characters.
pub open spec fn ellipsized(s: Seq<char>, max: int) -> Seq<char> {
    if s.len() <= max {
        s
    } else {
        s.take(if max > 0 {
            max - 1
        } else {
            0
        }).push('…')
    }
}

/// Cuts `s` to `max` characters, the last one an ellipsis if anything goes.
pub fn ellipsize(s: &str, max: usize) -> (r: String)
    ensures
        r@ == ellipsized(s@, max as int),
{
    let chars = chars_of(s);
    if chars.len() <= max {
        return s.to_owned();
    }
    let end: usize = if max > 0 {
        max - 1
    } else {
        0
    };
    let mut out = text_of(&chars, 0, end);
    assert(out@ =~= s@.take(end as int));
    out.push('…');
    out
}

/// A cut text has at most `max` characters, and is the text itself exactly
/// when that fits.
pub proof fn ellipsized_fits(s: Seq<char>, max: int)
    requires
        max > 0,
    ensures
        ellipsized(s, max).len() <= max,
        s.len() <= max ==> ellipsized(s, max) == s,
        s.len() > max ==> ellipsized(s, max).len() == max && ellipsized(s, max).last() == '…',
{
}

/// Whether `p` is a prefix of `s`.
pub open spec fn has_prefix(s: Seq<char>, p: Seq<char>) -> bool {
    p.len() <= s.len() && s.take(p.len() as int) == p
}

/// Whether `p` is a suffix of `s`.
pub open spec fn has_suffix(s: Seq<char>, p: Seq<char>) -> bool {
    p.len() <= s.len() && s.skip(s.len() - p.len()) == p
}

/// Whether `needle` stands in `hay` at position `i`.
pub open spec fn occurs_at(hay: Seq<char>, needle: Seq<char>, i: int) -> bool {
    0 <= i && i + needle.len() <= hay.len() && hay.subrange(i, i + needle.len()) == needle
}

/// Whether `needle` stands anywhere in `hay`.
pub open spec fn occurs(hay: Seq<char>, needle: Seq<char>) -> bool {
    exists|i: int| occurs_at(hay, needle, i)
}

pub fn occurs_here(hay: &Vec<char>, needle: &Vec<char>, i: usize) -> (r: bool)
    ensures
        r == occurs_at(hay@, needle@, i as int),
{
    if i > hay.len() || needle.len() > hay.len() - i {
        return false;
    }
    let mut k: usize = 0;
    while k < needle.len()
        invariant
            i + needle@.len() <= hay.len(),
            k <= needle@.len(),
            forall|j: int| 0 <= j < k ==> hay@[i + j] == needle@[j],
        decreases needle@.len() - k,
    {
        if hay[i + k] != needle[k] {
            assert(hay@.subrange(i as int, i + needle@.len())[k as int] != needle@[k as int]);
            return false;
        }
        k = k + 1;
    }
    assert(hay@.subrange(i as int, i + needle@.len()) =~= needle@);
    true
}

/// `r` is the first position at which `needle` stands in `hay`, if any.
pub open spec fn is_first_occurrence(
    hay: Seq<char>,
    needle: Seq<char>,
    r: Option<int>,
) -> bool {
    match r {
        Some(i) => occurs_at(hay, needle, i) && forall|j: int|
            0 <= j < i ==> !occurs_at(hay, needle, j),
        None => !occurs(hay, needle),
    }
}

/// The first position at which `needle` stands in `hay`.
pub fn find_chars(hay: &Vec<char>, needle: &Vec<char>) -> (r: Option<usize>)
    ensures
        is_first_occurrence(
            hay@,
            needle@,
            match r {
                Some(i) => Some(i as int),
                None => None,
            },
        ),
{
    if needle.len() > hay.len() {
        return None;
    }
    let last: usize = hay.len() - needle.len();
    let mut i: usize = 0;
    while i <= last
        invariant
            needle@.len() <= hay@.len(),
            last == hay@.len() - needle@.len(),
            0 <= i <= last + 1,
            forall|j: int| 0 <= j < i ==> !occurs_at(hay@, needle@, j),
        decreases last + 1 - i,
    {
        if occurs_here(hay, needle, i) {
            return Some(i);
        }
        if i == last {
            assert forall|j: int| !occurs_at(hay@, needle@, j) by {}
            return None;
        }
        i = i + 1;
    }
    None
}

/// Whether `needle` stands in `hay`.
pub fn contains(hay: &str, needle: &str) -> (r: bool)
    ensures
        r == occurs(hay@, needle@),
{
    let h = chars_of(hay);
    let n = chars_of(needle);
    find_chars(&h, &n).is_some()
}

/// Whether `s` begins with `p`.
pub fn starts_with(s: &str, p: &str) -> (r: bool)
    ensures
        r == has_prefix(s@, p@),
{
    let a = chars_of(s);
    let b = chars_of(p);
    let r = occurs_here(&a, &b, 0);
    assert(p@.len() <= s@.len() ==> s@.subrange(0, p@.len() as int) =~= s@.take(p@.len() as int));
    r
}

/// Whether `s` ends with `p`.
pub fn ends_with(s: &str, p: &str) -> (r: bool)
    ensures
        r == has_suffix(s@, p@),
{
    let a = chars_of(s);
    let b = chars_of(p);
    if b.len() > a.len() {
        return false;
    }
    let r = occurs_here(&a, &b, a.len() - b.len());
    assert(s@.subrange(s@.len() - p@.len(), s@.len() as int) =~= s@.skip(s@.len() - p@.len()));
    r
}

/// What is left of `s` behind the prefix `p`; `None` when `s` does not begin
/// with it.
pub fn strip_prefix(s: &str, p: &str) -> (r: Option<String>)
    ensures
        match r {
            Some(t) => has_prefix(s@, p@) && t@ == s@.skip(p@.len() as int),
            None => !has_prefix(s@, p@),
        },
{
    if starts_with(s, p) {
        let a = chars_of(s);
        let b = chars_of(p);
        let t = text_of(&a, b.len(), a.len());
        assert(t@ =~= s@.skip(p@.len() as int));
        Some(t)
    } else {
        None
    }
}

// ---------------------------------------------------------------------
// Trimming, lines, words
// ---------------------------------------------------------------------

/// `s` without its leading white space.
pub open spec fn trimmed_start(s: Seq<char>) -> Seq<char>
    decreases s.len(),
{
    if s.len() > 0 && is_space(s[0]) {
        trimmed_start(s.drop_first())
    } else {
        s
    }
}

/// `s` without its trailing white space.
pub open spec fn trimmed_end(s: Seq<char>) -> Seq<char>
    decreases s.len(),
{
    if s.len() > 0 && is_space(s.last()) {
        trimmed_end(s.drop_last())
    } else {
        s
    }
}

/// `s` without leading and trailing white space.
pub open spec fn trimmed(s: Seq<char>) -> Seq<char> {
    trimmed_end(trimmed_start(s))
}

/// The end of the trimmed part of `chars[from..to]`.
fn end_without_space(chars: &Vec<char>, from: usize, to: usize) -> (r: usize)
    requires
        from <= to <= chars@.len(),
    ensures
        from <= r <= to,
        chars@.subrange(from as int, r as int) == trimmed_end(
            chars@.subrange(from as int, to as int),
        ),
{
    let mut end: usize = to;
    while end > from && is_whitespace(chars[end - 1])
        invariant
            from <= end <= to <= chars@.len(),
            trimmed_end(chars@.subrange(from as int, end as int)) == trimmed_end(
                chars@.subrange(from as int, to as int),
            ),
        decreases end,
    {
        assert(chars@.subrange(from as int, end as int).drop_last() =~= chars@.subrange(
            from as int,
            end - 1,
        ));
        end = end - 1;
    }
    end
}

/// `s` without trailing white space.
pub fn trim_end(s: &str) -> (r: String)
    ensures
        r@ == trimmed_end(s@),
{
    let chars = chars_of(s);
    let end = end_without_space(&chars, 0, chars.len());
    assert(s@.subrange(0, s@.len() as int) =~= s@);
    text_of(&chars, 0, end)
}

/// `s` without leading and trailing white space.
pub fn trim(s: &str) -> (r: String)
    ensures
        r@ == trimmed(s@),
{
    let chars = chars_of(s);
    let mut start: usize = 0;
    assert(s@.subrange(0, s@.len() as int) =~= s@);
    while start < chars.len() && is_whitespace(chars[start])
        invariant
            chars@ == s@,
            start <= chars@.len(),
            trimmed_start(s@.subrange(start as int, s@.len() as int)) == trimmed_start(s@),
        decreases chars@.len() - start,
    {
        assert(s@.subrange(start as int, s@.len() as int).drop_first() =~= s@.subrange(
            start + 1,
            s@.len() as int,
        ));
        start = start + 1;
    }
    let end = end_without_space(&chars, start, chars.len());
    text_of(&chars, start, end)
}

/// Trimming leaves nothing to trim at either end.
pub proof fn trimmed_has_bare_ends(s: Seq<char>)
    ensures
        trimmed(s).len() > 0 ==> !is_space(trimmed(s)[0]) && !is_space(trimmed(s).last()),
        trimmed(s).len() <= s.len(),
{
    trimmed_start_is_suffix(s);
    trimmed_end_is_prefix(trimmed_start(s));
}

/// Trimming twice is trimming once.
pub proof fn trimmed_twice(s: Seq<char>)
    ensures
        trimmed(trimmed(s)) == trimmed(s),
{
    trimmed_has_bare_ends(s);
}

proof fn trimmed_start_is_suffix(s: Seq<char>)
    ensures
        trimmed_start(s).len() <= s.len(),
        trimmed_start(s).len() > 0 ==> !is_space(trimmed_start(s)[0]),
    decreases s.len(),
{
    if s.len() > 0 && is_space(s[0]) {
        trimmed_start_is_suffix(s.drop_first());
    }
}

proof fn trimmed_end_is_prefix(s: Seq<char>)
    ensures
        trimmed_end(s).len() <= s.len(),
        trimmed_end(s) == s.take(trimmed_end(s).len() as int),
        trimmed_end(s).len() > 0 ==> !is_space(trimmed_end(s).last()),
    decreases s.len(),
{
    if s.len() > 0 && is_space(s.last()) {
        trimmed_end_is_prefix(s.drop_last());
        assert(s.drop_last().take(trimmed_end(s).len() as int) =~= s.take(
            trimmed_end(s).len() as int,
        ));
    } else {
        assert(s.take(s.len() as int) =~= s);
    }
}

/// The position of the first `c` in `s`, or its length.
pub open spec fn position(s: Seq<char>, c: char) -> int
    decreases s.len(),
{
    if s.len() == 0 || s[0] == c {
        0
    } else {
        1 + position(s.drop_first(), c)
    }
}

pub proof fn position_bounds(s: Seq<char>, c: char)
    ensures
        0 <= position(s, c) <= s.len(),
        position(s, c) < s.len() ==> s[position(s, c)] == c,
        forall|k: int| 0 <= k < position(s, c) ==> s[k] != c,
    decreases s.len(),
{
    if s.len() > 0 && s[0] != c {
        position_bounds(s.drop_first(), c);
        assert forall|k: int| 0 <= k < position(s, c) implies s[k] != c by {
            if k > 0 {
                assert(s.drop_first()[k - 1] == s[k]);
            }
        }
    }
}

/// A position that is the first `c` (or the end) is `position`.
pub proof fn position_unique(s: Seq<char>, c: char, i: int)
    requires
        0 <= i <= s.len(),
        i < s.len() ==> s[i] == c,
        forall|k: int| 0 <= k < i ==> s[k] != c,
    ensures
        position(s, c) == i,
{
    position_bounds(s, c);
    let p = position(s, c);
    if p < i {
        assert(s[p] != c);
    } else if i < p {
        assert(s[i] != c);
    }
}

/// One line without the carriage return that its line feed may carry.
pub open spec fn without_cr(s: Seq<char>) -> Seq<char> {
    if s.len() > 0 && s.last() == '\r' {
        s.drop_last()
    } else {
        s
    }
}

/// The lines of `s`: each ends at a line feed, which is not part of it, nor
/// is a carriage return right before it; a last line without one counts too.
pub open spec fn lines(s: Seq<char>) -> Seq<Seq<char>>
    decreases s.len(),
    via lines_decreases
{
    if s.len() == 0 {
        Seq::empty()
    } else {
        let p = position(s, '\n');
        if p >= s.len() {
            seq![s]
        } else {
            seq![without_cr(s.take(p))] + lines(s.skip(p + 1))
        }
    }
}

#[via_fn]
proof fn lines_decreases(s: Seq<char>) {
    position_bounds(s, '\n');
}

/// The lines of `s`.
pub fn split_lines(s: &str) -> (r: Vec<String>)
    ensures
        r.deep_view() == lines(s@),
{
    let chars = chars_of(s);
    let mut out: Vec<String> = Vec::new();
    let mut start: usize = 0;
    assert(s@.skip(0) =~= s@);
    assert(out.deep_view() + lines(s@) =~= lines(s@));
    while start < chars.len()
        invariant
            chars@ == s@,
            start <= chars@.len(),
            out.deep_view() + lines(s@.skip(start as int)) == lines(s@),
        decreases chars@.len() - start,
    {
        let ghost rest = s@.skip(start as int);
        let mut end: usize = start;
        while end < chars.len() && chars[end] != '\n'
            invariant
                chars@ == s@,
                start <= end <= chars@.len(),
                rest == s@.skip(start as int),
                forall|k: int| 0 <= k < end - start ==> rest[k] != '\n',
            decreases chars@.len() - end,
        {
            assert(rest[end - start] == s@[end as int]);
            end = end + 1;
        }
        let ghost before = out.deep_view();
        proof {
            if end < s@.len() {
                assert(rest[end - start] == s@[end as int]);
            }
            position_unique(rest, '\n', end - start);
            assert(rest.take(end - start) =~= s@.subrange(start as int, end as int));
        }
        if end == chars.len() {
            let line = text_of(&chars, start, end);
            assert(line@ =~= rest);
            out.push(line);
            assert(out.deep_view() =~= before.push(rest));
            assert(before.push(rest) =~= before + seq![rest]);
            start = end;
            assert(lines(s@.skip(start as int)) =~= Seq::empty());
            assert(out.deep_view() + lines(s@.skip(start as int)) =~= out.deep_view());
        } else {
            let stop: usize = if end > start && chars[end - 1] == '\r' {
                end - 1
            } else {
                end
            };
            let line = text_of(&chars, start, stop);
            assert(line@ =~= without_cr(rest.take(end - start)));
            out.push(line);
            assert(out.deep_view() =~= before.push(line@));
            assert(rest.skip(end - start + 1) =~= s@.skip(end + 1));
            start = end + 1;
            assert(out.deep_view() + lines(s@.skip(start as int)) =~= before + (seq![line@] + lines(
                s@.skip(start as int),
            )));
        }
    }
    assert(lines(s@.skip(start as int)) =~= Seq::empty());
    assert(out.deep_view() =~= lines(s@));
    out
}

/// The words of `s`: its maximal runs of characters that are not white space.
pub open spec fn words(s: Seq<char>) -> Seq<Seq<char>>
    decreases s.len(),
{
    let t = trimmed_start(s);
    if t.len() == 0 || t.len() > s.len() {
        Seq::empty()
    } else {
        let n = word_len(t);
        if n <= 0 || n > t.len() {
            Seq::empty()
        } else {
            seq![t.take(n)] + words(t.skip(n))
        }
    }
}

/// How many characters `s` begins with that are not white space.
pub open spec fn word_len(s: Seq<char>) -> int
    decreases s.len(),
{
    if s.len() == 0 || is_space(s[0]) {
        0
    } else {
        1 + word_len(s.drop_first())
    }
}

proof fn word_len_unique(s: Seq<char>, n: int)
    requires
        0 <= n <= s.len(),
        n < s.len() ==> is_space(s[n]),
        forall|k: int| 0 <= k < n ==> !is_space(s[k]),
    ensures
        word_len(s) == n,
    decreases s.len(),
{
    if s.len() > 0 && n > 0 {
        assert(!is_space(s[0]));
        let t = s.drop_first();
        assert forall|k: int| 0 <= k < n - 1 implies !is_space(t[k]) by {
            assert(t[k] == s[k + 1]);
        }
        word_len_unique(t, n - 1);
    }
}

/// The words of `s`, in order.
pub fn split_words(s: &str) -> (r: Vec<String>)
    ensures
        r.deep_view() == words(s@),
{
    let chars = chars_of(s);
    let mut out: Vec<String> = Vec::new();
    let mut at: usize = 0;
    assert(s@.skip(0) =~= s@);
    assert(out.deep_view() + words(s@) =~= words(s@));
    while at < chars.len()
        invariant
            chars@ == s@,
            at <= chars@.len(),
            out.deep_view() + words(s@.skip(at as int)) == words(s@),
        decreases chars@.len() - at,
    {
        let ghost rest = s@.skip(at as int);
        if is_whitespace(chars[at]) {
            assert(rest[0] == s@[at as int]);
            assert(rest.drop_first() =~= s@.skip(at + 1));
            proof {
                words_skip_space(rest);
            }
            at = at + 1;
        } else {
            let start: usize = at;
            assert(trimmed_start(rest) == rest) by {
                assert(rest[0] == s@[at as int]);
            }
            while at < chars.len() && !is_whitespace(chars[at])
                invariant
                    chars@ == s@,
                    start <= at <= chars@.len(),
                    rest == s@.skip(start as int),
                    forall|k: int| 0 <= k < at - start ==> !is_space(rest[k]),
                decreases chars@.len() - at,
            {
                assert(rest[at - start] == s@[at as int]);
                at = at + 1;
            }
            proof {
                if at < s@.len() {
                    assert(rest[at - start] == s@[at as int]);
                }
                word_len_unique(rest, at - start);
                assert(at > start) by {
                    if at == start {
                        assert(is_space(s@[at as int]));
                    }
                }
            }
            let ghost before = out.deep_view();
            let word = text_of(&chars, start, at);
            assert(word@ =~= rest.take(at - start));
            out.push(word);
            assert(out.deep_view() =~= before.push(word@));
            assert(rest.skip(at - start) =~= s@.skip(at as int));
            assert(out.deep_view() + words(s@.skip(at as int)) =~= before + (seq![word@] + words(
                s@.skip(at as int),
            )));
        }
    }
    assert(s@.skip(at as int).len() == 0);
    assert(words(s@.skip(at as int)) =~= Seq::empty());
    assert(out.deep_view() =~= words(s@));
    out
}

proof fn words_skip_space(s: Seq<char>)
    requires
        s.len() > 0,
        is_space(s[0]),
    ensures
        words(s) == words(s.drop_first()),
{
    trimmed_start_is_suffix(s.drop_first());
}

/// No word is empty.
pub proof fn words_are_not_empty(s: Seq<char>)
    ensures
        forall|i: int| 0 <= i < words(s).len() ==> (#[trigger] words(s)[i]).len() > 0,
    decreases s.len(),
{
    let t = trimmed_start(s);
    let n = word_len(t);
    if 0 < t.len() <= s.len() && 0 < n <= t.len() {
        words_are_not_empty(t.skip(n));
        let rest = words(t.skip(n));
        assert forall|i: int| 0 <= i < words(s).len() implies (#[trigger] words(s)[i]).len()
            > 0 by {
            if i > 0 {
                assert(words(s)[i] == rest[i - 1]);
            }
        }
    }
}

/// The parts of `parts` in order, with `sep` between each two.
pub open spec fn joined(parts: Seq<Seq<char>>, sep: Seq<char>) -> Seq<char>
    decreases parts.len(),
{
    if parts.len() == 0 {
        Seq::empty()
    } else if parts.len() == 1 {
        parts[0]
    } else {
        joined(parts.drop_last(), sep) + sep + parts.last()
    }
}

/// The strings of `parts` in order, with `sep` between each two.
pub fn join(parts: &Vec<String>, sep: &str) -> (r: String)
    ensures
        r@ == joined(parts.deep_view(), sep@),
{
    let mut out = String::new();
    let mut i: usize = 0;
    assert(parts.deep_view().take(0).len() == 0);
    while i < parts.len()
        invariant
            i <= parts@.len(),
            out@ == joined(parts.deep_view().take(i as int), sep@),
        decreases parts@.len() - i,
    {
        let ghost all = parts.deep_view();
        if i > 0 {
            out.append(sep);
        }
        out.append(parts[i].as_str());
        assert(all.take(i + 1).drop_last() =~= all.take(i as int));
        assert(all.take(i + 1).last() == parts@[i as int]@);
        i = i + 1;
        assert(i == 1 ==> out@ =~= parts@[0]@);
    }
    assert(parts.deep_view().take(i as int) =~= parts.deep_view());
    out
}

// ---------------------------------------------------------------------
// Order
// ---------------------------------------------------------------------

/// Whether `a` comes before `b`, character by character.
pub open spec fn text_before(a: Seq<char>, b: Seq<char>) -> bool
    decreases a.len(),
{
    if b.len() == 0 {
        false
    } else if a.len() == 0 {
        true
    } else if a[0] != b[0] {
        a[0] < b[0]
    } else {
        text_before(a.drop_first(), b.drop_first())
    }
}

/// No text comes before itself, and what comes before a text comes before all
/// that come after it.
pub proof fn text_order_law(a: Seq<char>, b: Seq<char>, c: Seq<char>)
    ensures
        !text_before(a, a),
        text_before(a, b) && text_before(b, c) ==> text_before(a, c),
        text_before(a, b) || text_before(b, a) || a == b,
    decreases a.len(),
{
    if a.len() > 0 {
        let d = a.drop_first();
        if b.len() > 0 && c.len() > 0 {
            text_order_law(d, b.drop_first(), c.drop_first());
        } else if b.len() > 0 {
            text_order_law(d, b.drop_first(), d);
        } else {
            text_order_law(d, d, d);
        }
        if b.len() > 0 && a[0] == b[0] && d == b.drop_first() {
            assert(a =~= seq![a[0]] + d);
            assert(b =~= seq![a[0]] + d);
        }
    } else if b.len() == 0 {
        assert(a =~= b);
    }
}

/// Whether `a` comes before `b`.
pub fn comes_before(a: &str, b: &str) -> (r: bool)
    ensures
        r == text_before(a@, b@),
{
    let x = chars_of(a);
    let y = chars_of(b);
    let mut i: usize = 0;
    assert(a@.skip(0) =~= a@);
    assert(b@.skip(0) =~= b@);
    while i < x.len() && i < y.len()
        invariant
            x@ == a@,
            y@ == b@,
            i <= x@.len(),
            i <= y@.len(),
            text_before(a@, b@) == text_before(a@.skip(i as int), b@.skip(i as int)),
        decreases x@.len() - i,
    {
        assert(a@.skip(i as int).drop_first() =~= a@.skip(i + 1));
        assert(b@.skip(i as int).drop_first() =~= b@.skip(i + 1));
        if x[i] != y[i] {
            return x[i] < y[i];
        }
        i = i + 1;
    }
    i < y.len()
}

// ---------------------------------------------------------------------
// UTF-8 length
// ---------------------------------------------------------------------

/// How many bytes `s` takes in UTF-8.
pub open spec fn byte_len(s: Seq<char>) -> nat {
    encode_utf8(s).len()
}

/// How many bytes `c` takes in UTF-8.
pub open spec fn byte_width(c: char) -> nat {
    encode_scalar(c as u32).len()
}

/// How many characters of `s`, from the front, fit in `max` bytes.
pub open spec fn fitting(s: Seq<char>, max: int) -> int
    decreases s.len(),
{
    if s.len() == 0 || byte_width(s[0]) > max {
        0
    } else {
        1 + fitting(s.drop_first(), max - byte_width(s[0]))
    }
}

/// The longest prefix of `s` that fits in `max` bytes.
pub open spec fn head(s: Seq<char>, max: int) -> Seq<char> {
    s.take(fitting(s, max))
}

fn width_of(c: char) -> (r: usize)
    ensures
        r == byte_width(c),
        1 <= r <= 4,
{
    let n: u32 = c as u32;
    if n <= 0x7f {
        1
    } else if n <= 0x7ff {
        2
    } else if n <= 0xffff {
        3
    } else {
        4
    }
}

/// The longest prefix fits, and it is all of `s` exactly when `s` fits.
pub proof fn head_law(s: Seq<char>, max: int)
    requires
        max >= 0,
    ensures
        0 <= fitting(s, max) <= s.len(),
        byte_len(head(s, max)) <= max,
        head(s, max) == s <==> byte_len(s) <= max,
        fitting(s, max) < s.len() ==> byte_len(s.take(fitting(s, max) + 1)) > max,
    decreases s.len(),
{
    if s.len() > 0 && byte_width(s[0]) <= max {
        let rest = s.drop_first();
        let left = max - byte_width(s[0]);
        head_law(rest, left);
        let h = head(s, max);
        assert(h.drop_first() =~= head(rest, left));
        if fitting(s, max) < s.len() {
            let t = s.take(fitting(s, max) + 1);
            assert(t.drop_first() =~= rest.take(fitting(rest, left) + 1));
            assert(h.len() < s.len());
        } else {
            assert(h =~= s);
            assert(head(rest, left) =~= rest);
        }
    } else if s.len() > 0 {
        assert(head(s, max).len() == 0);
        assert(s.take(1).drop_first().len() == 0);
        assert(byte_len(s.take(1)) >= byte_width(s[0]));
    } else {
        assert(head(s, max) =~= s);
    }
}

/// How many characters of `chars`, from the front, fit in `max` bytes.
fn count_fitting(chars: &Vec<char>, max: usize) -> (r: usize)
    ensures
        r == fitting(chars@, max as int),
        r <= chars@.len(),
{
    let mut n: usize = 0;
    let mut left: usize = max;
    assert(chars@.skip(0) =~= chars@);
    while n < chars.len()
        invariant
            n <= chars@.len(),
            n + fitting(chars@.skip(n as int), left as int) == fitting(chars@, max as int),
        decreases chars@.len() - n,
    {
        let w = width_of(chars[n]);
        assert(chars@.skip(n as int)[0] == chars@[n as int]);
        assert(chars@.skip(n as int).drop_first() =~= chars@.skip(n + 1));
        if w > left {
            return n;
        }
        left = left - w;
        n = n + 1;
    }
    n
}

/// The longest prefix of `s` that fits in `max` bytes.
pub fn head_bytes(s: &str, max: usize) -> (r: &str)
    ensures
        r@ == head(s@, max as int),
        byte_len(r@) <= max,
{
    let chars = chars_of(s);
    let n = count_fitting(&chars, max);
    proof {
        head_law(s@, max as int);
        assert(s@.subrange(0, n as int) =~= s@.take(n as int));
    }
    s.substring_char(0, n)
}

// ---------------------------------------------------------------------
// Numbers in decimal
// ---------------------------------------------------------------------

/// The decimal digit of `d`, for `d < 10`.
pub open spec fn digit(d: int) -> char {
    (48 + d) as char
}

/// `n` in decimal, without leading zeros.
pub open spec fn decimal(n: nat) -> Seq<char>
    decreases n,
{
    if n < 10 {
        seq![digit(n as int)]
    } else {
        decimal(n / 10).push(digit((n % 10) as int))
    }
}

/// `n` in decimal, with a minus sign before a negative one.
pub open spec fn signed_decimal(n: int) -> Seq<char> {
    if n < 0 {
        seq!['-'] + decimal((-n) as nat)
    } else {
        decimal(n as nat)
    }
}

/// `n` in decimal with zeros put before it up to `width` characters.
pub open spec fn zero_padded(n: nat, width: nat) -> Seq<char> {
    let d = decimal(n);
    if d.len() >= width {
        d
    } else {
        Seq::new((width - d.len()) as nat, |i: int| '0') + d
    }
}

/// Two numbers that are written alike are equal.
pub proof fn decimal_injective(a: nat, b: nat)
    requires
        decimal(a) == decimal(b),
    ensures
        a == b,
    decreases a,
{
    decimal_nonempty(a / 10);
    decimal_nonempty(b / 10);
    let x = (a % 10) as int;
    let y = (b % 10) as int;
    assert(decimal(a).last() == digit(x));
    assert(decimal(b).last() == digit(y));
    assert(digit(x) as int == 48 + x);
    assert(digit(y) as int == 48 + y);
    assert(x == y);
    if a < 10 {
        assert(decimal(a).len() == 1);
        assert(b < 10);
    } else {
        assert(decimal(a).len() > 1);
        assert(b >= 10) by {
            if b < 10 {
                assert(decimal(b).len() == 1);
            }
        }
        assert(decimal(a).drop_last() =~= decimal(a / 10));
        assert(decimal(b).drop_last() =~= decimal(b / 10));
        decimal_injective(a / 10, b / 10);
    }
}

proof fn decimal_nonempty(n: nat)
    ensures
        decimal(n).len() > 0,
    decreases n,
{
    if n >= 10 {
        decimal_nonempty(n / 10);
    }
}

pub fn digit_char(d: u64) -> (r: char)
    requires
        d < 10,
    ensures
        r == digit(d as int),
{
    ((48 + d) as u8) as char
}

/// `n` in decimal.
pub fn u64_text(n: u64) -> (r: String)
    ensures
        r@ == decimal(n as nat),
    decreases n,
{
    if n < 10 {
        let mut out = String::new();
        out.push(digit_char(n));
        assert(out@ =~= decimal(n as nat));
        out
    } else {
        let mut out = u64_text(n / 10);
        out.push(digit_char(n % 10));
        out
    }
}

/// `n` in decimal.
pub fn usize_text(n: usize) -> (r: String)
    ensures
        r@ == decimal(n as nat),
{
    u64_text(n as u64)
}

/// `n` in decimal, signed.
pub fn i64_text(n: i64) -> (r: String)
    ensures
        r@ == signed_decimal(n as int),
{
    if n < 0 {
        let mut out = String::new();
        out.push('-');
        let m: u64 = if n == i64::MIN {
            0x8000_0000_0000_0000
        } else {
            (-n) as u64
        };
        let d = u64_text(m);
        out.append(d.as_str());
        assert(out@ =~= signed_decimal(n as int));
        out
    } else {
        u64_text(n as u64)
    }
}

/// `n` in decimal, zero-padded to `width`.
pub fn padded_text(n: u64, width: usize) -> (r: String)
    ensures
        r@ == zero_padded(n as nat, width as nat),
{
    let d = u64_text(n);
    let len: usize = chars_of(d.as_str()).len();
    if len >= width {
        return d;
    }
    let mut out = String::new();
    let mut i: usize = 0;
    while i < width - len
        invariant
            len < width,
            i <= width - len,
            out@ == Seq::new(i as nat, |k: int| '0'),
        decreases width - len - i,
    {
        out.push('0');
        i = i + 1;
        assert(out@ =~= Seq::new(i as nat, |k: int| '0'));
    }
    out.append(d.as_str());
    out
}

} // verus!
