//! Turning assistant text into something that reads cleanly on a single-line
//! bubble.
use vstd::prelude::*;

use crate::seqs::{filter_map_step, push_to};
use crate::text::{
    ellipsize, ellipsized, has_prefix, is_space, is_whitespace, join, joined, lines,
    position_unique, split_lines, starts_with, trim, trimmed, trimmed_has_bare_ends,
};

verus! {

/// A line as it goes into a bubble: without the white space around it; code
/// fences and empty lines are dropped.
pub open spec fn bubble_line(line: Seq<char>) -> Option<Seq<char>> {
    let t = trimmed(line);
    if has_prefix(t, "```"@) || t.len() == 0 {
        None
    } else {
        Some(t)
    }
}

/// The lines that go into a bubble, with a space between each two.
pub open spec fn bubble_body(raw: Seq<char>) -> Seq<char> {
    joined(lines(raw).filter_map(|l: Seq<char>| bubble_line(l)), " "@)
}

/// `s` without emphasis marks and backticks, and with one space for each run
/// of white space, none at the start; and whether it ended in white space.
pub open spec fn compacted(s: Seq<char>) -> (Seq<char>, bool)
    decreases s.len(),
{
    if s.len() == 0 {
        (Seq::empty(), false)
    } else {
        let (out, spaced) = compacted(s.drop_last());
        let c = s.last();
        if c == '*' || c == '`' {
            (out, spaced)
        } else if is_space(c) {
            if !spaced && out.len() > 0 {
                (out.push(' '), true)
            } else {
                (out, true)
            }
        } else {
            (out.push(c), false)
        }
    }
}

/// The text of a bubble.
pub open spec fn bubble_snippet(raw: Seq<char>, max: int) -> Seq<char> {
    ellipsized(trimmed(compacted(bubble_body(raw)).0), max)
}

fn body_of(raw: &str) -> (r: String)
    ensures
        r@ == bubble_body(raw@),
{
    let all = split_lines(raw);
    let ghost ls = all.deep_view();
    let ghost f = |l: Seq<char>| bubble_line(l);
    let mut kept: Vec<String> = Vec::new();
    let mut i: usize = 0;
    assert(kept.deep_view() =~= ls.take(0).filter_map(f));
    while i < all.len()
        invariant
            i <= all@.len(),
            ls == all.deep_view(),
            f == (|l: Seq<char>| bubble_line(l)),
            kept.deep_view() == ls.take(i as int).filter_map(f),
        decreases all@.len() - i,
    {
        assert(ls[i as int] == all@[i as int]@);
        proof {
            filter_map_step(ls, i as int, f);
        }
        let t = trim(all[i].as_str());
        if !starts_with(t.as_str(), "```") && !t.as_str().is_empty() {
            push_to(&mut kept, t);
        }
        i = i + 1;
    }
    assert(ls.take(i as int) =~= ls);
    join(&kept, " ")
}

fn compact(s: &str) -> (r: String)
    ensures
        r@ == compacted(s@).0,
{
    let mut out = String::new();
    let mut spaced = false;
    let mut any = false;
    for c in it: s.chars()
        invariant
            it.seq() == s@,
            (out@, spaced) == compacted(s@.take(it.index() as int)),
            any == (out@.len() > 0),
    {
        assert(s@.take(it.index() + 1).drop_last() =~= s@.take(it.index() as int));
        assert(s@.take(it.index() + 1).last() == c);
        if c == '*' || c == '`' {
        } else if is_whitespace(c) {
            if !spaced && any {
                out.push(' ');
            }
            spaced = true;
        } else {
            out.push(c);
            any = true;
            spaced = false;
        }
    }
    assert(s@.take(s@.len() as int) =~= s@);
    out
}

/// Strips code fences, collapses white space, drops emphasis marks, and cuts
/// to `max` characters with an ellipsis. Underscores stay: identifiers hold
/// them.
pub fn clean_bubble_text(raw: &str, max: usize) -> (r: String)
    ensures
        r@ == bubble_snippet(raw@, max as int),
{
    let body = body_of(raw);
    let flat = compact(body.as_str());
    let t = trim(flat.as_str());
    ellipsize(t.as_str(), max)
}

/// Whether a text holds no emphasis mark or backtick, and white space only as
/// single spaces.
pub open spec fn is_clean(s: Seq<char>) -> bool {
    forall|i: int|
        0 <= i < s.len() ==> {
            let c = #[trigger] s[i];
            &&& c != '*' && c != '`'
            &&& is_space(c) ==> c == ' ' && i > 0 && s[i - 1] != ' '
        }
}

proof fn compacted_is_clean(s: Seq<char>)
    ensures
        is_clean(compacted(s).0),
        !compacted(s).1 && compacted(s).0.len() > 0 ==> compacted(s).0.last() != ' ',
    decreases s.len(),
{
    if s.len() > 0 {
        compacted_is_clean(s.drop_last());
    }
}

proof fn trimmed_is_clean(s: Seq<char>)
    requires
        is_clean(s),
    ensures
        is_clean(trimmed(s)),
{
    let t = crate::text::trimmed_start(s);
    start_is_clean(s);
    end_is_clean(t);
}

proof fn start_is_clean(s: Seq<char>)
    requires
        is_clean(s),
    ensures
        is_clean(crate::text::trimmed_start(s)),
{
    if s.len() > 0 {
        assert(!is_space(s[0]));
    }
}

proof fn end_is_clean(s: Seq<char>)
    requires
        is_clean(s),
    ensures
        is_clean(crate::text::trimmed_end(s)),
    decreases s.len(),
{
    if s.len() > 0 && is_space(s.last()) {
        end_is_clean(s.drop_last());
    }
}

/// A bubble's text is clean and fits, whatever the agent wrote.
pub proof fn snippet_law(raw: Seq<char>, max: int)
    requires
        max > 0,
    ensures
        is_clean(bubble_snippet(raw, max)),
        bubble_snippet(raw, max).len() <= max,
{
    let flat = compacted(bubble_body(raw)).0;
    compacted_is_clean(bubble_body(raw));
    trimmed_is_clean(flat);
}

proof fn compacted_keeps_clean(s: Seq<char>)
    requires
        is_clean(s),
    ensures
        compacted(s).0 == s,
        s.len() > 0 ==> compacted(s).1 == is_space(s.last()),
    decreases s.len(),
{
    if s.len() > 0 {
        let t = s.drop_last();
        assert forall|i: int| 0 <= i < t.len() implies {
            let c = #[trigger] t[i];
            &&& c != '*' && c != '`'
            &&& is_space(c) ==> c == ' ' && i > 0 && t[i - 1] != ' '
        } by {
            assert(t[i] == s[i]);
            if i > 0 {
                assert(t[i - 1] == s[i - 1]);
            }
        }
        compacted_keeps_clean(t);
        let c = s.last();
        assert(c == s[s.len() - 1]);
        if is_space(c) {
            let d = s[s.len() - 2];
            assert(t.last() == d);
            assert(is_space(d) ==> d == ' ');
        }
        assert(t.push(c) =~= s);
    } else {
        assert(compacted(s).0 =~= s);
    }
}

proof fn clean_text_stays(s: Seq<char>, max: int)
    requires
        is_clean(s),
        s.len() > 0 ==> !is_space(s.last()),
    ensures
        bubble_snippet(s, max) == ellipsized(s, max),
{
    let f = |l: Seq<char>| bubble_line(l);
    if s.len() == 0 {
        assert(lines(s).filter_map(f) =~= Seq::empty());
        assert(bubble_body(s) =~= s);
    } else {
        assert forall|k: int| 0 <= k < s.len() implies s[k] != '\n' by {
            let c = s[k];
            assert(is_space(c) ==> c == ' ');
            assert(is_space('\n'));
        }
        position_unique(s, '\n', s.len() as int);
        let ls = lines(s);
        assert(ls =~= seq![s]);
        assert(!is_space(s[0]));
        assert(trimmed(s) == s);
        reveal_strlit("```");
        if has_prefix(s, "```"@) {
            assert(s.take(3)[0] == s[0]);
            assert("```"@[0] == '`');
        }
        assert(bubble_line(s) == Some(s));
        filter_map_step(ls, 0, f);
        assert(ls.take(1) =~= ls);
        assert(ls.take(0).filter_map(f) =~= Seq::empty());
        assert(ls.filter_map(f) =~= seq![s]);
        assert(bubble_body(s) == s);
    }
    compacted_keeps_clean(s);
    assert(trimmed(s) == s);
}

/// Cleaning a bubble's text twice is cleaning it once.
pub proof fn cleaning_twice(raw: Seq<char>, max: int)
    requires
        max >= 0,
    ensures
        bubble_snippet(bubble_snippet(raw, max), max) == bubble_snippet(raw, max),
{
    let flat = compacted(bubble_body(raw)).0;
    compacted_is_clean(bubble_body(raw));
    trimmed_is_clean(flat);
    trimmed_has_bare_ends(flat);
    let t = trimmed(flat);
    let s = ellipsized(t, max);
    assert(!is_space('…'));
    if t.len() > max {
        let n = if max > 0 {
            max - 1
        } else {
            0
        };
        let cut = t.take(n);
        assert(s == cut.push('…'));
        assert forall|i: int| 0 <= i < s.len() implies {
            let c = #[trigger] s[i];
            &&& c != '*' && c != '`'
            &&& is_space(c) ==> c == ' ' && i > 0 && s[i - 1] != ' '
        } by {
            if i < n {
                assert(s[i] == t[i]);
                if i > 0 {
                    assert(s[i - 1] == t[i - 1]);
                }
            }
        }
    }
    assert(is_clean(s));
    clean_text_stays(s, max);
    if max == 0 && t.len() > 0 {
        assert(ellipsized(s, 0) =~= s);
    }
}

/// A text that is clean already, a single line without marks or runs of
/// white space, shows as it is, cut to what fits.
pub proof fn plain_text_shows_as_it_is(s: Seq<char>, max: int)
    requires
        forall|i: int|
            0 <= i < s.len() ==> s[i] != '*' && s[i] != '`' && (is_space(s[i]) ==> s[i] == ' '),
        forall|i: int| 0 < i < s.len() && #[trigger] s[i] == ' ' ==> s[i - 1] != ' ',
        s.len() > 0 ==> s[0] != ' ' && s.last() != ' ',
        s.len() <= max,
    ensures
        bubble_snippet(s, max) == s,
{
    clean_text_stays(s, max);
}

} // verus!
