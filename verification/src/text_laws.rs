//! What becomes of texts, said of every text.
use vstd::prelude::*;

use crate::calendar::{iso_text, moment};
use crate::text::{
    decimal, digit, ellipsized, is_space, joined, lines, position_unique, signed_decimal,
    text_before, trimmed, trimmed_end, trimmed_start, word_len, words, zero_padded,
};
use crate::transcript::{markdown, turn, turns};
use crate::ui::chat_view::{ChatMessageView, ChatRole};

verus! {

// ---------------------------------------------------------------------
// Trimming and cutting
// ---------------------------------------------------------------------

proof fn start_goes(s: Seq<char>) -> (n: int)
    ensures
        0 <= n <= s.len(),
        trimmed_start(s) == s.skip(n),
        forall|k: int| 0 <= k < n ==> is_space(s[k]),
        n < s.len() ==> !is_space(s[n]),
    decreases s.len(),
{
    if s.len() > 0 && is_space(s[0]) {
        let t = s.drop_first();
        let n = start_goes(t);
        assert(t.skip(n) =~= s.skip(n + 1));
        assert forall|k: int| 0 <= k < n + 1 implies is_space(s[k]) by {
            if k > 0 {
                assert(t[k - 1] == s[k]);
            }
        }
        if n + 1 < s.len() {
            assert(t[n] == s[n + 1]);
        }
        n + 1
    } else {
        assert(s.skip(0) =~= s);
        0
    }
}

proof fn end_goes(s: Seq<char>) -> (n: int)
    ensures
        0 <= n <= s.len(),
        trimmed_end(s) == s.take(n),
        forall|k: int| n <= k < s.len() ==> is_space(s[k]),
        n > 0 ==> !is_space(s[n - 1]),
    decreases s.len(),
{
    if s.len() > 0 && is_space(s.last()) {
        let t = s.drop_last();
        let n = end_goes(t);
        assert(t.take(n) =~= s.take(n));
        assert forall|k: int| n <= k < s.len() implies is_space(s[k]) by {
            if k < t.len() {
                assert(t[k] == s[k]);
            }
        }
        n
    } else {
        assert(s.take(s.len() as int) =~= s);
        s.len() as int
    }
}

/// Trimming takes the white space from both ends and nothing else.
pub proof fn trimming_takes_only_space(s: Seq<char>)
    ensures
        exists|a: int, b: int|
            {
                &&& 0 <= a <= b <= s.len()
                &&& trimmed(s) == #[trigger] s.subrange(a, b)
                &&& forall|k: int| 0 <= k < a || b <= k < s.len() ==> is_space(#[trigger] s[k])
                &&& a < b ==> !is_space(s[a]) && !is_space(s[b - 1])
            },
{
    let a = start_goes(s);
    let t = trimmed_start(s);
    let n = end_goes(t);
    let b = a + n;
    assert(t.take(n) =~= s.subrange(a, b));
    assert forall|k: int| 0 <= k < a || b <= k < s.len() implies is_space(#[trigger] s[k]) by {
        if k >= b {
            assert(t[k - a] == s[k]);
        }
    }
    if a < b {
        assert(t[0] == s[a]);
        assert(t[n - 1] == s[b - 1]);
    }
}

/// A text that is too long keeps its beginning, with an ellipsis in place of
/// the rest.
pub proof fn cutting_keeps_the_beginning(s: Seq<char>, max: int)
    requires
        max > 0,
    ensures
        s.len() <= max ==> ellipsized(s, max) == s,
        s.len() > max ==> ellipsized(s, max) == s.take(max - 1).push('…'),
{
}

// ---------------------------------------------------------------------
// Numbers
// ---------------------------------------------------------------------

/// The value that decimal digits stand for.
pub open spec fn value_of(digits: Seq<char>) -> int
    decreases digits.len(),
{
    if digits.len() == 0 {
        0
    } else {
        10 * value_of(digits.drop_last()) + (digits.last() as int - '0' as int)
    }
}

/// A number is written in digits that stand for it, without a zero in front.
pub proof fn decimals_stand_for_their_number(n: nat)
    ensures
        value_of(decimal(n)) == n,
        forall|i: int| 0 <= i < decimal(n).len() ==> '0' <= #[trigger] decimal(n)[i] <= '9',
        decimal(n).len() > 0,
        n > 0 ==> decimal(n)[0] != '0',
    decreases n,
{
    if n < 10 {
        let d = seq![digit(n as int)];
        assert(d.drop_last().len() == 0);
        assert(value_of(d.drop_last()) == 0);
        assert(d.last() as int == 48 + n);
    } else {
        decimals_stand_for_their_number(n / 10);
        let before = decimal(n / 10);
        let d = before.push(digit((n % 10) as int));
        assert(d.drop_last() =~= before);
        assert(d.last() as int == 48 + n % 10);
        assert forall|i: int| 0 <= i < d.len() implies '0' <= #[trigger] d[i] <= '9' by {
            if i < before.len() {
                assert(d[i] == before[i]);
            }
        }
        assert(d[0] == before[0]);
    }
}

/// A negative number is written with a minus sign before its digits.
pub proof fn minus_goes_in_front(n: int)
    ensures
        n >= 0 ==> value_of(signed_decimal(n)) == n,
        n < 0 ==> signed_decimal(n)[0] == '-' && value_of(signed_decimal(n).skip(1)) == -n,
{
    if n < 0 {
        decimals_stand_for_their_number((-n) as nat);
        assert(signed_decimal(n).skip(1) =~= decimal((-n) as nat));
    } else {
        decimals_stand_for_their_number(n as nat);
    }
}

/// Padding with zeros keeps the value and reaches the width.
pub proof fn padding_keeps_the_value(n: nat, width: nat)
    ensures
        zero_padded(n, width).len() >= width,
        zero_padded(n, width).len() == width || zero_padded(n, width) == decimal(n),
        value_of(zero_padded(n, width)) == n,
{
    decimals_stand_for_their_number(n);
    let d = decimal(n);
    if d.len() < width {
        zeros_add_nothing((width - d.len()) as nat, d);
    }
}

proof fn zeros_add_nothing(k: nat, d: Seq<char>)
    ensures
        value_of(Seq::new(k, |i: int| '0') + d) == value_of(d),
    decreases d.len() + k,
{
    let zeros = Seq::new(k, |i: int| '0');
    let all = zeros + d;
    if d.len() > 0 {
        assert(all.drop_last() =~= zeros + d.drop_last());
        zeros_add_nothing(k, d.drop_last());
    } else if k > 0 {
        let fewer = Seq::new((k - 1) as nat, |i: int| '0');
        assert(all.drop_last() =~= fewer + d);
        zeros_add_nothing((k - 1) as nat, d);
    }
}

// ---------------------------------------------------------------------
// Words and lines
// ---------------------------------------------------------------------

/// Each line of a text is one of its lines: a text without line feeds is one
/// line, and a line feed starts the next.
pub proof fn line_feeds_part_lines(a: Seq<char>, rest: Seq<char>)
    requires
        forall|i: int| 0 <= i < a.len() ==> a[i] != '\n',
        a.len() > 0 ==> a.last() != '\r',
    ensures
        lines(a + seq!['\n'] + rest) == seq![a] + lines(rest),
        lines((a + seq!['\r']) + seq!['\n'] + rest) == seq![a] + lines(rest),
        a.len() > 0 ==> lines(a) == seq![a],
        lines(Seq::empty()).len() == 0,
{
    let s = a + seq!['\n'] + rest;
    let n = a.len() as int;
    position_unique(s, '\n', n);
    assert(s.take(n) =~= a);
    assert(s.skip(n + 1) =~= rest);
    let b = a + seq!['\r'];
    let t = b + seq!['\n'] + rest;
    position_unique(t, '\n', n + 1);
    assert(t.take(n + 1) =~= b);
    assert(t.skip(n + 2) =~= rest);
    assert(b.drop_last() =~= a);
    if n > 0 {
        position_unique(a, '\n', n);
    }
}

proof fn word_len_bounds(s: Seq<char>)
    ensures
        0 <= word_len(s) <= s.len(),
        forall|k: int| 0 <= k < word_len(s) ==> !is_space(s[k]),
        word_len(s) < s.len() ==> is_space(s[word_len(s)]),
    decreases s.len(),
{
    if s.len() > 0 && !is_space(s[0]) {
        let t = s.drop_first();
        word_len_bounds(t);
        assert forall|k: int| 0 <= k < word_len(s) implies !is_space(s[k]) by {
            if k > 0 {
                assert(t[k - 1] == s[k]);
            }
        }
        if word_len(s) < s.len() {
            assert(t[word_len(t)] == s[word_len(s)]);
        }
    }
}

/// The words of a text hold no white space, and everything that is none: put
/// together they are the text without its white space.
pub proof fn words_hold_all_but_space(s: Seq<char>)
    ensures
        joined(words(s), Seq::empty()) == s.filter(|c: char| !is_space(c)),
        forall|i: int, k: int|
            0 <= i < words(s).len() && 0 <= k < words(s)[i].len() ==> !is_space(
                #[trigger] words(s)[i][k],
            ),
    decreases s.len(),
{
    let f = |c: char| !is_space(c);
    let a = start_goes(s);
    let t = trimmed_start(s);
    word_len_bounds(t);
    let n = word_len(t);
    all_space_goes(s.take(a));
    assert(s =~= s.take(a) + t);
    Seq::filter_distributes_over_add(s.take(a), t, f);
    if t.len() > 0 {
        assert(t[0] == s[a]);
        assert(n > 0);
        let word = t.take(n);
        let rest = t.skip(n);
        words_hold_all_but_space(rest);
        assert(t =~= word + rest);
        Seq::filter_distributes_over_add(word, rest, f);
        all_ink_stays(word);
        assert(words(s) == seq![word] + words(rest));
        joined_front_bare(word, words(rest));
        assert forall|i: int, k: int|
            0 <= i < words(s).len() && 0 <= k < words(s)[i].len() implies !is_space(
            #[trigger] words(s)[i][k],
        ) by {
            if i > 0 {
                assert(words(s)[i] == words(rest)[i - 1]);
            }
        }
        assert(s.filter(f) =~= word + rest.filter(f));
    } else {
        assert(words(s) =~= Seq::empty());
        reveal(Seq::filter);
        assert(t.filter(f) =~= Seq::empty());
        assert(s.filter(f) =~= Seq::empty());
    }
}

proof fn joined_front_bare(x: Seq<char>, rest: Seq<Seq<char>>)
    ensures
        joined(seq![x] + rest, Seq::empty()) == x + joined(rest, Seq::empty()),
    decreases rest.len(),
{
    let all = seq![x] + rest;
    if rest.len() == 0 {
        assert(all =~= seq![x]);
        assert(x + joined(rest, Seq::empty()) =~= x);
    } else {
        joined_front_bare(x, rest.drop_last());
        assert(all.drop_last() =~= seq![x] + rest.drop_last());
        let none = Seq::<char>::empty();
        let r = rest.drop_last();
        assert(joined(all, none) =~= x + joined(r, none) + rest.last());
        if r.len() == 0 {
            assert(joined(r, none) =~= none);
            assert(joined(rest, none) == rest[0]);
        } else {
            assert(joined(rest, none) =~= joined(r, none) + rest.last());
        }
        assert(joined(all, none) =~= x + joined(rest, none));
    }
}

proof fn all_space_goes(s: Seq<char>)
    requires
        forall|k: int| 0 <= k < s.len() ==> is_space(s[k]),
    ensures
        s.filter(|c: char| !is_space(c)) == Seq::<char>::empty(),
    decreases s.len(),
{
    reveal(Seq::filter);
    if s.len() > 0 {
        all_space_goes(s.drop_last());
    } else {
        assert(s =~= Seq::empty());
    }
}

proof fn all_ink_stays(s: Seq<char>)
    requires
        forall|k: int| 0 <= k < s.len() ==> !is_space(s[k]),
    ensures
        s.filter(|c: char| !is_space(c)) == s,
    decreases s.len(),
{
    reveal(Seq::filter);
    if s.len() > 0 {
        all_ink_stays(s.drop_last());
        assert(s.drop_last().push(s.last()) =~= s);
    }
}

/// Of two texts the one comes first that has the smaller character where they
/// first differ, or that ends there.
pub proof fn first_difference_decides(head: Seq<char>, a: char, b: char, x: Seq<char>, y: Seq<char>)
    requires
        a < b,
    ensures
        text_before(head + seq![a] + x, head + seq![b] + y),
        text_before(head, head + seq![b] + y),
        !text_before(head + seq![b] + y, head + seq![a] + x),
        !text_before(head + seq![b] + y, head),
    decreases head.len(),
{
    if head.len() > 0 {
        let t = head.drop_first();
        first_difference_decides(t, a, b, x, y);
        assert((head + seq![a] + x).drop_first() =~= t + seq![a] + x);
        assert((head + seq![b] + y).drop_first() =~= t + seq![b] + y);
    }
}

// ---------------------------------------------------------------------
// Transcripts
// ---------------------------------------------------------------------

/// A transcript grows by a turn at its end: who speaks, when, and the words
/// without the space behind them.
pub proof fn transcripts_grow_by_turns(
    title: Seq<char>,
    messages: Seq<ChatMessageView>,
    m: ChatMessageView,
)
    requires
        messages.len() > 0,
        m.at >= 0,
    ensures
        ({
            let who = match m.role {
                ChatRole::User => "you"@,
                ChatRole::Assistant => "agent"@,
                ChatRole::Other => "system"@,
            };
            let told = "## "@ + who + " — "@ + iso_text(moment(m.at as u64)) + "\n\n"@
                + trimmed_end(m.text);
            &&& turn(m) == told
            &&& markdown(title, messages.push(m)) == markdown(title, messages).drop_last()
                + "\n\n"@ + told + "\n"@
        }),
{
    let all = messages.push(m);
    assert(turns(all).drop_last() =~= turns(messages));
    assert(turns(all).last() == turn(m));
    reveal_strlit("\n");
    let body = crate::transcript::title_line(title) + joined(turns(messages), "\n\n"@);
    assert((body + "\n"@).drop_last() =~= body);
    assert(crate::transcript::title_line(title) + joined(turns(all), "\n\n"@) + "\n"@ =~= body
        + "\n\n"@ + turn(m) + "\n"@);
}

/// A transcript is headed by its title, and starts with its first turn.
pub proof fn transcripts_are_titled(title: Seq<char>, m: ChatMessageView)
    requires
        trimmed(title).len() > 0,
    ensures
        markdown(title, seq![m]) == "# "@ + trimmed(title) + "\n\n"@ + turn(m) + "\n"@,
        markdown(title, Seq::empty()) == "# "@ + trimmed(title) + "\n\n"@
            + "_(empty transcript)_\n"@,
{
    assert(turns(seq![m]) =~= seq![turn(m)]);
}

} // verus!
