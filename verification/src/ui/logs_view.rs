//! The Logs tab: the lines that pass the filters, without escape sequences,
//! and what is said when there are none.
use vstd::prelude::*;

use crate::domain::agent::Tint;
use crate::logs::{is_letter, LogFilters, LogFiltersView, LogLine, LogLineView, LogSeverity};
use crate::ring::Ring;
use crate::seqs::{filter_map_step, no_items, push_to};
use crate::text::{cat, cat3, chars_of, decimal, usize_text};

verus! {

/// One line of the log as it is shown.
#[derive(Debug)]
pub struct LogRow {
    pub tint: Tint,
    pub text: String,
}

/// What [`LogRow`] holds, as mathematical values.
#[verifier::ext_equal]
pub struct LogRowView {
    pub tint: Tint,
    pub text: Seq<char>,
}

impl DeepView for LogRow {
    type V = LogRowView;

    open spec fn deep_view(&self) -> LogRowView {
        LogRowView {
            tint: self.tint.deep_view(),
            text: self.text.deep_view(),
        }
    }
}

/// A filter chip.
#[derive(Debug)]
pub struct Chip {
    pub severity: LogSeverity,
    pub label: &'static str,
    pub active: bool,
}

/// What [`Chip`] holds, as mathematical values.
#[verifier::ext_equal]
pub struct ChipView {
    pub severity: LogSeverity,
    pub label: Seq<char>,
    pub active: bool,
}

impl DeepView for Chip {
    type V = ChipView;

    open spec fn deep_view(&self) -> ChipView {
        ChipView {
            severity: self.severity.deep_view(),
            label: self.label.deep_view(),
            active: self.active.deep_view(),
        }
    }
}

/// What the tab shows.
#[derive(Debug)]
pub struct LogsPage {
    pub chips: Vec<Chip>,
    pub rows: Vec<LogRow>,
    /// What is said in place of the rows when there are none.
    pub notice: Option<String>,
    pub hits: String,
    /// Whether the pill that leads to the latest line shows.
    pub jump_pill: bool,
}

/// The character that starts an escape sequence.
pub const ESCAPE: char = '\u{1b}';

/// What follows an escape sequence whose introducer has been read: all behind
/// the first letter.
pub open spec fn after_sequence(s: Seq<char>) -> Seq<char>
    decreases s.len(),
{
    if s.len() == 0 {
        s
    } else if is_letter(s[0]) {
        s.drop_first()
    } else {
        after_sequence(s.drop_first())
    }
}

proof fn after_sequence_is_suffix(s: Seq<char>)
    ensures
        after_sequence(s).len() <= s.len(),
    decreases s.len(),
{
    if s.len() > 0 && !is_letter(s[0]) {
        after_sequence_is_suffix(s.drop_first());
    }
}

/// `s` without escape sequences: without every escape character and the
/// character behind it, and where that is a bracket without all up to the next
/// letter.
pub open spec fn without_escapes(s: Seq<char>) -> Seq<char>
    decreases s.len(),
    via without_escapes_shrinks
{
    if s.len() == 0 {
        Seq::empty()
    } else if s[0] != ESCAPE {
        seq![s[0]] + without_escapes(s.drop_first())
    } else if s.len() == 1 {
        Seq::empty()
    } else if s[1] == '[' {
        without_escapes(after_sequence(s.skip(2)))
    } else {
        without_escapes(s.skip(2))
    }
}

#[via_fn]
proof fn without_escapes_shrinks(s: Seq<char>) {
    if s.len() > 1 {
        after_sequence_is_suffix(s.skip(2));
    }
}

/// A text without the escape character is left as it is; in every other one
/// no escape character is left, and nothing is added.
pub proof fn escapes_are_gone(s: Seq<char>)
    ensures
        !s.contains(ESCAPE) ==> without_escapes(s) == s,
        !without_escapes(s).contains(ESCAPE),
        without_escapes(s).len() <= s.len(),
    decreases s.len(),
{
    let out = without_escapes(s);
    if s.len() == 0 {
        assert(out =~= s);
    } else if s[0] != ESCAPE {
        let rest = s.drop_first();
        escapes_are_gone(rest);
        if !s.contains(ESCAPE) {
            assert forall|i: int| 0 <= i < rest.len() implies rest[i] != ESCAPE by {
                assert(rest[i] == s[i + 1]);
            }
            assert(!rest.contains(ESCAPE));
            assert(out =~= s);
        }
        assert forall|i: int| 0 <= i < out.len() implies out[i] != ESCAPE by {
            if i > 0 {
                assert(out[i] == without_escapes(rest)[i - 1]);
            }
        }
    } else {
        assert(s.contains(ESCAPE));
        if s.len() > 1 {
            after_sequence_is_suffix(s.skip(2));
            if s[1] == '[' {
                escapes_are_gone(after_sequence(s.skip(2)));
            } else {
                escapes_are_gone(s.skip(2));
            }
        }
    }
}

/// Strips color escape sequences from a log line.
pub fn strip_ansi(raw: &str) -> (r: String)
    ensures
        r@ == without_escapes(raw@),
{
    let chars = chars_of(raw);
    let mut out = String::new();
    let mut i: usize = 0;
    assert(raw@.skip(0) =~= raw@);
    assert(out@ + without_escapes(raw@) =~= without_escapes(raw@));
    while i < chars.len()
        invariant
            chars@ == raw@,
            i <= chars@.len(),
            out@ + without_escapes(raw@.skip(i as int)) == without_escapes(raw@),
        decreases chars@.len() - i,
    {
        let ghost rest = raw@.skip(i as int);
        let c = chars[i];
        assert(rest[0] == c);
        if c != ESCAPE {
            let ghost before = out@;
            out.push(c);
            assert(rest.drop_first() =~= raw@.skip(i + 1));
            assert(out@ + without_escapes(raw@.skip(i + 1)) =~= before + (seq![c]
                + without_escapes(raw@.skip(i + 1))));
            i = i + 1;
        } else if i + 1 == chars.len() {
            assert(without_escapes(rest) =~= Seq::empty());
            i = i + 1;
            assert(raw@.skip(i as int) =~= Seq::empty());
        } else {
            assert(rest.skip(2) =~= raw@.skip(i + 2));
            assert(rest[1] == chars@[i + 1]);
            if chars[i + 1] == '[' {
                i = i + 2;
                let ghost from = i;
                let mut done = false;
                while i < chars.len() && !done
                    invariant
                        chars@ == raw@,
                        from <= i <= chars@.len(),
                        done ==> after_sequence(raw@.skip(from as int)) == raw@.skip(i as int),
                        !done ==> after_sequence(raw@.skip(from as int)) == after_sequence(
                            raw@.skip(i as int),
                        ),
                    decreases chars@.len() - i,
                {
                    let d = chars[i];
                    assert(raw@.skip(i as int)[0] == d);
                    assert(raw@.skip(i as int).drop_first() =~= raw@.skip(i + 1));
                    if ('a' <= d && d <= 'z') || ('A' <= d && d <= 'Z') {
                        done = true;
                    }
                    i = i + 1;
                }
                if !done {
                    assert(raw@.skip(i as int).len() == 0);
                }
            } else {
                i = i + 2;
            }
        }
    }
    assert(raw@.skip(i as int).len() == 0);
    assert(out@ =~= without_escapes(raw@));
    out
}

/// The tint of a severity.
pub open spec fn severity_tint(severity: LogSeverity) -> Tint {
    match severity {
        LogSeverity::Error => Tint::StatusDown,
        LogSeverity::Warn => Tint::StatusDegraded,
        LogSeverity::Info => Tint::Foreground,
        LogSeverity::Debug => Tint::Muted,
    }
}

/// The tint of a severity.
pub fn severity_color(severity: LogSeverity) -> (r: Tint)
    ensures
        r == severity_tint(severity),
{
    match severity {
        LogSeverity::Error => Tint::StatusDown,
        LogSeverity::Warn => Tint::StatusDegraded,
        LogSeverity::Info => Tint::Foreground,
        LogSeverity::Debug => Tint::Muted,
    }
}

/// The row of a line.
pub open spec fn log_row(line: LogLineView) -> LogRowView {
    LogRowView { tint: severity_tint(line.severity), text: without_escapes(line.text) }
}

/// The row of a line that passes the filters.
pub open spec fn shown_row(filters: LogFiltersView, line: LogLineView) -> Option<LogRowView> {
    if filters.accepts(line) {
        Some(log_row(line))
    } else {
        None
    }
}

/// The rows of the lines that pass the filters, in order.
pub open spec fn shown_rows(lines: Seq<LogLineView>, filters: LogFiltersView) -> Seq<LogRowView> {
    lines.filter_map(|line: LogLineView| shown_row(filters, line))
}

/// What is said when `visible` of `total` lines show.
pub open spec fn empty_notice(visible: nat, total: nat) -> Option<Seq<char>> {
    if visible > 0 {
        None
    } else if total == 0 {
        Some("waiting for gateway log lines…"@)
    } else {
        Some(
            "no matches ("@ + decimal(total) + " line"@ + (if total == 1 {
                ""@
            } else {
                "s"@
            }) + " hidden by filters)"@,
        )
    }
}

/// What is said when `visible` of `total` lines show.
pub fn notice_for(visible: usize, total: usize) -> (r: Option<String>)
    ensures
        r.deep_view() == empty_notice(visible as nat, total as nat),
{
    if visible > 0 {
        None
    } else if total == 0 {
        Some("waiting for gateway log lines…".to_owned())
    } else {
        let counted = cat3("no matches (", usize_text(total).as_str(), " line");
        let plural = if total == 1 {
            ""
        } else {
            "s"
        };
        Some(cat3(counted.as_str(), plural, " hidden by filters)"))
    }
}

/// The chips of the filters.
pub open spec fn chips_of(filters: LogFiltersView) -> Seq<ChipView> {
    seq![LogSeverity::Error, LogSeverity::Warn, LogSeverity::Info, LogSeverity::Debug].map_values(
        |s: LogSeverity| ChipView { severity: s, label: s.name(), active: filters.shown(s) },
    )
}

fn severity_chips(filters: &LogFilters) -> (r: Vec<Chip>)
    ensures
        r.deep_view() == chips_of(filters.deep_view()),
{
    let mut r: Vec<Chip> = no_items();
    let all = LogSeverity::all();
    let mut i: usize = 0;
    while i < 4
        invariant
            i <= 4,
            all@ == seq![
                LogSeverity::Error,
                LogSeverity::Warn,
                LogSeverity::Info,
                LogSeverity::Debug,
            ],
            r.deep_view() == chips_of(filters.deep_view()).take(i as int),
        decreases 4 - i,
    {
        let severity = all[i];
        let chip = Chip { severity, label: severity.label(), active: filters.shows(severity) };
        assert(chip.deep_view() == chips_of(filters.deep_view())[i as int]);
        push_to(&mut r, chip);
        i = i + 1;
        assert(r.deep_view() =~= chips_of(filters.deep_view()).take(i as int));
    }
    assert(chips_of(filters.deep_view()).take(4) =~= chips_of(filters.deep_view()));
    r
}

/// What the tab shows of `lines` under `filters`.
pub fn view(lines: &Ring<LogLine>, filters: &LogFilters, auto_tail: bool) -> (r: LogsPage)
    ensures
        ({
            let rows = shown_rows(lines.deep_view(), filters.deep_view());
            &&& r.chips.deep_view() == chips_of(filters.deep_view())
            &&& r.rows.deep_view() == rows
            &&& r.notice.deep_view() == empty_notice(rows.len(), lines.deep_view().len())
            &&& r.hits@ == "showing "@ + decimal(rows.len()) + " of "@ + decimal(
                lines.deep_view().len(),
            )
            &&& r.jump_pill == !auto_tail
        }),
{
    let ghost all = lines.deep_view();
    let ghost fs = filters.deep_view();
    let ghost f = |line: LogLineView| shown_row(fs, line);
    let total = lines.len();
    let mut rows: Vec<LogRow> = no_items();
    assert(all.take(0).filter_map(f) =~= Seq::empty());
    let mut i: usize = 0;
    while i < total
        invariant
            all == lines.deep_view(),
            fs == filters.deep_view(),
            f == (|line: LogLineView| shown_row(fs, line)),
            total == all.len(),
            i <= total,
            rows.deep_view() == all.take(i as int).filter_map(f),
        decreases total - i,
    {
        let line = lines.at(i);
        proof {
            filter_map_step(all, i as int, f);
        }
        if filters.matches(line) {
            push_to(
                &mut rows,
                LogRow { tint: severity_color(line.severity), text: strip_ansi(line.text.as_str()) },
            );
        }
        i = i + 1;
    }
    assert(all.take(i as int) =~= all);
    let visible = rows.len();
    let shown = cat("showing ", usize_text(visible).as_str());
    let hits = cat3(shown.as_str(), " of ", usize_text(total).as_str());
    LogsPage {
        chips: severity_chips(filters),
        rows,
        notice: notice_for(visible, total),
        hits,
        jump_pill: !auto_tail,
    }
}

} // verus!
