//! The command palette: the rows under the search field. While nothing is
//! typed each group has its heading.
use vstd::prelude::*;

use crate::palette::{ranking, ranking_positions, PaletteEntry, PaletteEntryView, PaletteGroup};
use crate::seqs::{no_items, push_to};
use crate::text::{cat3, decimal, trim, trimmed, usize_text};

verus! {

/// One row of the list.
#[derive(Debug)]
pub enum PaletteRow {
    Heading(PaletteGroup),
    Entry {
        /// Position among the entries of the list, which a click carries.
        index: usize,
        label: String,
        subtitle: Option<String>,
        active: bool,
    },
}

/// What [`PaletteRow`] holds, as mathematical values.
#[verifier::ext_equal]
pub enum PaletteRowView {
    Heading(PaletteGroup),
    Entry { index: usize, label: Seq<char>, subtitle: Option<Seq<char>>, active: bool },
}

impl DeepView for PaletteRow {
    type V = PaletteRowView;

    open spec fn deep_view(&self) -> PaletteRowView {
        match *self {
            PaletteRow::Heading(a0) => PaletteRowView::Heading(a0.deep_view()),
            PaletteRow::Entry { index, label, subtitle, active } => PaletteRowView::Entry {
                index: index.deep_view(),
                label: label.deep_view(),
                subtitle: subtitle.deep_view(),
                active: active.deep_view(),
            },
        }
    }
}

/// What the palette shows.
#[derive(Debug)]
pub struct PalettePage {
    /// Empty where nothing matches.
    pub rows: Vec<PaletteRow>,
    pub footer: String,
}

/// Every ranked position is one of an entry.
pub open spec fn ranked_within(ranked: Seq<(usize, u32)>, count: nat) -> bool {
    forall|i: int| 0 <= i < ranked.len() ==> (#[trigger] ranked[i]).0 < count
}

/// Whether a heading stands before the `i`-th entry: where its group begins.
pub open spec fn heads_group(
    entries: Seq<PaletteEntryView>,
    ranked: Seq<(usize, u32)>,
    i: int,
) -> bool {
    i == 0 || entries[ranked[i - 1].0 as int].group != entries[ranked[i].0 as int].group
}

/// The rows for the first `n` ranked entries.
pub open spec fn palette_rows(
    entries: Seq<PaletteEntryView>,
    ranked: Seq<(usize, u32)>,
    selected: int,
    headings: bool,
    n: int,
) -> Seq<PaletteRowView>
    decreases n,
{
    if n <= 0 {
        Seq::empty()
    } else {
        let before = palette_rows(entries, ranked, selected, headings, n - 1);
        let entry = entries[ranked[n - 1].0 as int];
        let headed = if headings && heads_group(entries, ranked, n - 1) {
            before.push(PaletteRowView::Heading(entry.group))
        } else {
            before
        };
        headed.push(
            PaletteRowView::Entry {
                index: (n - 1) as usize,
                label: entry.label,
                subtitle: entry.subtitle,
                active: n - 1 == selected,
            },
        )
    }
}

fn build_list(
    entries: &Vec<PaletteEntry>,
    ranked: &Vec<(usize, u32)>,
    selected: usize,
    show_group_headers: bool,
) -> (r: Vec<PaletteRow>)
    requires
        ranked_within(ranked@, entries@.len()),
    ensures
        r.deep_view() == palette_rows(
            entries.deep_view(),
            ranked@,
            selected as int,
            show_group_headers,
            ranked@.len() as int,
        ),
{
    let ghost all = entries.deep_view();
    let mut rows: Vec<PaletteRow> = no_items();
    let mut i: usize = 0;
    while i < ranked.len()
        invariant
            all == entries.deep_view(),
            ranked_within(ranked@, entries@.len()),
            i <= ranked@.len(),
            rows.deep_view() == palette_rows(
                all,
                ranked@,
                selected as int,
                show_group_headers,
                i as int,
            ),
        decreases ranked@.len() - i,
    {
        let at = ranked[i].0;
        assert(ranked@[i as int].0 < entries@.len());
        let entry = &entries[at];
        assert(all[at as int] == entry.deep_view());
        if show_group_headers {
            let head = if i == 0 {
                true
            } else {
                let previous = ranked[i - 1].0;
                assert(ranked@[i - 1].0 < entries@.len());
                assert(all[previous as int] == entries@[previous as int].deep_view());
                entries[previous].group != entry.group
            };
            if head {
                push_to(&mut rows, PaletteRow::Heading(entry.group));
            }
        }
        push_to(
            &mut rows,
            PaletteRow::Entry {
                index: i,
                label: entry.label.clone(),
                subtitle: entry.subtitle.clone(),
                active: i == selected,
            },
        );
        i = i + 1;
    }
    rows
}

/// What the palette shows for a query, the catalog, its ranking and the
/// selected row.
pub fn view(
    query: &str,
    entries: &Vec<PaletteEntry>,
    ranked: &Vec<(usize, u32)>,
    selected: usize,
) -> (r: PalettePage)
    requires
        ranked_within(ranked@, entries@.len()),
    ensures
        r.rows.deep_view() == palette_rows(
            entries.deep_view(),
            ranked@,
            selected as int,
            trimmed(query@).len() == 0,
            ranked@.len() as int,
        ),
        r.footer@ == decimal(ranked@.len()) + " of "@ + decimal(entries@.len()),
{
    let blank = trim(query).as_str().is_empty();
    let rows = build_list(entries, ranked, selected, blank);
    let footer = cat3(usize_text(ranked.len()).as_str(), " of ", usize_text(entries.len()).as_str());
    PalettePage { rows, footer }
}

/// Every row of a ranking leads to an entry.
pub proof fn rankings_stay_within(entries: Seq<PaletteEntryView>, query: Seq<char>)
    requires
        entries.len() <= usize::MAX,
    ensures
        ranked_within(ranking(entries, query), entries.len()),
{
    ranking_positions(entries, query);
}

} // verus!
