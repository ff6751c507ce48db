//! The token-usage sparkline of the Sessions tab: cumulative tokens over
//! time, with the context budget as a reference line.
use vstd::prelude::*;

use crate::figures::{chart_count, chart_count_text, percent, percent_of};
use crate::net::rpc::{SessionUsagePoint, SessionUsagePointView};
use crate::text::{cat, cat3, decimal, u64_text};

verus! {

/// What the sparkline is drawn from.
pub struct TokenSparkline<'a> {
    pub points: &'a Vec<SessionUsagePoint>,
    /// Context-window size of the session, when known.
    pub context_budget: Option<i64>,
}

/// A chart: its domain, the reference line, and the label.
#[derive(Debug)]
pub struct Chart {
    pub t_min: i64,
    pub t_max: i64,
    /// Top of the token axis, which starts at 0.
    pub y_max: i64,
    /// Where the reference line runs.
    pub budget: Option<i64>,
    pub label: String,
}

/// What [`Chart`] holds, as mathematical values.
#[verifier::ext_equal]
pub struct ChartView {
    pub t_min: i64,
    pub t_max: i64,
    pub y_max: i64,
    pub budget: Option<i64>,
    pub label: Seq<char>,
}

impl DeepView for Chart {
    type V = ChartView;

    open spec fn deep_view(&self) -> ChartView {
        ChartView {
            t_min: self.t_min.deep_view(),
            t_max: self.t_max.deep_view(),
            y_max: self.y_max.deep_view(),
            budget: self.budget.deep_view(),
            label: self.label.deep_view(),
        }
    }
}

/// What is drawn.
#[derive(Debug)]
pub enum Sparkline {
    Placeholder(&'static str),
    Chart(Chart),
}

/// What [`Sparkline`] holds, as mathematical values.
#[verifier::ext_equal]
pub enum SparklineView {
    Placeholder(Seq<char>),
    Chart(ChartView),
}

impl DeepView for Sparkline {
    type V = SparklineView;

    open spec fn deep_view(&self) -> SparklineView {
        match *self {
            Sparkline::Placeholder(a0) => SparklineView::Placeholder(a0.deep_view()),
            Sparkline::Chart(a0) => SparklineView::Chart(a0.deep_view()),
        }
    }
}

/// The earliest time among the points.
pub open spec fn first_time(points: Seq<SessionUsagePointView>) -> i64
    decreases points.len(),
{
    if points.len() == 0 {
        i64::MAX
    } else {
        let before = first_time(points.drop_last());
        if points.last().timestamp < before {
            points.last().timestamp
        } else {
            before
        }
    }
}

/// The latest time among the points.
pub open spec fn last_time(points: Seq<SessionUsagePointView>) -> i64
    decreases points.len(),
{
    if points.len() == 0 {
        i64::MIN
    } else {
        let before = last_time(points.drop_last());
        if points.last().timestamp > before {
            points.last().timestamp
        } else {
            before
        }
    }
}

/// The most tokens at any point, or `floor` where that is more.
pub open spec fn most_tokens(points: Seq<SessionUsagePointView>, floor: i64) -> i64
    decreases points.len(),
{
    if points.len() == 0 {
        floor
    } else {
        let before = most_tokens(points.drop_last(), floor);
        if points.last().cumulative_tokens > before {
            points.last().cumulative_tokens
        } else {
            before
        }
    }
}

/// The budget, where it is one.
pub open spec fn real_budget(budget: Option<i64>) -> Option<i64> {
    match budget {
        Some(b) => if b > 0 {
            Some(b)
        } else {
            None
        },
        None => None,
    }
}

/// The label: the current count, and where there is a budget its share of it.
pub open spec fn label_text(current: i64, budget: Option<i64>) -> Seq<char> {
    match real_budget(budget) {
        Some(b) => chart_count(current as int) + " / "@ + chart_count(b as int) + " ("@ + decimal(
            percent(current as int, b as int),
        ) + "%)"@,
        None => chart_count(current as int),
    }
}

/// What is drawn for `points`. A line needs two points, some time between
/// them, and something to count.
pub open spec fn plot(points: Seq<SessionUsagePointView>, budget: Option<i64>) -> SparklineView {
    let floor = match budget {
        Some(b) => b,
        None => 0,
    };
    if points.len() < 2 {
        SparklineView::Placeholder("no usage recorded yet"@)
    } else if first_time(points) >= last_time(points) || most_tokens(points, floor) <= 0 {
        SparklineView::Placeholder("usage pending first message"@)
    } else {
        SparklineView::Chart(
            ChartView {
                t_min: first_time(points),
                t_max: last_time(points),
                y_max: most_tokens(points, floor),
                budget: real_budget(budget),
                label: label_text(points.last().cumulative_tokens, budget),
            },
        )
    }
}

/// Compact token count for in-chart labels, never with a zero behind the point.
pub fn fmt_tokens_short(n: i64) -> (r: String)
    ensures
        r@ == chart_count(n as int),
{
    chart_count_text(n)
}

fn chart_label(current: i64, budget: Option<i64>) -> (r: String)
    ensures
        r@ == label_text(current, budget),
{
    if let Some(b) = budget {
        if b > 0 {
            let counts = cat3(
                fmt_tokens_short(current).as_str(),
                " / ",
                fmt_tokens_short(b).as_str(),
            );
            let opened = cat3(
                counts.as_str(),
                " (",
                u64_text(percent_of(current, b)).as_str(),
            );
            return cat(opened.as_str(), "%)");
        }
    }
    fmt_tokens_short(current)
}

impl<'a> TokenSparkline<'a> {
    /// Decides what is drawn: a placeholder, or the chart with its domain. The
    /// budget is part of the domain, so that the reference line never leaves
    /// the frame.
    pub fn draw(&self) -> (r: Sparkline)
        ensures
            r.deep_view() == plot(self.points.deep_view(), self.context_budget),
    {
        let ghost all = self.points.deep_view();
        let n = self.points.len();
        if n < 2 {
            return Sparkline::Placeholder("no usage recorded yet");
        }
        let floor: i64 = match self.context_budget {
            Some(b) => b,
            None => 0,
        };
        let mut t_min: i64 = i64::MAX;
        let mut t_max: i64 = i64::MIN;
        let mut y_max: i64 = floor;
        let mut i: usize = 0;
        while i < n
            invariant
                all == self.points.deep_view(),
                n == self.points@.len(),
                i <= n,
                t_min == first_time(all.take(i as int)),
                t_max == last_time(all.take(i as int)),
                y_max == most_tokens(all.take(i as int), floor),
            decreases n - i,
        {
            let p = &self.points[i];
            assert(all.take(i + 1).last() == p.deep_view());
            assert(all.take(i + 1).drop_last() =~= all.take(i as int));
            if p.timestamp < t_min {
                t_min = p.timestamp;
            }
            if p.timestamp > t_max {
                t_max = p.timestamp;
            }
            if p.cumulative_tokens > y_max {
                y_max = p.cumulative_tokens;
            }
            i = i + 1;
        }
        assert(all.take(i as int) =~= all);
        if t_min >= t_max || y_max <= 0 {
            return Sparkline::Placeholder("usage pending first message");
        }
        let budget = match self.context_budget {
            Some(b) => if b > 0 {
                Some(b)
            } else {
                None
            },
            None => None,
        };
        let current = self.points[n - 1].cumulative_tokens;
        assert(all.last() == self.points@[n - 1].deep_view());
        Sparkline::Chart(
            Chart { t_min, t_max, y_max, budget, label: chart_label(current, self.context_budget) },
        )
    }
}

proof fn bounds_hold(points: Seq<SessionUsagePointView>, floor: i64, i: int)
    requires
        0 <= i < points.len(),
    ensures
        first_time(points) <= points[i].timestamp <= last_time(points),
        points[i].cumulative_tokens <= most_tokens(points, floor),
        floor <= most_tokens(points, floor),
    decreases points.len(),
{
    if points.len() > 1 {
        if i == points.len() - 1 {
            bounds_hold(points.drop_last(), floor, 0);
        } else {
            bounds_hold(points.drop_last(), floor, i);
        }
    } else {
        assert(most_tokens(points.drop_last(), floor) == floor);
        assert(first_time(points.drop_last()) == i64::MAX);
        assert(last_time(points.drop_last()) == i64::MIN);
    }
}

/// Every point of a chart lies within its domain, and so does the budget; the
/// domain has an extent in both directions.
pub proof fn chart_holds_every_point(
    points: Seq<SessionUsagePointView>,
    budget: Option<i64>,
    i: int,
)
    requires
        0 <= i < points.len(),
        plot(points, budget) is Chart,
    ensures
        plot(points, budget) matches SparklineView::Chart(c) ==> {
            &&& c.t_min < c.t_max
            &&& 0 < c.y_max
            &&& c.t_min <= points[i].timestamp <= c.t_max
            &&& points[i].cumulative_tokens <= c.y_max
            &&& (c.budget matches Some(b) ==> 0 < b <= c.y_max)
        },
{
    let floor = match budget {
        Some(b) => b,
        None => 0,
    };
    bounds_hold(points, floor, i);
}

} // verus!
