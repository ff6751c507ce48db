//! The row of agent cards below the office scene.
use vstd::prelude::*;

use crate::domain::agent::{Agent, AgentView, Tint};
use crate::domain::status::AgentStatus;
use crate::keyed::StrMap;
use crate::scene::office::{agent_status, status_of};
use crate::seqs::{no_items, push_to};
use crate::ui::widgets::{status_label, status_word};

verus! {

/// One card.
#[derive(Debug)]
pub struct AgentCard {
    pub dot: Tint,
    pub display: String,
    pub badge: &'static str,
    pub badge_tint: Tint,
}

/// What [`AgentCard`] holds, as mathematical values.
#[verifier::ext_equal]
pub struct AgentCardView {
    pub dot: Tint,
    pub display: Seq<char>,
    pub badge: Seq<char>,
    pub badge_tint: Tint,
}

impl DeepView for AgentCard {
    type V = AgentCardView;

    open spec fn deep_view(&self) -> AgentCardView {
        AgentCardView {
            dot: self.dot.deep_view(),
            display: self.display.deep_view(),
            badge: self.badge.deep_view(),
            badge_tint: self.badge_tint.deep_view(),
        }
    }
}

/// The card of an agent.
pub open spec fn agent_card(
    agent: AgentView,
    statuses: Seq<(Seq<char>, AgentStatus)>,
) -> AgentCardView {
    let word = status_word(status_of(statuses, agent.id));
    AgentCardView {
        dot: agent.tint(),
        display: agent.display,
        badge: word.0,
        badge_tint: word.1,
    }
}

/// One card per agent of the roster.
pub fn row_view(roster: &Vec<Agent>, statuses: &StrMap<AgentStatus>) -> (r: Vec<AgentCard>)
    ensures
        r.deep_view() == roster.deep_view().map_values(
            |a: AgentView| agent_card(a, statuses.deep_view()),
        ),
{
    let ghost all = roster.deep_view();
    let ghost st = statuses.deep_view();
    let mut r: Vec<AgentCard> = no_items();
    let mut i: usize = 0;
    while i < roster.len()
        invariant
            all == roster.deep_view(),
            st == statuses.deep_view(),
            i <= roster@.len(),
            r.deep_view() == all.take(i as int).map_values(|a: AgentView| agent_card(a, st)),
        decreases roster@.len() - i,
    {
        let agent = &roster[i];
        let (badge, badge_tint) = status_label(agent_status(statuses, &agent.id));
        let card = AgentCard {
            dot: agent.color(),
            display: agent.display.clone(),
            badge,
            badge_tint,
        };
        assert(all[i as int] == agent.deep_view());
        push_to(&mut r, card);
        i = i + 1;
        assert(r.deep_view() =~= all.take(i as int).map_values(|a: AgentView| agent_card(a, st)));
    }
    assert(all.take(i as int) =~= all);
    r
}

} // verus!
