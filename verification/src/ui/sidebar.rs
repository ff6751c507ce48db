//! The navigation at the left: one row per tab. The Chat row carries a badge
//! while there are unread replies.
use vstd::prelude::*;

use crate::app::state::NavItem;
use crate::seqs::{no_items, push_to};
use crate::text::{decimal, usize_text};

verus! {

/// One row of the navigation.
#[derive(Debug)]
pub struct NavRow {
    pub item: NavItem,
    pub label: &'static str,
    pub active: bool,
    pub badge: Option<String>,
}

/// What [`NavRow`] holds, as mathematical values.
#[verifier::ext_equal]
pub struct NavRowView {
    pub item: NavItem,
    pub label: Seq<char>,
    pub active: bool,
    pub badge: Option<Seq<char>>,
}

impl DeepView for NavRow {
    type V = NavRowView;

    open spec fn deep_view(&self) -> NavRowView {
        NavRowView {
            item: self.item.deep_view(),
            label: self.label.deep_view(),
            active: self.active.deep_view(),
            badge: self.badge.deep_view(),
        }
    }
}

/// The tabs, from the top.
pub open spec fn tabs() -> Seq<NavItem> {
    seq![
        NavItem::Overview,
        NavItem::Chat,
        NavItem::Agents,
        NavItem::Sessions,
        NavItem::Logs,
        NavItem::Settings,
    ]
}

/// The name of a tab.
pub open spec fn tab_name(item: NavItem) -> Seq<char> {
    match item {
        NavItem::Overview => "Overview"@,
        NavItem::Chat => "Chat"@,
        NavItem::Agents => "Agents"@,
        NavItem::Sessions => "Sessions"@,
        NavItem::Logs => "Logs"@,
        NavItem::Settings => "Settings"@,
    }
}

/// The name of a tab.
pub fn nav_label(item: NavItem) -> (r: &'static str)
    ensures
        r@ == tab_name(item),
{
    match item {
        NavItem::Overview => "Overview",
        NavItem::Chat => "Chat",
        NavItem::Agents => "Agents",
        NavItem::Sessions => "Sessions",
        NavItem::Logs => "Logs",
        NavItem::Settings => "Settings",
    }
}

/// An unread count, collapsed to `99+` from a hundred on.
pub open spec fn badge_text(count: nat) -> Seq<char> {
    if count > 99 {
        "99+"@
    } else {
        decimal(count)
    }
}

/// The text of the count pill. Large counts collapse, so that the pill stays
/// narrow.
pub fn unread_badge(count: usize) -> (r: String)
    ensures
        r@ == badge_text(count as nat),
{
    if count > 99 {
        "99+".to_owned()
    } else {
        usize_text(count)
    }
}

/// The row of a tab.
pub open spec fn nav_row(item: NavItem, active: NavItem, unread: nat) -> NavRowView {
    NavRowView {
        item,
        label: tab_name(item),
        active: item == active,
        badge: if item == NavItem::Chat && unread > 0 {
            Some(badge_text(unread))
        } else {
            None
        },
    }
}

fn nav_button(item: NavItem, active: NavItem, unread: usize) -> (r: NavRow)
    ensures
        r.deep_view() == nav_row(item, active, unread as nat),
{
    let badge = if item == NavItem::Chat && unread > 0 {
        Some(unread_badge(unread))
    } else {
        None
    };
    NavRow { item, label: nav_label(item), active: item == active, badge }
}

/// The rows of the navigation.
pub fn view(active: NavItem, unread_chat: usize) -> (r: Vec<NavRow>)
    ensures
        r.deep_view() == tabs().map_values(|item: NavItem| nav_row(item, active, unread_chat as nat)),
{
    let mut r: Vec<NavRow> = no_items();
    push_to(&mut r, nav_button(NavItem::Overview, active, unread_chat));
    push_to(&mut r, nav_button(NavItem::Chat, active, unread_chat));
    push_to(&mut r, nav_button(NavItem::Agents, active, unread_chat));
    push_to(&mut r, nav_button(NavItem::Sessions, active, unread_chat));
    push_to(&mut r, nav_button(NavItem::Logs, active, unread_chat));
    push_to(&mut r, nav_button(NavItem::Settings, active, unread_chat));
    assert(r.deep_view() =~= tabs().map_values(
        |item: NavItem| nav_row(item, active, unread_chat as nat),
    ));
    r
}

/// Every tab has its row, once.
pub proof fn every_tab_has_a_row(item: NavItem)
    ensures
        tabs().contains(item),
        tabs().no_duplicates(),
{
    let t = tabs();
    assert(t[0] == NavItem::Overview && t[1] == NavItem::Chat && t[2] == NavItem::Agents && t[3]
        == NavItem::Sessions && t[4] == NavItem::Logs && t[5] == NavItem::Settings);
}

} // verus!
