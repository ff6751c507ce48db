//! One row of a transcript, in the Chat and the Sessions tab.
use vstd::prelude::*;

use crate::domain::agent::Tint;
use crate::transcript::{role_label, role_word};
use crate::ui::chat_view::{ChatMessage, ChatMessageView, ChatRole};

verus! {

/// One transcript row.
#[derive(Debug)]
pub struct BubbleRow {
    pub label: &'static str,
    pub accent: Tint,
    pub text: String,
    /// The operator's own turns stand at the right.
    pub at_right: bool,
}

/// What [`BubbleRow`] holds, as mathematical values.
#[verifier::ext_equal]
pub struct BubbleRowView {
    pub label: Seq<char>,
    pub accent: Tint,
    pub text: Seq<char>,
    pub at_right: bool,
}

impl DeepView for BubbleRow {
    type V = BubbleRowView;

    open spec fn deep_view(&self) -> BubbleRowView {
        BubbleRowView {
            label: self.label.deep_view(),
            accent: self.accent.deep_view(),
            text: self.text.deep_view(),
            at_right: self.at_right.deep_view(),
        }
    }
}

/// The row of a message.
pub open spec fn bubble_row(m: ChatMessageView) -> BubbleRowView {
    BubbleRowView {
        label: role_word(m.role),
        accent: match m.role {
            ChatRole::User => Tint::Muted,
            ChatRole::Assistant => Tint::TerminalGreen,
            ChatRole::Other => Tint::StatusDegraded,
        },
        text: m.text,
        at_right: m.role == ChatRole::User,
    }
}

/// The row of a message.
pub fn view(msg: &ChatMessage) -> (r: BubbleRow)
    ensures
        r.deep_view() == bubble_row(msg.deep_view()),
{
    let accent = match msg.role {
        ChatRole::User => Tint::Muted,
        ChatRole::Assistant => Tint::TerminalGreen,
        ChatRole::Other => Tint::StatusDegraded,
    };
    BubbleRow {
        label: role_label(msg.role),
        accent,
        text: msg.text.clone(),
        at_right: msg.role == ChatRole::User,
    }
}

} // verus!
