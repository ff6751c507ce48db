//! The chat input of the Overview and the Chat tab. While the gateway is
//! disconnected neither the field nor the button takes anything, so that no
//! prompt is lost; a blank input cannot be sent.
use vstd::prelude::*;

use crate::text::{cat3, trim, trimmed};

verus! {

/// What the input shows and takes.
#[derive(Debug)]
pub struct ChatInput {
    pub placeholder: String,
    /// Whether the field takes input.
    pub editable: bool,
    /// Whether the button sends.
    pub can_send: bool,
}

/// What [`ChatInput`] holds, as mathematical values.
#[verifier::ext_equal]
pub struct ChatInputView {
    pub placeholder: Seq<char>,
    pub editable: bool,
    pub can_send: bool,
}

impl DeepView for ChatInput {
    type V = ChatInputView;

    open spec fn deep_view(&self) -> ChatInputView {
        ChatInputView {
            placeholder: self.placeholder.deep_view(),
            editable: self.editable.deep_view(),
            can_send: self.can_send.deep_view(),
        }
    }
}

/// The input for a prompt to `target`.
pub open spec fn input_state(input: Seq<char>, connected: bool, target: Seq<char>) -> ChatInputView {
    ChatInputView {
        placeholder: if connected {
            "Ask "@ + target + " anything…"@
        } else {
            "gateway disconnected"@
        },
        editable: connected,
        can_send: connected && trimmed(input).len() > 0,
    }
}

/// The input for a prompt to the agent that is displayed as `target_display`.
pub fn view(input: &str, connected: bool, target_display: &str) -> (r: ChatInput)
    ensures
        r.deep_view() == input_state(input@, connected, target_display@),
{
    let placeholder = if connected {
        cat3("Ask ", target_display, " anything…")
    } else {
        "gateway disconnected".to_owned()
    };
    let blank = trim(input).as_str().is_empty();
    ChatInput { placeholder, editable: connected, can_send: connected && !blank }
}

} // verus!
