//! Keyboard shortcuts of the command palette.
use vstd::prelude::*;

use crate::app::state::{Message, MessageView};
use crate::text::same;

verus! {

/// A key that was pressed.
#[derive(Debug)]
pub enum Key {
    Character(String),
    Escape,
    ArrowUp,
    ArrowDown,
    Other,
}

/// What [`Key`] holds, as mathematical values.
#[verifier::ext_equal]
pub enum KeyView {
    Character(Seq<char>),
    Escape,
    ArrowUp,
    ArrowDown,
    Other,
}

impl DeepView for Key {
    type V = KeyView;

    open spec fn deep_view(&self) -> KeyView {
        match *self {
            Key::Character(c) => KeyView::Character(c@),
            Key::Escape => KeyView::Escape,
            Key::ArrowUp => KeyView::ArrowUp,
            Key::ArrowDown => KeyView::ArrowDown,
            Key::Other => KeyView::Other,
        }
    }
}

/// What a key does: with the command key, `k` opens and closes the palette;
/// escape and the arrows work inside it.
pub open spec fn shortcut(key: KeyView, command: bool) -> Option<MessageView> {
    match key {
        KeyView::Character(c) => if command && c == "k"@ {
            Some(MessageView::PaletteToggle)
        } else {
            None
        },
        KeyView::Escape => Some(MessageView::PaletteClose),
        KeyView::ArrowUp => Some(MessageView::PaletteMove((-1) as i32)),
        KeyView::ArrowDown => Some(MessageView::PaletteMove(1)),
        KeyView::Other => None,
    }
}

/// The message of a key press.
pub fn key_message(key: &Key, command: bool) -> (r: Option<Message>)
    ensures
        r.deep_view() == shortcut(key.deep_view(), command),
{
    match key {
        Key::Character(c) => if command && same(c.as_str(), "k") {
            Some(Message::PaletteToggle)
        } else {
            None
        },
        Key::Escape => Some(Message::PaletteClose),
        Key::ArrowUp => Some(Message::PaletteMove(-1)),
        Key::ArrowDown => Some(Message::PaletteMove(1)),
        Key::Other => None,
    }
}

} // verus!
