//! The event source: which message a key press stands for.
//!
//! The mapping depends on the interaction mode. While viewing, the arrow
//! keys walk the list, with `j` and `k` as second bindings, and letters
//! pick a command. While typing, characters go to the pending text.

use vstd::prelude::*;
use crate::model::{InteractionMode, Message, MessageView, Model, ModelView};
use crate::text::push_char;
use crate::transition::{accepts, step, update};

verus! {

/// A key of the keyboard, as far as the application tells keys apart.
#[derive(Debug, PartialEq, Eq, Clone, Copy)]
pub enum KeyCode {
    Up,
    Down,
    Enter,
    Esc,
    Backspace,
    Char(char),
    /// Any other key.
    Other,
}

/// What happened to a key.
#[derive(Debug, PartialEq, Eq, Clone, Copy)]
pub enum KeyEventKind {
    Press,
    Repeat,
    Release,
}

/// A key together with what happened to it.
#[derive(Debug, PartialEq, Eq, Clone, Copy)]
pub struct KeyEvent {
    pub code: KeyCode,
    pub kind: KeyEventKind,
}

/// What the terminal reported.
#[derive(Debug, PartialEq, Eq, Clone, Copy)]
pub enum Event {
    Key(KeyEvent),
    /// Anything that is not a key: focus, mouse, resize.
    Other,
}

/// The value of an optional message.
pub open spec fn message_view(msg: Option<Message>) -> Option<MessageView> {
    match msg {
        Some(m) => Some(m@),
        None => None,
    }
}

/// The message that a key stands for in state `s`, if any.
pub open spec fn key_message(s: ModelView, code: KeyCode) -> Option<MessageView> {
    match s.mode {
        InteractionMode::Viewing => match code {
            KeyCode::Up => Some(MessageView::PreviousItem),
            KeyCode::Down => Some(MessageView::NextItem),
            KeyCode::Char(c) => if c == 'f' {
                Some(MessageView::MarkDone)
            } else if c == 'd' {
                Some(MessageView::DeleteItem)
            } else if c == 'q' {
                Some(MessageView::Quit)
            } else if c == 'u' {
                Some(MessageView::MarkUndone)
            } else if c == 'n' {
                Some(MessageView::InitAdd)
            } else if c == 'k' {
                Some(MessageView::PreviousItem)
            } else if c == 'j' {
                Some(MessageView::NextItem)
            } else {
                None
            },
            _ => None,
        },
        InteractionMode::Input => match code {
            KeyCode::Esc => Some(MessageView::CancelAdd),
            KeyCode::Char(c) => Some(MessageView::AddChar(seq![c])),
            KeyCode::Enter => match s.pending {
                Some(typed) => Some(MessageView::AddItem(typed)),
                None => None,
            },
            KeyCode::Backspace => Some(MessageView::RemoveChar),
            _ => None,
        },
    }
}

/// The message that a report of the terminal stands for in state `s`, if
/// any: only a key that was pressed counts.
pub open spec fn event_message(s: ModelView, event: Option<Event>) -> Option<MessageView> {
    match event {
        Some(Event::Key(key)) => if key.kind is Press {
            key_message(s, key.code)
        } else {
            None
        },
        _ => None,
    }
}

/// Whether `code` may be mapped in state `s`: Enter submits the pending
/// text, which has to exist while typing.
pub open spec fn maps(s: ModelView, code: KeyCode) -> bool {
    s.mode is Input && code is Enter ==> s.pending is Some
}

/// In a state that meets its invariant every key can be mapped, and the
/// message it stands for can be sent to that state.
pub proof fn key_message_is_accepted(s: ModelView, code: KeyCode)
    requires
        s.wf(),
    ensures
        maps(s, code),
        key_message(s, code) matches Some(msg) ==> accepts(s, msg),
{
}

/// The message that `key` stands for in the mode of `model`, if any.
pub fn handle_key(key: KeyEvent, model: &Model) -> (msg: Option<Message>)
    requires
        maps(model@, key.code),
    ensures
        message_view(msg) == key_message(model@, key.code),
{
    match model.interaction_mode {
        InteractionMode::Viewing => match key.code {
            KeyCode::Up => Some(Message::PreviousItem),
            KeyCode::Down => Some(Message::NextItem),
            KeyCode::Char('f') => Some(Message::MarkDone),
            KeyCode::Char('d') => Some(Message::DeleteItem),
            KeyCode::Char('q') => Some(Message::Quit),
            KeyCode::Char('u') => Some(Message::MarkUndone),
            KeyCode::Char('n') => Some(Message::InitAdd),
            KeyCode::Char('k') => Some(Message::PreviousItem),
            KeyCode::Char('j') => Some(Message::NextItem),
            _ => None,
        },
        InteractionMode::Input => match key.code {
            KeyCode::Esc => Some(Message::CancelAdd),
            KeyCode::Char(c) => {
                let mut typed = String::new();
                push_char(&mut typed, c);
                assert(typed@ =~= seq![c]);
                Some(Message::AddChar(typed))
            },
            KeyCode::Enter => Some(Message::AddItem(model.entry_text.clone().unwrap())),
            KeyCode::Backspace => Some(Message::RemoveChar),
            _ => None,
        },
    }
}

/// The message that a report of the terminal stands for, if any. `event`
/// is what a poll of the terminal gave: `None` when nothing arrived in
/// time. Keys that are held or released are ignored.
pub fn handle_event(model: &Model, event: Option<Event>) -> (msg: Option<Message>)
    requires
        event matches Some(Event::Key(key)) ==> key.kind is Press ==> maps(model@, key.code),
    ensures
        message_view(msg) == event_message(model@, event),
{
    match event {
        Some(Event::Key(key)) => match key.kind {
            KeyEventKind::Press => handle_key(key, model),
            _ => None,
        },
        _ => None,
    }
}

/// The state of the driving loop after one round: the state that the
/// message of `event` leads to, or `model` itself where `event` stands for
/// no message.
pub fn advance(model: Model, event: Option<Event>) -> (next: Model)
    requires
        model@.wf(),
    ensures
        next@ == match event_message(model@, event) {
            Some(msg) => step(model@, msg),
            None => model@,
        },
        next@.wf(),
{
    proof {
        if let Some(Event::Key(key)) = event {
            key_message_is_accepted(model@, key.code);
        }
    }
    match handle_event(&model, event) {
        Some(msg) => update(&model, msg),
        None => model,
    }
}

} // verus!
