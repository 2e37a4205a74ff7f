//! The transition function: a state and a message give the next state.
//!
//! [`step`] is the function on mathematical states; [`update`] computes it
//! on a [`Model`]. What a message does depends on the interaction mode
//! first, then on the message. A message that the mode does not accept
//! leaves the state as it is.

use vstd::prelude::*;
use vstd::string::StringExecFns;
use crate::item::{clone_items, items_view, ItemView, TodoItem};
use crate::model::{
    cursor_view, InteractionMode, Message, MessageView, Model, ModelView, RunningState,
};
use crate::text::pop_char;

verus! {

/// The cursor after a step forward through a list of `len` entries: the
/// first entry when nothing was selected, the first again after the last.
/// An empty list, or a cursor outside the list, leaves it unchanged.
pub open spec fn next_cursor(cursor: Option<int>, len: int) -> Option<int> {
    if len <= 0 {
        cursor
    } else {
        match cursor {
            None => Some(0),
            Some(c) => if 0 <= c < len - 1 {
                Some(c + 1)
            } else if c == len - 1 {
                Some(0)
            } else {
                cursor
            },
        }
    }
}

/// The cursor after a step backward through a list of `len` entries: the
/// last entry when nothing was selected, the last again after the first.
/// An empty list leaves it unchanged.
pub open spec fn previous_cursor(cursor: Option<int>, len: int) -> Option<int> {
    if len <= 0 {
        cursor
    } else {
        match cursor {
            None => Some(len - 1),
            Some(c) => if c == 0 {
                Some(len - 1)
            } else {
                Some(c - 1)
            },
        }
    }
}

/// Whether the cursor of `s` points at an entry of its list.
pub open spec fn on_entry(s: ModelView) -> bool {
    s.cursor matches Some(c) && 0 <= c < s.items.len()
}

/// The state with the selected entry's flag set to `done`; unchanged when
/// the cursor points at no entry.
pub open spec fn marked(s: ModelView, done: bool) -> ModelView {
    if on_entry(s) {
        let c = s.cursor->0;
        ModelView {
            items: s.items.update(c, ItemView { content: s.items[c].content, done }),
            ..s
        }
    } else {
        s
    }
}

/// The state with the selected entry removed. The cursor is cleared when
/// that entry was the last of the list, and keeps its number otherwise.
/// Unchanged when the cursor points at no entry.
pub open spec fn deleted(s: ModelView) -> ModelView {
    if on_entry(s) {
        let c = s.cursor->0;
        ModelView {
            items: s.items.remove(c),
            cursor: if c == s.items.len() - 1 {
                None
            } else {
                Some(c)
            },
            ..s
        }
    } else {
        s
    }
}

/// A text without its last character; the empty text stays empty.
pub open spec fn erased(text: Seq<char>) -> Seq<char> {
    if text.len() > 0 {
        text.drop_last()
    } else {
        text
    }
}

/// Whether `msg` may be sent to `s`: text can only be appended to a
/// pending text that exists.
pub open spec fn accepts(s: ModelView, msg: MessageView) -> bool {
    s.mode is Input && msg is AddChar ==> s.pending is Some
}

/// The next state.
pub open spec fn step(s: ModelView, msg: MessageView) -> ModelView {
    match s.mode {
        InteractionMode::Viewing => match msg {
            MessageView::NextItem => ModelView {
                cursor: next_cursor(s.cursor, s.items.len() as int),
                ..s
            },
            MessageView::PreviousItem => ModelView {
                cursor: previous_cursor(s.cursor, s.items.len() as int),
                ..s
            },
            MessageView::MarkDone => marked(s, true),
            MessageView::MarkUndone => marked(s, false),
            MessageView::DeleteItem => deleted(s),
            MessageView::InitAdd => ModelView {
                running: RunningState::Running,
                pending: Some(Seq::<char>::empty()),
                mode: InteractionMode::Input,
                ..s
            },
            MessageView::Quit => ModelView {
                running: RunningState::Done,
                cursor: None,
                pending: None,
                mode: InteractionMode::Viewing,
                ..s
            },
            _ => s,
        },
        InteractionMode::Input => match msg {
            MessageView::CancelAdd => ModelView {
                pending: None,
                mode: InteractionMode::Viewing,
                ..s
            },
            MessageView::AddChar(t) => match s.pending {
                Some(typed) => ModelView { pending: Some(typed + t), ..s },
                None => s,
            },
            MessageView::RemoveChar => match s.pending {
                Some(typed) => ModelView { pending: Some(erased(typed)), ..s },
                None => s,
            },
            MessageView::AddItem(t) => ModelView {
                items: s.items.push(ItemView { content: t, done: false }),
                pending: None,
                mode: InteractionMode::Viewing,
                ..s
            },
            _ => s,
        },
    }
}

/// A step keeps the invariant of a state.
pub proof fn step_preserves_wf(s: ModelView, msg: MessageView)
    requires
        s.wf(),
    ensures
        step(s, msg).wf(),
{
}

/// A copy of `model` with another cursor.
fn with_cursor(model: &Model, cursor: Option<usize>) -> (next: Model)
    ensures
        next@ == (ModelView { cursor: cursor_view(cursor), ..model@ }),
{
    Model::new(
        clone_items(&model.todo_list),
        model.running_state,
        cursor,
        model.entry_text.clone(),
        model.interaction_mode,
    )
}

/// A copy of `model`.
fn unchanged(model: &Model) -> (next: Model)
    ensures
        next@ == model@,
{
    with_cursor(model, model.current_entry)
}

/// A copy of `model` with the flag of the selected entry set to `done`.
fn mark(model: &Model, done: bool) -> (next: Model)
    ensures
        next@ == marked(model@, done),
{
    let mut items = clone_items(&model.todo_list);
    match model.current_entry {
        Some(c) => {
            if c < items.len() {
                let content = items[c].content.clone();
                items.set(c, TodoItem { content, done });
                assert(items_view(items@) =~= marked(model@, done).items);
            }
        },
        None => {},
    }
    Model::new(
        items,
        model.running_state,
        model.current_entry,
        model.entry_text.clone(),
        model.interaction_mode,
    )
}

/// A copy of `model` without the selected entry.
fn delete(model: &Model) -> (next: Model)
    ensures
        next@ == deleted(model@),
{
    let mut items = clone_items(&model.todo_list);
    let mut cursor = model.current_entry;
    match model.current_entry {
        Some(c) => {
            if c < items.len() {
                if c == items.len() - 1 {
                    cursor = None;
                }
                items.remove(c);
                assert(items_view(items@) =~= deleted(model@).items);
            }
        },
        None => {},
    }
    Model::new(
        items,
        model.running_state,
        cursor,
        model.entry_text.clone(),
        model.interaction_mode,
    )
}

/// The state that follows `model` when `msg` arrives. `model` itself is
/// left as it is.
pub fn update(model: &Model, msg: Message) -> (next: Model)
    requires
        accepts(model@, msg@),
    ensures
        next@ == step(model@, msg@),
        model@.wf() ==> next@.wf(),
{
    proof {
        if model@.wf() {
            step_preserves_wf(model@, msg@);
        }
    }
    let len = model.todo_list.len();
    match model.interaction_mode {
        InteractionMode::Viewing => match msg {
            Message::NextItem => {
                let cursor = match model.current_entry {
                    Some(c) => if len == 0 {
                        Some(c)
                    } else if c < len - 1 {
                        Some(c + 1)
                    } else if c == len - 1 {
                        Some(0)
                    } else {
                        Some(c)
                    },
                    None => if len > 0 {
                        Some(0)
                    } else {
                        None
                    },
                };
                with_cursor(model, cursor)
            },
            Message::PreviousItem => {
                let cursor = match model.current_entry {
                    Some(c) => if len == 0 {
                        Some(c)
                    } else if c == 0 {
                        Some(len - 1)
                    } else {
                        Some(c - 1)
                    },
                    None => if len > 0 {
                        Some(len - 1)
                    } else {
                        None
                    },
                };
                with_cursor(model, cursor)
            },
            Message::MarkDone => mark(model, true),
            Message::MarkUndone => mark(model, false),
            Message::DeleteItem => delete(model),
            Message::InitAdd => Model::new(
                clone_items(&model.todo_list),
                RunningState::Running,
                model.current_entry,
                Some(String::new()),
                InteractionMode::Input,
            ),
            Message::Quit => Model::new(
                clone_items(&model.todo_list),
                RunningState::Done,
                None,
                None,
                InteractionMode::Viewing,
            ),
            _ => unchanged(model),
        },
        InteractionMode::Input => match msg {
            Message::CancelAdd => Model::new(
                clone_items(&model.todo_list),
                model.running_state,
                model.current_entry,
                None,
                InteractionMode::Viewing,
            ),
            Message::AddChar(t) => {
                let typed = model.entry_text.clone().unwrap();
                Model::new(
                    clone_items(&model.todo_list),
                    model.running_state,
                    model.current_entry,
                    Some(typed.concat(t.as_str())),
                    InteractionMode::Input,
                )
            },
            Message::RemoveChar => match model.entry_text.clone() {
                Some(mut typed) => {
                    pop_char(&mut typed);
                    Model::new(
                        clone_items(&model.todo_list),
                        model.running_state,
                        model.current_entry,
                        Some(typed),
                        InteractionMode::Input,
                    )
                },
                None => unchanged(model),
            },
            Message::AddItem(t) => {
                let mut items = clone_items(&model.todo_list);
                items.push(TodoItem { content: t, done: false });
                assert(items_view(items@) =~= step(model@, msg@).items);
                Model::new(
                    items,
                    model.running_state,
                    model.current_entry,
                    None,
                    InteractionMode::Viewing,
                )
            },
            _ => unchanged(model),
        },
    }
}

} // verus!
