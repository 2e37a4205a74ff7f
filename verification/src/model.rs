//! The application state and the messages that act on it.

use vstd::prelude::*;
use crate::item::{items_view, ItemView, TodoItem};

verus! {

/// Whether the driving loop goes on or has been asked to stop.
#[derive(Debug, Default, PartialEq, Eq, Clone, Copy, Structural)]
pub enum RunningState {
    #[default]
    Running,
    Done,
}

/// What the user is doing: looking at the list, or typing a new entry.
#[derive(Debug, Default, PartialEq, Eq, Clone, Copy, Structural)]
pub enum InteractionMode {
    #[default]
    Viewing,
    Input,
}

/// The whole application state.
#[derive(Debug)]
pub struct Model {
    /// The entries, in the order in which they are shown and walked.
    pub todo_list: Vec<TodoItem>,
    pub running_state: RunningState,
    /// The selected entry, if any.
    pub current_entry: Option<usize>,
    /// The text typed so far for a new entry.
    pub entry_text: Option<String>,
    pub interaction_mode: InteractionMode,
}

/// An intent of the user.
#[derive(Debug, PartialEq, Eq)]
pub enum Message {
    MarkDone,
    MarkUndone,
    DeleteItem,
    NextItem,
    PreviousItem,
    InitAdd,
    CancelAdd,
    AddChar(String),
    RemoveChar,
    AddItem(String),
    Quit,
}

/// The mathematical value of a [`Model`].
pub struct ModelView {
    pub items: Seq<ItemView>,
    pub running: RunningState,
    pub cursor: Option<int>,
    pub pending: Option<Seq<char>>,
    pub mode: InteractionMode,
}

/// The mathematical value of a [`Message`].
pub enum MessageView {
    MarkDone,
    MarkUndone,
    DeleteItem,
    NextItem,
    PreviousItem,
    InitAdd,
    CancelAdd,
    AddChar(Seq<char>),
    RemoveChar,
    AddItem(Seq<char>),
    Quit,
}

/// The value of an optional index.
pub open spec fn cursor_view(cursor: Option<usize>) -> Option<int> {
    match cursor {
        Some(c) => Some(c as int),
        None => None,
    }
}

/// The value of an optional text.
pub open spec fn text_view(text: Option<String>) -> Option<Seq<char>> {
    match text {
        Some(t) => Some(t@),
        None => None,
    }
}

impl View for Model {
    type V = ModelView;

    open spec fn view(&self) -> ModelView {
        ModelView {
            items: items_view(self.todo_list@),
            running: self.running_state,
            cursor: cursor_view(self.current_entry),
            pending: text_view(self.entry_text),
            mode: self.interaction_mode,
        }
    }
}

impl View for Message {
    type V = MessageView;

    open spec fn view(&self) -> MessageView {
        match *self {
            Message::MarkDone => MessageView::MarkDone,
            Message::MarkUndone => MessageView::MarkUndone,
            Message::DeleteItem => MessageView::DeleteItem,
            Message::NextItem => MessageView::NextItem,
            Message::PreviousItem => MessageView::PreviousItem,
            Message::InitAdd => MessageView::InitAdd,
            Message::CancelAdd => MessageView::CancelAdd,
            Message::AddChar(t) => MessageView::AddChar(t@),
            Message::RemoveChar => MessageView::RemoveChar,
            Message::AddItem(t) => MessageView::AddItem(t@),
            Message::Quit => MessageView::Quit,
        }
    }
}

impl ModelView {
    /// The invariant of a state: a cursor points into the list, and a
    /// pending text exists exactly while a new entry is being typed.
    pub open spec fn wf(self) -> bool {
        &&& self.cursor matches Some(c) ==> 0 <= c < self.items.len()
        &&& self.mode is Input <==> self.pending is Some
    }
}

impl Model {
    /// A state made of the five given parts.
    pub fn new(
        todolist: Vec<TodoItem>,
        runningstate: RunningState,
        currententry: Option<usize>,
        entrytext: Option<String>,
        interactionmode: InteractionMode,
    ) -> (model: Model)
        ensures
            model.todo_list == todolist,
            model.running_state == runningstate,
            model.current_entry == currententry,
            model.entry_text == entrytext,
            model.interaction_mode == interactionmode,
    {
        Model {
            todo_list: todolist,
            running_state: runningstate,
            current_entry: currententry,
            entry_text: entrytext,
            interaction_mode: interactionmode,
        }
    }

    /// The state in which the application starts on a stored list: running
    /// and viewing, with nothing selected and nothing typed.
    pub fn initial(todolist: Vec<TodoItem>) -> (model: Model)
        ensures
            model@ == (ModelView {
                items: items_view(todolist@),
                running: RunningState::Running,
                cursor: None,
                pending: None,
                mode: InteractionMode::Viewing,
            }),
            model@.wf(),
    {
        Model::new(todolist, RunningState::Running, None, None, InteractionMode::Viewing)
    }

    /// Whether the state meets its invariant.
    pub fn is_well_formed(&self) -> (ok: bool)
        ensures
            ok == self@.wf(),
    {
        let cursor_ok = match self.current_entry {
            Some(c) => c < self.todo_list.len(),
            None => true,
        };
        let text_ok = match self.interaction_mode {
            InteractionMode::Input => self.entry_text.is_some(),
            InteractionMode::Viewing => self.entry_text.is_none(),
        };
        cursor_ok && text_ok
    }
}

impl Default for Model {
    fn default() -> (model: Self)
        ensures
            model@ == (ModelView {
                items: Seq::<ItemView>::empty(),
                running: RunningState::Running,
                cursor: None,
                pending: None,
                mode: InteractionMode::Viewing,
            }),
            model@.wf(),
    {
        let model = Model {
            todo_list: Vec::new(),
            running_state: RunningState::Running,
            current_entry: None,
            entry_text: None,
            interaction_mode: InteractionMode::Viewing,
        };
        assert(model@.items =~= Seq::<ItemView>::empty());
        model
    }
}

} // verus!
