//! What a frame shows for a state: the list with its selection and, while
//! a new entry is typed, a dialog over it.
//!
//! [`view`] computes a description of the frame from plain values. Drawing
//! it on a terminal is left to the caller. Rectangles are made by ratatui,
//! which shrinks one that holds more cells than it can count.

use vstd::prelude::*;
use crate::model::{cursor_view, InteractionMode, Model, ModelView};

verus! {

/// A rectangle of terminal cells.
#[derive(Debug, PartialEq, Eq, Clone, Copy)]
pub struct Area {
    pub x: u16,
    pub y: u16,
    pub width: u16,
    pub height: u16,
}

/// The dialog in which a new entry is typed.
#[derive(Debug, PartialEq, Eq)]
pub struct Dialog {
    /// The text typed so far.
    pub text: String,
    pub area: Area,
}

/// The content of one frame.
#[derive(Debug, PartialEq, Eq)]
pub struct Screen {
    /// The text of each entry, in list order.
    pub labels: Vec<String>,
    /// The entry to highlight, if any.
    pub selected: Option<usize>,
    /// Where the list is drawn.
    pub list_area: Area,
    /// The dialog to draw over the list, if any.
    pub dialog: Option<Dialog>,
}

/// The mathematical value of a [`Dialog`].
pub struct DialogView {
    pub text: Seq<char>,
    pub area: Area,
}

/// The mathematical value of a [`Screen`].
pub struct ScreenView {
    pub labels: Seq<Seq<char>>,
    pub selected: Option<int>,
    pub list_area: Area,
    pub dialog: Option<DialogView>,
}

impl View for Dialog {
    type V = DialogView;

    open spec fn view(&self) -> DialogView {
        DialogView { text: self.text@, area: self.area }
    }
}

impl View for Screen {
    type V = ScreenView;

    open spec fn view(&self) -> ScreenView {
        ScreenView {
            labels: Seq::new(self.labels@.len(), |i: int| self.labels@[i]@),
            selected: cursor_view(self.selected),
            list_area: self.list_area,
            dialog: match self.dialog {
                Some(d) => Some(d@),
                None => None,
            },
        }
    }
}

/// The rectangle that ratatui makes when asked for one at `(x, y)` with
/// the given width and height.
pub uninterp spec fn rect(x: u16, y: u16, width: u16, height: u16) -> Area;

/// What is known of a rectangle that ratatui made: it stands where it was
/// asked for, and has the size asked for unless that is more than
/// `u16::MAX` cells.
pub open spec fn placed(area: Area, x: u16, y: u16, width: u16, height: u16) -> bool {
    &&& area.x == x
    &&& area.y == y
    &&& width * height <= u16::MAX ==> area.width == width && area.height == height
}

/// Calls `ratatui::layout::Rect::new` and copies the four fields of what
/// it returns. The contract claims what its source shows: the result is a
/// function of the four arguments, `x` and `y` are kept, and so are the
/// width and the height when their product is at most `u16::MAX`. What
/// the size is cut down to otherwise is not stated.
#[verifier::external_body]
fn rect_new(x: u16, y: u16, width: u16, height: u16) -> (area: Area)
    ensures
        area == rect(x, y, width, height),
        placed(area, x, y, width, height),
{
    let r = ratatui::layout::Rect::new(x, y, width, height);
    Area { x: r.x, y: r.y, width: r.width, height: r.height }
}

/// Where the list stands in a frame of the given size: all of it.
pub open spec fn list_area(width: u16, height: u16) -> Area {
    rect(0, 0, width, height)
}

/// Where the dialog stands in a frame of the given size: the middle third
/// of the width, from a third of the height down, a sixth of the height
/// tall.
pub open spec fn dialog_area(width: u16, height: u16) -> Area {
    rect((width / 3) as u16, (height / 3) as u16, (width / 3) as u16, (height / 6) as u16)
}

/// What a frame of the given size shows for state `s`: every entry's text
/// in list order over the whole frame, the entry under the cursor
/// highlighted, and the pending text in a dialog while a new entry is
/// typed.
pub open spec fn screen_of(s: ModelView, width: u16, height: u16) -> ScreenView {
    ScreenView {
        labels: Seq::new(s.items.len(), |i: int| s.items[i].content),
        selected: s.cursor,
        list_area: list_area(width, height),
        dialog: match s.pending {
            Some(typed) => if s.mode is Input {
                Some(DialogView { text: typed, area: dialog_area(width, height) })
            } else {
                None
            },
            None => None,
        },
    }
}

/// The content of the frame for `model` on a terminal of the given size.
pub fn view(model: &Model, width: u16, height: u16) -> (screen: Screen)
    ensures
        screen@ == screen_of(model@, width, height),
        placed(screen.list_area, 0, 0, width, height),
        screen.dialog matches Some(dialog) ==> placed(
            dialog.area,
            (width / 3) as u16,
            (height / 3) as u16,
            (width / 3) as u16,
            (height / 6) as u16,
        ),
{
    let mut labels: Vec<String> = Vec::new();
    let mut i: usize = 0;
    while i < model.todo_list.len()
        invariant
            i <= model.todo_list.len(),
            labels@.len() == i,
            forall|j: int| 0 <= j < i ==> labels@[j] == model.todo_list@[j].content,
        decreases model.todo_list.len() - i,
    {
        labels.push(model.todo_list[i].content.clone());
        i = i + 1;
    }
    let dialog = match model.interaction_mode {
        InteractionMode::Viewing => None,
        InteractionMode::Input => match &model.entry_text {
            Some(typed) => Some(
                Dialog {
                    text: typed.clone(),
                    area: rect_new(width / 3, height / 3, width / 3, height / 6),
                },
            ),
            None => None,
        },
    };
    let screen = Screen {
        labels,
        selected: model.current_entry,
        list_area: rect_new(0, 0, width, height),
        dialog,
    };
    assert(screen@.labels =~= screen_of(model@, width, height).labels);
    screen
}

} // verus!
