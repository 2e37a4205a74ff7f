//! One entry of the todo list.

use vstd::prelude::*;

verus! {

/// A todo entry: its text and whether it is done.
#[derive(Debug, PartialEq, Eq)]
pub struct TodoItem {
    pub content: String,
    pub done: bool,
}

/// The mathematical value of a [`TodoItem`].
pub struct ItemView {
    pub content: Seq<char>,
    pub done: bool,
}

impl View for TodoItem {
    type V = ItemView;

    open spec fn view(&self) -> ItemView {
        ItemView { content: self.content@, done: self.done }
    }
}

impl Clone for TodoItem {
    fn clone(&self) -> (copy: Self)
        ensures
            copy == *self,
    {
        TodoItem { content: self.content.clone(), done: self.done }
    }
}

impl Default for TodoItem {
    fn default() -> (item: Self)
        ensures
            item@ == (ItemView { content: Seq::<char>::empty(), done: false }),
    {
        TodoItem { content: String::new(), done: false }
    }
}

/// The values of a list of entries, in order.
pub open spec fn items_view(items: Seq<TodoItem>) -> Seq<ItemView> {
    Seq::new(items.len(), |i: int| items[i]@)
}

/// Copies a list of entries.
pub(crate) fn clone_items(items: &Vec<TodoItem>) -> (copy: Vec<TodoItem>)
    ensures
        copy@ == items@,
{
    let mut copy: Vec<TodoItem> = Vec::new();
    let mut i: usize = 0;
    while i < items.len()
        invariant
            i <= items.len(),
            copy@ == items@.subrange(0, i as int),
        decreases items.len() - i,
    {
        copy.push(items[i].clone());
        i = i + 1;
    }
    copy
}

} // verus!
