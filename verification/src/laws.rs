//! Laws of the transition function, each proved for every state it
//! speaks of.

use vstd::prelude::*;
use crate::item::ItemView;
use crate::model::{InteractionMode, MessageView, ModelView, RunningState};
use crate::transition::{marked, on_entry, step};

verus! {

/// The state after `msg` has arrived `k` times in a row.
pub open spec fn step_times(s: ModelView, msg: MessageView, k: nat) -> ModelView
    decreases k,
{
    if k == 0 {
        s
    } else {
        step(step_times(s, msg, (k - 1) as nat), msg)
    }
}

/// Where a cursor at `c` stands after `k` steps forward through `len`
/// entries, for `k` up to `len`.
pub open spec fn advanced(c: int, k: int, len: int) -> int {
    if c + k < len {
        c + k
    } else {
        c + k - len
    }
}

/// While viewing with an entry selected, `k` steps forward move the cursor
/// `k` places on, past the end to the start, and change nothing else.
pub proof fn next_item_advances(s: ModelView, k: nat)
    requires
        s.mode is Viewing,
        on_entry(s),
        k <= s.items.len(),
    ensures
        step_times(s, MessageView::NextItem, k) == (ModelView {
            cursor: Some(advanced(s.cursor->0, k as int, s.items.len() as int)),
            ..s
        }),
    decreases k,
{
    if k > 0 {
        next_item_advances(s, (k - 1) as nat);
    }
}

/// Stepping forward as many times as the list has entries brings every
/// state back to itself, cursor included, as long as an entry is selected
/// or a new entry is being typed.
pub proof fn next_item_cycles(s: ModelView)
    requires
        s.items.len() > 0,
        !(s.mode is Viewing && s.cursor is None),
    ensures
        step_times(s, MessageView::NextItem, s.items.len()) == s,
{
    if s.mode is Viewing && on_entry(s) {
        next_item_advances(s, s.items.len());
    } else {
        next_item_is_idle(s, s.items.len());
    }
}

/// Stepping forward does nothing while a new entry is being typed, or
/// with a cursor outside the list.
proof fn next_item_is_idle(s: ModelView, k: nat)
    requires
        s.mode is Input || (s.cursor is Some && !on_entry(s)),
    ensures
        step_times(s, MessageView::NextItem, k) == s,
    decreases k,
{
    if k > 0 {
        next_item_is_idle(s, (k - 1) as nat);
    }
}

/// Marking the selected entry done and then undone changes nothing but
/// that entry's flag, which ends up cleared.
pub proof fn mark_done_then_undone_clears_flag(s: ModelView)
    ensures
        step(step(s, MessageView::MarkDone), MessageView::MarkUndone) == step(
            s,
            MessageView::MarkUndone,
        ),
        s.mode is Viewing ==> step(s, MessageView::MarkUndone) == marked(s, false),
        s.mode is Input ==> step(s, MessageView::MarkUndone) == s,
{
    let twice = step(step(s, MessageView::MarkDone), MessageView::MarkUndone);
    assert(twice.items =~= step(s, MessageView::MarkUndone).items);
}

/// Marking the selected entry done and then undone gives back the state
/// it started from, when that entry was not done before.
pub proof fn mark_done_then_undone_restores(s: ModelView)
    requires
        s.mode is Viewing && on_entry(s) ==> !s.items[s.cursor->0].done,
    ensures
        step(step(s, MessageView::MarkDone), MessageView::MarkUndone) == s,
{
    let twice = step(step(s, MessageView::MarkDone), MessageView::MarkUndone);
    assert(twice.items =~= s.items);
}

/// Deleting the selected entry removes exactly that entry. The cursor is
/// cleared when the entry was the last of the list and keeps its number
/// when it was not; nothing else changes.
pub proof fn delete_item_moves_cursor(s: ModelView)
    requires
        s.mode is Viewing,
        on_entry(s),
    ensures
        step(s, MessageView::DeleteItem).items == s.items.remove(s.cursor->0),
        s.cursor->0 == s.items.len() - 1 ==> step(s, MessageView::DeleteItem).cursor is None,
        s.cursor->0 < s.items.len() - 1 ==> step(s, MessageView::DeleteItem).cursor == s.cursor,
        step(s, MessageView::DeleteItem) == (ModelView {
            items: step(s, MessageView::DeleteItem).items,
            cursor: step(s, MessageView::DeleteItem).cursor,
            ..s
        }),
{
}

/// Starting a new entry and cancelling it ends in viewing mode with no
/// pending text, and with the list and the cursor as they were.
pub proof fn init_add_then_cancel(s: ModelView)
    ensures
        ({
            let back = step(step(s, MessageView::InitAdd), MessageView::CancelAdd);
            &&& back.mode is Viewing
            &&& back.pending is None
            &&& back.items == s.items
            &&& back.cursor == s.cursor
        }),
{
}

/// Starting a new entry while viewing, typing three texts and submitting
/// what was typed appends exactly one entry, not done, whose content is
/// the three texts in a row, and ends in viewing mode with the cursor as
/// it was.
pub proof fn typed_entry_is_appended(s: ModelView, a: Seq<char>, b: Seq<char>, c: Seq<char>)
    requires
        s.mode is Viewing,
    ensures
        ({
            let typing = step(
                step(step(step(s, MessageView::InitAdd), MessageView::AddChar(a)), MessageView::AddChar(b)),
                MessageView::AddChar(c),
            );
            let added = step(typing, MessageView::AddItem(a + b + c));
            &&& typing.mode is Input
            &&& typing.pending == Some(a + b + c)
            &&& added.items == s.items.push(ItemView { content: a + b + c, done: false })
            &&& added.mode is Viewing
            &&& added.pending is None
            &&& added.cursor == s.cursor
        }),
{
    assert((Seq::<char>::empty() + a) =~= a);
}

/// Quitting while viewing stops the loop, clears the cursor and leaves
/// the list as it was.
pub proof fn quit_ends_the_run(s: ModelView)
    requires
        s.mode is Viewing,
    ensures
        step(s, MessageView::Quit) == (ModelView {
            items: s.items,
            running: RunningState::Done,
            cursor: None,
            pending: None,
            mode: InteractionMode::Viewing,
        }),
{
}

/// Once the loop has been stopped, only starting a new entry sets it
/// running again.
pub proof fn done_is_kept(s: ModelView, msg: MessageView)
    requires
        s.running is Done,
        !(s.mode is Viewing && msg is InitAdd),
    ensures
        step(s, msg).running is Done,
{
}

} // verus!
