//! What holds of the navigation over several commands.
use vstd::prelude::*;

use crate::app::{Command, Navigation};
use crate::listing::Entry;

verus! {

/// Moving down and then up returns the cursor to where it was; a move down
/// from the last entry reaches the first, and a move up from the first entry
/// reaches the last.
pub proof fn lemma_down_then_up(s: Navigation)
    requires
        s.wf(),
        s.contents.len() > 0,
    ensures
        s.moved_down().moved_up() == s,
        s.moved_down().wf(),
        s.moved_up().wf(),
        s.cursor() == s.contents.len() - 1 ==> s.moved_down().cursor() == 0,
        s.cursor() == 0 ==> s.moved_up().cursor() == s.contents.len() - 1,
        s.cursor() < s.contents.len() - 1 ==> s.moved_down().cursor() == s.cursor() + 1,
{
    let t = s.moved_down();
    assert(t.moved_up().cursors =~= s.cursors);
}

/// Descending and at once going back restores the path and the cursors of
/// every depth, whatever the cursor was, as long as the parent still lists an
/// entry at that cursor; with the same entries the whole state is restored.
pub proof fn lemma_enter_then_exit(s: Navigation, child: Seq<Entry>, parent: Seq<Entry>)
    requires
        s.wf(),
        s.on_dir(),
        s.cursor() < parent.len(),
    ensures
        s.entered(child).exited(parent).path == s.path,
        s.entered(child).exited(parent).cursors == s.cursors,
        s.entered(child).exited(parent).depth == s.depth,
        s.entered(child).exited(s.contents) == s,
{
    let t = s.entered(child);
    assert(t.path.drop_last() =~= s.path);
    assert(t.cursors.drop_last() =~= s.cursors);
    assert(t.exited(parent).cursors =~= s.cursors);
    assert(t.exited(s.contents).cursors =~= s.cursors);
}

/// A directory entered again after going back from it starts at cursor 0,
/// whatever cursor it had before: nothing of a depth left is remembered.
pub proof fn lemma_reentry_starts_at_zero(
    s: Navigation,
    first: Seq<Entry>,
    moved_to: int,
    parent: Seq<Entry>,
    again: Seq<Entry>,
)
    requires
        s.wf(),
        s.on_dir(),
        0 <= moved_to < first.len(),
        s.entered(first).with_cursor(moved_to).exited(parent).on_dir(),
    ensures
        s.entered(first).with_cursor(moved_to).exited(parent).entered(again).cursor() == 0,
        s.entered(first).with_cursor(moved_to).exited(parent).entered(again).cursors.len()
            == s.cursors.len() + 1,
{
}

/// An empty directory has no selection: moves, descending and the preview
/// toggle leave the state as it is.
pub proof fn lemma_empty_directory_ignores_selection_commands(
    s: Navigation,
    command: Command,
    frame_height: int,
)
    requires
        s.wf(),
        s.contents.len() == 0,
        command != Command::Quit,
        command != Command::Back,
    ensures
        s.after(command, frame_height) == s,
        !s.enters(command),
{
}

} // verus!
