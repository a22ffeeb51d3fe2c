//! Proved laws relating the engine's operations.
//!
//! The invariant itself — at least one line, both positions inside the
//! buffer — is stated as an `ensures` of every operation, so for laws about
//! single calls see the operations' own contracts.  The lemmas here relate
//! several calls, or state boundary behaviour that holds of every state.

use crate::model::pos_eq;
use crate::model::CursorModel;
use vstd::prelude::*;

verus! {

/// Pressing home twice returns to the starting column, whenever the cursor
/// is collapsed and its remembered column equals its column — as it does
/// right after any horizontal move, since those refresh the memory.
pub proof fn lemma_home_twice_restores_column(c: CursorModel)
    requires
        c.wf(),
        !c.has_selection(),
        c.extender.memory == c.extender.column,
    ensures
        c.after_home(false).after_home(false).extender.column == c.extender.column,
        c.after_home(false).after_home(false).extender.line == c.extender.line,
{
}

/// Pressing end twice returns to the starting column, under the same
/// conditions as the home law.
pub proof fn lemma_end_twice_restores_column(c: CursorModel)
    requires
        c.wf(),
        !c.has_selection(),
        c.extender.memory == c.extender.column,
    ensures
        c.after_end(false).after_end(false).extender.column == c.extender.column,
        c.after_end(false).after_end(false).extender.line == c.extender.line,
{
}

/// The sticky column comes back: when the column sits below the remembered
/// column (it was clamped by a shorter line) and the line reached by a
/// vertical step is long enough, the step restores the remembered column.
pub proof fn lemma_sticky_column_restored(c: CursorModel, direction: int)
    requires
        c.wf(),
        direction == 1 || direction == -1,
        !c.has_selection(),
        c.extender.column < c.extender.memory,
        c.extender.memory <= c.line_len(c.vertical_target_line(false, direction)),
    ensures
        c.after_vertical(false, direction).extender.line == c.vertical_target_line(
            false,
            direction,
        ),
        c.after_vertical(false, direction).extender.column == c.extender.memory,
{
}

/// The sticky column clamps: when the line reached by a vertical step is
/// shorter than the column, the column becomes that line's length, while
/// the remembered column is left for a later, longer line.
pub proof fn lemma_sticky_column_clamped(c: CursorModel, direction: int)
    requires
        c.wf(),
        direction == 1 || direction == -1,
        !c.has_selection(),
        c.extender.column > c.line_len(c.vertical_target_line(false, direction)),
    ensures
        c.after_vertical(false, direction).extender.line == c.vertical_target_line(
            false,
            direction,
        ),
        c.after_vertical(false, direction).extender.column == c.line_len(
            c.vertical_target_line(false, direction),
        ),
        c.after_vertical(false, direction).extender.memory == c.extender.memory,
{
}

/// Vertical movement never leaves the buffer: a step up from the first
/// line stays on the first line, and a step down from the last line stays
/// on the last.
pub proof fn lemma_vertical_stays_in_buffer(c: CursorModel, select: bool)
    requires
        c.wf(),
    ensures
        c.moving_pos(select).line == 0 ==> c.after_up(select).extender.line == 0,
        c.moving_pos(select).line == c.line_count() - 1 ==> c.after_down(select).extender.line
            == c.line_count() - 1,
{
}

/// Horizontal movement never leaves the document: a left step at the
/// document start stays put, and a right step at the end of the last line
/// stays put.
pub proof fn lemma_horizontal_stays_in_document(c: CursorModel, select: bool)
    requires
        c.wf(),
    ensures
        c.moving_pos(select).line == 0 && c.moving_pos(select).column == 0 ==> {
            &&& c.after_left(select).extender.line == 0
            &&& c.after_left(select).extender.column == 0
        },
        c.moving_pos(select).line == c.line_count() - 1 && c.moving_pos(select).column
            == c.line_len(c.moving_pos(select).line) ==> {
            &&& c.after_right(select).extender.line == c.moving_pos(select).line
            &&& c.after_right(select).extender.column == c.moving_pos(select).column
        },
{
}

/// A move that does not extend the selection leaves none behind: after
/// any non-extending navigation the anchor and the extent coincide.
pub proof fn lemma_plain_move_collapses(c: CursorModel, direction: int)
    requires
        c.wf(),
        direction == 1 || direction == -1,
    ensures
        !c.after_left(false).has_selection(),
        !c.after_right(false).has_selection(),
        !c.after_home(false).has_selection(),
        !c.after_end(false).has_selection(),
        !c.after_vertical(false, direction).has_selection(),
{
}

/// An extending move never moves the anchor: only the extent changes, so
/// the selection grows or shrinks around a fixed end.
pub proof fn lemma_extending_move_keeps_anchor(c: CursorModel, direction: int)
    requires
        c.wf(),
        direction == 1 || direction == -1,
    ensures
        c.after_left(true).current == c.current,
        c.after_right(true).current == c.current,
        c.after_home(true).current == c.current,
        c.after_end(true).current == c.current,
        c.after_vertical(true, direction).current == c.current,
{
}

/// No editing operation leaves a selection active: every mutation ends
/// with the anchor and the extent coinciding.
pub proof fn lemma_edits_collapse_selection(c: CursorModel, character: char)
    requires
        c.wf(),
    ensures
        !c.after_delete().has_selection(),
        !c.after_backspace().has_selection(),
        !c.after_add(character).has_selection(),
        !c.after_new_line().has_selection(),
{
}

/// Deleting a selection that spans several lines removes the lines between
/// its endpoints, merges the kept head of the lower line with the kept
/// tail of the upper line into a single line, and collapses both positions
/// onto the selection's lower bound.
pub proof fn lemma_delete_cross_line_collapses(c: CursorModel)
    requires
        c.wf(),
        c.current.line != c.extender.line,
    ensures
        c.after_delete().line_count() == c.line_count() - (c.upper_sel().line
            - c.lower_sel().line),
        c.after_delete().lines[c.lower_sel().line] == c.lines[c.lower_sel().line].take(
            c.lower_sel().column,
        ) + c.lines[c.upper_sel().line].skip(c.upper_sel().column),
        pos_eq(c.after_delete().current, c.lower_sel()),
        pos_eq(c.after_delete().extender, c.lower_sel()),
        c.after_delete().wf(),
{
    let d = c.after_delete();
    let low = c.lower_sel();
    let high = c.upper_sel();
    let joined = c.lines[low.line].take(low.column) + c.lines[high.line].skip(high.column);
    assert(d.lines == c.lines.subrange(0, low.line) + seq![joined] + c.lines.subrange(
        high.line + 1,
        c.line_count(),
    ));
    assert(d.lines[low.line] == joined);
    assert(d.pos_wf(d.current));
    assert(d.pos_wf(d.extender));
}

/// Inserting a codepoint and deleting it straight back out — one left
/// step, then a forward delete — restores the buffer and the cursor's
/// position.
pub proof fn lemma_insert_delete_roundtrip(c: CursorModel, character: char)
    requires
        c.wf(),
        !c.has_selection(),
    ensures
        c.after_add(character).after_left(false).after_delete().lines == c.lines,
        c.after_add(character).after_left(false).after_delete().current.line == c.current.line,
        c.after_add(character).after_left(false).after_delete().current.column
            == c.current.column,
        pos_eq(
            c.after_add(character).after_left(false).after_delete().extender,
            c.after_add(character).after_left(false).after_delete().current,
        ),
{
    let l = c.current.line;
    let col = c.current.column;
    let inserted_line = c.lines[l].insert(col, character);
    let a = c.after_add(character);
    assert(inserted_line.len() == c.lines[l].len() + 1);
    assert(a.lines == c.lines.update(l, inserted_line));
    assert(a.current.line == l && a.current.column == col + 1);
    let b = a.after_left(false);
    assert(b.current.line == l && b.current.column == col);
    assert(!b.has_selection());
    let d = b.after_delete();
    assert(inserted_line.remove(col) =~= c.lines[l]);
    assert(d.lines =~~= c.lines);
}

} // verus!
