//! The cursor: buffer, anchor and extent, with navigation operations.

use crate::model::CursorModel;
use crate::position::CursorPosition;
use vstd::prelude::*;

verus! {

/// A single-selection cursor over a line-oriented buffer.
///
/// `current` is the anchor: the selection endpoint that stays put while a
/// selection is extended.  `extender` is the extent: the endpoint that moves
/// under navigation.  When the two coincide there is no selection.  Each
/// line of `lines` is a sequence of codepoints, so all columns count
/// codepoints, never bytes.
#[derive(Debug)]
pub struct Cursor {
    pub current: CursorPosition,
    pub extender: CursorPosition,
    pub lines: Vec<Vec<char>>,
}

impl View for Cursor {
    type V = CursorModel;

    open spec fn view(&self) -> CursorModel {
        CursorModel {
            current: self.current@,
            extender: self.extender@,
            lines: self.lines.deep_view(),
        }
    }
}

impl Cursor {
    /// Builds a cursor over the given lines, both positions at the origin.
    /// An empty sequence of lines stands for one empty line, so that the
    /// buffer is never without a line.
    pub fn new(lines: Vec<Vec<char>>) -> (cursor: Cursor)
        ensures
            cursor@ == CursorModel::init(lines.deep_view()),
            cursor@.wf(),
    {
        let mut lines = lines;
        if lines.is_empty() {
            lines.push(Vec::new());
            proof {
                assert(lines.deep_view() =~~= seq![Seq::<char>::empty()]);
            }
        }
        Cursor {
            current: CursorPosition { line: 0, column: 0, column_offset: 0 },
            extender: CursorPosition { line: 0, column: 0, column_offset: 0 },
            lines: lines,
        }
    }

    /// True when a movement that just wrote the extent must drag the anchor
    /// along: the move was not extending, and the two positions differ.
    fn cursors_need_sync(&self, select: bool) -> (r: bool)
        ensures
            r == (!select && self@.has_selection()),
    {
        !select && self.current != self.extender
    }

    /// The endpoint the next movement operates on (see
    /// [`CursorModel::moving_pos`]).
    fn get_moving_cursor(&self, select: bool) -> (p: CursorPosition)
        ensures
            p@ == self@.moving_pos(select),
    {
        if !select || self.current != self.extender {
            self.extender
        } else {
            self.current
        }
    }

    /// One step left: previous column, or the end of the previous line, or
    /// nothing at the document start.  Refreshes the remembered column.
    pub fn left(&mut self, select: bool)
        requires
            old(self)@.wf(),
        ensures
            final(self)@ == old(self)@.after_left(select),
            final(self)@.wf(),
    {
        let moving_cursor = self.get_moving_cursor(select);
        let (new_line, new_column): (usize, usize) = if moving_cursor.column == 0 {
            if moving_cursor.line != 0 {
                let previous_line: usize = moving_cursor.line - 1;
                (previous_line, self.lines[previous_line].len())
            } else {
                (moving_cursor.line, moving_cursor.column)
            }
        } else {
            (moving_cursor.line, moving_cursor.column - 1)
        };
        self.extender.line = new_line;
        self.extender.column = new_column;
        self.extender.column_offset = new_column;
        if self.cursors_need_sync(select) {
            self.current.line = new_line;
            self.current.column = new_column;
            self.current.column_offset = new_column;
        }
    }

    /// One step right: next column, or the start of the next line, or
    /// nothing at the end of the last line.  Refreshes the remembered
    /// column.
    pub fn right(&mut self, select: bool)
        requires
            old(self)@.wf(),
        ensures
            final(self)@ == old(self)@.after_right(select),
            final(self)@.wf(),
    {
        let moving_cursor = self.get_moving_cursor(select);
        let current_line_max_column: usize = self.lines[moving_cursor.line].len();
        let has_next_line: bool = moving_cursor.line < self.lines.len() - 1;
        let (new_line, new_column): (usize, usize) = if moving_cursor.column
            == current_line_max_column && has_next_line {
            (moving_cursor.line + 1, 0)
        } else if moving_cursor.column < current_line_max_column {
            (moving_cursor.line, moving_cursor.column + 1)
        } else {
            (moving_cursor.line, moving_cursor.column)
        };
        self.extender.line = new_line;
        self.extender.column = new_column;
        self.extender.column_offset = new_column;
        if self.cursors_need_sync(select) {
            self.current.line = new_line;
            self.current.column = new_column;
            self.current.column_offset = new_column;
        }
    }

    /// The home toggle: to column zero, or from column zero back to the
    /// remembered column where it still fits the line.  The remembered
    /// column itself is not modified.
    pub fn home(&mut self, select: bool)
        requires
            old(self)@.wf(),
        ensures
            final(self)@ == old(self)@.after_home(select),
            final(self)@.wf(),
    {
        let moving_cursor = self.get_moving_cursor(select);
        let move_to: usize = if moving_cursor.column == 0 && self.lines[moving_cursor.line].len()
            >= moving_cursor.column_offset {
            moving_cursor.column_offset
        } else {
            0
        };
        self.extender.column = move_to;
        if self.cursors_need_sync(select) {
            self.current.line = self.extender.line;
            self.current.column = move_to;
        }
    }

    /// The end toggle: to the line's end, or from the end back to the
    /// remembered column where it fits.  The remembered column itself is
    /// not modified.
    pub fn end(&mut self, select: bool)
        requires
            old(self)@.wf(),
        ensures
            final(self)@ == old(self)@.after_end(select),
            final(self)@.wf(),
    {
        let moving_cursor = self.get_moving_cursor(select);
        let current_line_max_column: usize = self.lines[moving_cursor.line].len();
        let move_to: usize = if moving_cursor.column == current_line_max_column
            && current_line_max_column >= moving_cursor.column_offset {
            moving_cursor.column_offset
        } else {
            current_line_max_column
        };
        self.extender.column = move_to;
        if self.cursors_need_sync(select) {
            self.current.line = self.extender.line;
            self.current.column = move_to;
        }
    }

    /// One line up, with the sticky-column rule.
    pub fn up(&mut self, select: bool)
        requires
            old(self)@.wf(),
        ensures
            final(self)@ == old(self)@.after_up(select),
            final(self)@.wf(),
    {
        self.vertical(-1, select);
    }

    /// One line down, with the sticky-column rule.
    pub fn down(&mut self, select: bool)
        requires
            old(self)@.wf(),
        ensures
            final(self)@ == old(self)@.after_down(select),
            final(self)@.wf(),
    {
        self.vertical(1, select);
    }

    /// One vertical step: the line step, then the column step against the
    /// new line.
    fn vertical(&mut self, direction: isize, select: bool)
        requires
            old(self)@.wf(),
            direction == 1isize || direction == -1isize,
        ensures
            final(self)@ == old(self)@.after_vertical(select, direction as int),
            final(self)@.wf(),
    {
        self.vertical_movement_line(direction, select);
        self.vertical_movement_column(select);
    }

    /// The line component of a vertical step, clamped to the buffer; only
    /// line fields are written, so a column may overshoot its new line
    /// until the column step runs.
    fn vertical_movement_line(&mut self, direction: isize, select: bool)
        requires
            old(self)@.wf(),
            direction == 1isize || direction == -1isize,
        ensures
            final(self)@ == old(self)@.after_vertical_line(select, direction as int),
            final(self)@.lines_in_range(),
    {
        let moving_cursor = self.get_moving_cursor(select);
        let last_line: usize = self.lines.len() - 1;
        let new_line: usize = if direction == 1 {
            if moving_cursor.line < last_line {
                moving_cursor.line + 1
            } else {
                last_line
            }
        } else {
            if moving_cursor.line > 1 {
                moving_cursor.line - 1
            } else {
                0
            }
        };
        self.extender.line = new_line;
        if self.cursors_need_sync(select) {
            self.current.line = new_line;
        }
    }

    /// The column component of a vertical step, judged against the moving
    /// position's (new) line: clamp to the line's length, restore the
    /// remembered column where the line is long enough, or keep the column.
    fn vertical_movement_column(&mut self, select: bool)
        requires
            old(self)@.lines_in_range(),
        ensures
            final(self)@ == old(self)@.after_vertical_column(select),
    {
        let moving_cursor = self.get_moving_cursor(select);
        let next_line_max_column: usize = self.lines[moving_cursor.line].len();
        let new_column: usize = if moving_cursor.column > next_line_max_column || (
        moving_cursor.column < moving_cursor.column_offset && moving_cursor.column
            < next_line_max_column && moving_cursor.column_offset > next_line_max_column) {
            next_line_max_column
        } else if moving_cursor.column < moving_cursor.column_offset && moving_cursor.column
            < next_line_max_column {
            moving_cursor.column_offset
        } else {
            moving_cursor.column
        };
        self.extender.column = new_column;
        if self.cursors_need_sync(select) {
            self.current.column = new_column;
        }
    }
}

} // verus!
