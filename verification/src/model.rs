//! The mathematical model of the cursor engine.
//!
//! A [`CursorModel`] is the value of a whole cursor: the two positions and
//! the buffer, with each line a sequence of codepoints.  Every executable
//! operation of the engine promises that its result equals one of the
//! `after_*` functions below applied to its starting state, so these
//! functions are the authoritative statement of what the engine does.

use vstd::prelude::*;

verus! {

/// The value of one cursor endpoint.
///
/// `line` and `column` are zero-based indices; `column` counts codepoints.
/// `memory` is the remembered column: the column last chosen by a horizontal
/// move, consulted by vertical movement and by the home/end toggles.  It
/// takes no part in position equality or ordering.
#[verifier::ext_equal]
pub ghost struct PositionModel {
    pub line: int,
    pub column: int,
    pub memory: int,
}

/// Positions are equal when line and column agree; the remembered column is
/// deliberately ignored.
pub open spec fn pos_eq(a: PositionModel, b: PositionModel) -> bool {
    a.line == b.line && a.column == b.column
}

/// Document order: first by line, then by column.
pub open spec fn pos_lt(a: PositionModel, b: PositionModel) -> bool {
    a.line < b.line || (a.line == b.line && a.column < b.column)
}

/// The value of a whole cursor: anchor (`current`), extent (`extender`) and
/// the buffer.
#[verifier::ext_equal]
pub ghost struct CursorModel {
    pub current: PositionModel,
    pub extender: PositionModel,
    pub lines: Seq<Seq<char>>,
}

impl CursorModel {
    pub open spec fn line_count(self) -> int {
        self.lines.len() as int
    }

    /// The length, in codepoints, of line `l`.
    pub open spec fn line_len(self, l: int) -> int {
        self.lines[l].len() as int
    }

    /// A position is well formed when it indexes an existing line and a
    /// column no greater than that line's length.
    pub open spec fn pos_wf(self, p: PositionModel) -> bool {
        &&& 0 <= p.line < self.line_count()
        &&& 0 <= p.column <= self.line_len(p.line)
        &&& 0 <= p.memory
    }

    /// The engine's invariant: at least one line, both positions well formed.
    pub open spec fn wf(self) -> bool {
        &&& self.line_count() >= 1
        &&& self.pos_wf(self.current)
        &&& self.pos_wf(self.extender)
    }

    /// The part of the invariant that survives the line step of a vertical
    /// move: both positions index existing lines, but a column may
    /// temporarily overshoot its (new) line until the column step clamps it.
    pub open spec fn lines_in_range(self) -> bool {
        &&& self.line_count() >= 1
        &&& 0 <= self.current.line < self.line_count()
        &&& 0 <= self.extender.line < self.line_count()
        &&& 0 <= self.current.column
        &&& 0 <= self.extender.column
        &&& 0 <= self.current.memory
        &&& 0 <= self.extender.memory
    }

    /// A selection is active exactly when the two positions differ; this is
    /// always derived, never stored.
    pub open spec fn has_selection(self) -> bool {
        !pos_eq(self.current, self.extender)
    }

    /// The endpoint a movement operates on: the extent, unless the move
    /// extends a not-yet-started selection, in which case the anchor (then
    /// equal to the extent in position, but carrying its own remembered
    /// column).
    pub open spec fn moving_pos(self, select: bool) -> PositionModel {
        if !select || self.has_selection() {
            self.extender
        } else {
            self.current
        }
    }

    /// The initial state: the given lines (one empty line when none are
    /// given), both positions at the origin.
    pub open spec fn init(lines: Seq<Seq<char>>) -> CursorModel {
        let origin = PositionModel { line: 0, column: 0, memory: 0 };
        CursorModel {
            current: origin,
            extender: origin,
            lines: if lines.len() == 0 {
                seq![Seq::<char>::empty()]
            } else {
                lines
            },
        }
    }

    // ------------------------------------------------------------------
    // Write-back rules: how a destination reaches the two positions.  The
    // destination is always written into the extent; when the move does not
    // extend a selection, the anchor is made to coincide with the extent,
    // so that no selection remains.
    // ------------------------------------------------------------------

    /// Write-back of a full horizontal destination: the extent takes the
    /// destination and remembers its column; without `select` the anchor
    /// does the same, unless it already stands there (then its own
    /// remembered column is left alone).
    pub open spec fn write_move(self, select: bool, line: int, column: int) -> CursorModel {
        let e = PositionModel { line: line, column: column, memory: column };
        let c = if !select && !pos_eq(self.current, e) {
            e
        } else {
            self.current
        };
        CursorModel { current: c, extender: e, lines: self.lines }
    }

    /// Write-back of a column-only destination (home/end): the extent keeps
    /// its line and remembered column; without `select` the anchor collapses
    /// onto the extent, keeping its own remembered column.
    pub open spec fn write_column(self, select: bool, column: int) -> CursorModel {
        let e = PositionModel {
            line: self.extender.line,
            column: column,
            memory: self.extender.memory,
        };
        let c = if !select && !pos_eq(self.current, e) {
            PositionModel { line: e.line, column: column, memory: self.current.memory }
        } else {
            self.current
        };
        CursorModel { current: c, extender: e, lines: self.lines }
    }

    // ------------------------------------------------------------------
    // Horizontal navigation.
    // ------------------------------------------------------------------

    /// Destination of a left step: previous column; at column zero the end
    /// of the previous line; at the document start, no movement.
    pub open spec fn left_dest(self, select: bool) -> (int, int) {
        let m = self.moving_pos(select);
        if m.column == 0 {
            if m.line != 0 {
                (m.line - 1, self.line_len(m.line - 1))
            } else {
                (m.line, m.column)
            }
        } else {
            (m.line, m.column - 1)
        }
    }

    pub open spec fn after_left(self, select: bool) -> CursorModel {
        self.write_move(select, self.left_dest(select).0, self.left_dest(select).1)
    }

    /// Destination of a right step: next column; at the end of a line the
    /// start of the next line; at the end of the last line, no movement.
    pub open spec fn right_dest(self, select: bool) -> (int, int) {
        let m = self.moving_pos(select);
        let max_col: int = self.line_len(m.line);
        if m.column == max_col && m.line < self.line_count() - 1 {
            (m.line + 1, 0)
        } else if m.column < max_col {
            (m.line, m.column + 1)
        } else {
            (m.line, m.column)
        }
    }

    pub open spec fn after_right(self, select: bool) -> CursorModel {
        self.write_move(select, self.right_dest(select).0, self.right_dest(select).1)
    }

    /// The home toggle: from any other column, go to column zero; from
    /// column zero, return to the remembered column where it still fits the
    /// line.  The remembered column itself is left untouched, which is what
    /// makes pressing home twice return to the starting column.
    pub open spec fn home_column(self, select: bool) -> int {
        let m = self.moving_pos(select);
        if m.column == 0 && self.line_len(m.line) >= m.memory {
            m.memory
        } else {
            0
        }
    }

    pub open spec fn after_home(self, select: bool) -> CursorModel {
        self.write_column(select, self.home_column(select))
    }

    /// The end toggle, symmetric to home: from any other column, go to the
    /// line's end; from the end, return to the remembered column where it
    /// fits.
    pub open spec fn end_column(self, select: bool) -> int {
        let m = self.moving_pos(select);
        let max_col: int = self.line_len(m.line);
        if m.column == max_col && max_col >= m.memory {
            m.memory
        } else {
            max_col
        }
    }

    pub open spec fn after_end(self, select: bool) -> CursorModel {
        self.write_column(select, self.end_column(select))
    }

    // ------------------------------------------------------------------
    // Vertical navigation: a line step, then a column step against the new
    // line, with the remembered column never modified ("sticky column").
    // ------------------------------------------------------------------

    /// The line reached by one vertical step, clamped to the buffer.
    pub open spec fn vertical_target_line(self, select: bool, direction: int) -> int {
        let m = self.moving_pos(select);
        if m.line + direction > self.line_count() - 1 {
            self.line_count() - 1
        } else if m.line + direction <= 0 {
            0
        } else {
            m.line + direction
        }
    }

    /// The line step: only the line components are written.
    pub open spec fn after_vertical_line(self, select: bool, direction: int) -> CursorModel {
        let l = self.vertical_target_line(select, direction);
        let e = PositionModel {
            line: l,
            column: self.extender.column,
            memory: self.extender.memory,
        };
        let c = if !select && !pos_eq(self.current, e) {
            PositionModel { line: l, column: self.current.column, memory: self.current.memory }
        } else {
            self.current
        };
        CursorModel { current: c, extender: e, lines: self.lines }
    }

    /// The column after a vertical step, judged against the new line's
    /// length: clamp when the column (or a remembered column that should be
    /// restored) does not fit; restore the remembered column when the new
    /// line is long enough; otherwise keep the column.
    pub open spec fn vertical_column(self, select: bool) -> int {
        let m = self.moving_pos(select);
        let max_col: int = self.line_len(m.line);
        if m.column > max_col || (m.column < m.memory && m.column < max_col && m.memory > max_col) {
            max_col
        } else if m.column < m.memory && m.column < max_col {
            m.memory
        } else {
            m.column
        }
    }

    /// The column step: only the column components are written.
    pub open spec fn after_vertical_column(self, select: bool) -> CursorModel {
        let col = self.vertical_column(select);
        let e = PositionModel {
            line: self.extender.line,
            column: col,
            memory: self.extender.memory,
        };
        let c = if !select && !pos_eq(self.current, e) {
            PositionModel { line: self.current.line, column: col, memory: self.current.memory }
        } else {
            self.current
        };
        CursorModel { current: c, extender: e, lines: self.lines }
    }

    pub open spec fn after_vertical(self, select: bool, direction: int) -> CursorModel {
        self.after_vertical_line(select, direction).after_vertical_column(select)
    }

    pub open spec fn after_up(self, select: bool) -> CursorModel {
        self.after_vertical(select, -1)
    }

    pub open spec fn after_down(self, select: bool) -> CursorModel {
        self.after_vertical(select, 1)
    }

    // ------------------------------------------------------------------
    // Mutation.
    // ------------------------------------------------------------------

    /// The document-order smaller of the two positions.
    pub open spec fn lower_sel(self) -> PositionModel {
        if pos_lt(self.current, self.extender) {
            self.current
        } else {
            self.extender
        }
    }

    /// The document-order larger of the two positions.
    pub open spec fn upper_sel(self) -> PositionModel {
        if pos_lt(self.current, self.extender) {
            self.extender
        } else {
            self.current
        }
    }

    /// Deletion at the cursor.
    ///
    /// Without a selection: at the end of a line, the next line is joined
    /// on (no movement of either position; nothing happens at the end of
    /// the last line); otherwise the codepoint at the cursor's column is
    /// removed.
    ///
    /// With a selection: the selected range is removed — on one line the
    /// columns between the two endpoints, across lines the tail of the
    /// lower line, the whole lines between, and the head of the upper line
    /// — and both positions collapse onto the selection's lower bound.
    /// Remembered columns are never changed by deletion.
    pub open spec fn after_delete(self) -> CursorModel {
        if !self.has_selection() {
            let l = self.current.line;
            if self.current.column == self.line_len(l) {
                if l + 1 < self.line_count() {
                    let joined = self.lines[l] + self.lines[l + 1];
                    CursorModel {
                        current: self.current,
                        extender: self.extender,
                        lines: self.lines.update(l, joined).remove(l + 1),
                    }
                } else {
                    self
                }
            } else {
                CursorModel {
                    current: self.current,
                    extender: self.extender,
                    lines: self.lines.update(l, self.lines[l].remove(self.current.column)),
                }
            }
        } else if self.current.line == self.extender.line {
            let l = self.current.line;
            let lo = if self.current.column < self.extender.column {
                self.current.column
            } else {
                self.extender.column
            };
            let hi = if self.current.column < self.extender.column {
                self.extender.column
            } else {
                self.current.column
            };
            let cut = self.lines[l].take(lo) + self.lines[l].skip(hi);
            CursorModel {
                current: PositionModel { line: l, column: lo, memory: self.current.memory },
                extender: PositionModel { line: l, column: lo, memory: self.extender.memory },
                lines: self.lines.update(l, cut),
            }
        } else {
            let low = self.lower_sel();
            let high = self.upper_sel();
            let joined = self.lines[low.line].take(low.column) + self.lines[high.line].skip(
                high.column,
            );
            CursorModel {
                current: PositionModel {
                    line: low.line,
                    column: low.column,
                    memory: self.current.memory,
                },
                extender: PositionModel {
                    line: low.line,
                    column: low.column,
                    memory: self.extender.memory,
                },
                lines: self.lines.subrange(0, low.line) + seq![joined] + self.lines.subrange(
                    high.line + 1,
                    self.line_count(),
                ),
            }
        }
    }

    /// Backspace: with a selection, the same as deletion; without one, a
    /// left step followed by deletion, except at the document start where
    /// nothing happens.
    pub open spec fn after_backspace(self) -> CursorModel {
        if !self.has_selection() {
            if self.current.column != 0 || self.current.line != 0 {
                self.after_left(false).after_delete()
            } else {
                self
            }
        } else {
            self.after_delete()
        }
    }

    /// Insertion of one codepoint: any selection is deleted first; the
    /// codepoint goes in at the cursor's column, and the cursor advances by
    /// one right step.
    pub open spec fn after_add(self, character: char) -> CursorModel {
        let c = if self.has_selection() {
            self.after_delete()
        } else {
            self
        };
        let l = c.current.line;
        let inserted = CursorModel {
            current: c.current,
            extender: c.extender,
            lines: c.lines.update(l, c.lines[l].insert(c.current.column, character)),
        };
        inserted.after_right(false)
    }

    /// Line break: any selection is deleted first; the cursor's line is
    /// split at its column, and both positions move to the start of the new
    /// line, with their remembered columns reset to zero.
    pub open spec fn after_new_line(self) -> CursorModel {
        let c = if self.has_selection() {
            self.after_delete()
        } else {
            self
        };
        let l = c.current.line;
        let col = c.current.column;
        let head = c.lines[l].take(col);
        let tail = c.lines[l].skip(col);
        CursorModel {
            current: PositionModel { line: l + 1, column: 0, memory: 0 },
            extender: PositionModel { line: l + 1, column: 0, memory: 0 },
            lines: c.lines.update(l, head).insert(l + 1, tail),
        }
    }
}

} // verus!
