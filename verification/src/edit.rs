//! Editing operations: insertion, deletion, backspace and line breaks.

use crate::cursor::Cursor;
use vstd::prelude::*;

verus! {

impl Cursor {
    /// Deletes forward at the cursor, or deletes the active selection.
    ///
    /// Without a selection, the codepoint at the cursor's column is
    /// removed; at the end of a line the next line is joined on instead
    /// (and nothing happens at the end of the last line).  With a
    /// selection, the selected range is removed and both positions
    /// collapse onto the selection's lower bound.
    pub fn delete(&mut self)
        requires
            old(self)@.wf(),
        ensures
            final(self)@ == old(self)@.after_delete(),
            final(self)@.wf(),
    {
        if self.current == self.extender {
            if self.current.column == self.lines[self.current.line].len() {
                let line_count: usize = self.lines.len();
                if self.current.line < line_count - 1 {
                    let mut next_line = self.lines.remove(self.current.line + 1);
                    let mut line = self.lines.remove(self.current.line);
                    line.append(&mut next_line);
                    self.lines.insert(self.current.line, line);
                    proof {
                        assert(self.lines.deep_view() =~~= old(self)@.after_delete().lines);
                    }
                }
            } else {
                let mut line = self.lines.remove(self.current.line);
                line.remove(self.current.column);
                self.lines.insert(self.current.line, line);
                proof {
                    assert(self.lines.deep_view() =~~= old(self)@.after_delete().lines);
                }
            }
        } else {
            if self.current.line == self.extender.line {
                let (lesser_column, greater_column): (usize, usize) = if self.current.column
                    > self.extender.column {
                    (self.extender.column, self.current.column)
                } else {
                    (self.current.column, self.extender.column)
                };
                let mut line = self.lines.remove(self.current.line);
                let mut tail = line.split_off(greater_column);
                line.truncate(lesser_column);
                line.append(&mut tail);
                self.lines.insert(self.current.line, line);
                proof {
                    assert(self.lines.deep_view() =~~= old(self)@.after_delete().lines);
                }
            } else {
                let (low_line, low_column, high_line, high_column): (usize, usize, usize, usize) =
                    if self.current < self.extender {
                    (self.current.line, self.current.column, self.extender.line,
                    self.extender.column)
                } else {
                    (self.extender.line, self.extender.column, self.current.line,
                    self.current.column)
                };
                let mut rest = self.lines.split_off(high_line);
                let mut upper_line = rest.remove(0);
                let mut tail = upper_line.split_off(high_column);
                self.lines.truncate(low_line + 1);
                let mut line = self.lines.remove(low_line);
                line.truncate(low_column);
                line.append(&mut tail);
                self.lines.push(line);
                self.lines.append(&mut rest);
                proof {
                    assert(self.lines.deep_view() =~~= old(self)@.after_delete().lines);
                }
            }
            if self.current < self.extender {
                self.extender.column = self.current.column;
                self.extender.line = self.current.line;
            } else {
                self.current.column = self.extender.column;
                self.current.line = self.extender.line;
            }
        }
    }

    /// Backspace: deletes the codepoint behind the cursor, joining lines at
    /// a line start; a no-op at the document start.  With a selection it
    /// deletes the selection instead.
    pub fn backspace(&mut self)
        requires
            old(self)@.wf(),
        ensures
            final(self)@ == old(self)@.after_backspace(),
            final(self)@.wf(),
    {
        if self.current == self.extender {
            if self.current.column != 0 || self.current.line != 0 {
                self.left(false);
                self.delete();
            }
        } else {
            self.delete();
        }
    }

    /// Inserts one codepoint at the cursor, deleting any active selection
    /// first, and advances the cursor one step right.
    pub fn add(&mut self, character: char)
        requires
            old(self)@.wf(),
        ensures
            final(self)@ == old(self)@.after_add(character),
            final(self)@.wf(),
    {
        if self.current != self.extender {
            self.delete();
        }
        let mut line = self.lines.remove(self.current.line);
        line.insert(self.current.column, character);
        self.lines.insert(self.current.line, line);
        proof {
            let c = if old(self)@.has_selection() {
                old(self)@.after_delete()
            } else {
                old(self)@
            };
            assert(self.lines.deep_view() =~~= c.lines.update(
                c.current.line,
                c.lines[c.current.line].insert(c.current.column, character),
            ));
        }
        self.right(false);
    }

    /// Splits the cursor's line at its column, deleting any active
    /// selection first; both positions move to the start of the new line,
    /// and their remembered columns are reset to zero.
    #[verifier::rlimit(50)]
    pub fn new_line(&mut self)
        requires
            old(self)@.wf(),
        ensures
            final(self)@ == old(self)@.after_new_line(),
            final(self)@.wf(),
    {
        if self.current != self.extender {
            self.delete();
        }
        let mut line = self.lines.remove(self.current.line);
        let tail = line.split_off(self.current.column);
        self.lines.insert(self.current.line, tail);
        self.lines.insert(self.current.line, line);
        proof {
            let c = if old(self)@.has_selection() {
                old(self)@.after_delete()
            } else {
                old(self)@
            };
            assert(self.lines.deep_view() =~~= c.lines.update(
                c.current.line,
                c.lines[c.current.line].take(c.current.column as int),
            ).insert(c.current.line + 1, c.lines[c.current.line].skip(c.current.column as int)));
            // the buffer's length is a usize, so the new line's index fits
            assert(self.current.line < self.lines.len());
        }
        self.current.line = self.current.line + 1;
        self.extender.line = self.extender.line + 1;
        self.current.column = 0;
        self.extender.column = 0;
        self.current.column_offset = 0;
        self.extender.column_offset = 0;
    }
}

} // verus!
