//! The executable position type.

use crate::model::PositionModel;
use std::cmp::Ordering;
use vstd::prelude::*;

verus! {

/// One endpoint of the cursor: a zero-based line index, a zero-based column
/// counted in codepoints, and the remembered column (`column_offset`), which
/// horizontal movement refreshes and vertical movement consults.
///
/// Equality and ordering compare `(line, column)` only; the remembered
/// column takes no part in either.
#[derive(Clone, Copy, Debug)]
pub struct CursorPosition {
    pub line: usize,
    pub column: usize,
    pub column_offset: usize,
}

impl View for CursorPosition {
    type V = PositionModel;

    open spec fn view(&self) -> PositionModel {
        PositionModel {
            line: self.line as int,
            column: self.column as int,
            memory: self.column_offset as int,
        }
    }
}

impl PartialEq for CursorPosition {
    fn eq(&self, other: &Self) -> (r: bool) {
        self.line == other.line && self.column == other.column
    }
}

impl Eq for CursorPosition {}

impl vstd::std_specs::cmp::PartialEqSpecImpl for CursorPosition {
    open spec fn obeys_eq_spec() -> bool {
        true
    }

    open spec fn eq_spec(&self, other: &Self) -> bool {
        crate::model::pos_eq(self@, other@)
    }
}

impl PartialOrd for CursorPosition {
    fn partial_cmp(&self, other: &Self) -> (r: Option<Ordering>) {
        if self.line > other.line {
            Some(Ordering::Greater)
        } else if self.line < other.line {
            Some(Ordering::Less)
        } else if self.column > other.column {
            Some(Ordering::Greater)
        } else if self.column < other.column {
            Some(Ordering::Less)
        } else {
            Some(Ordering::Equal)
        }
    }
}

impl vstd::std_specs::cmp::PartialOrdSpecImpl for CursorPosition {
    open spec fn obeys_partial_cmp_spec() -> bool {
        true
    }

    open spec fn partial_cmp_spec(&self, other: &Self) -> Option<Ordering> {
        if crate::model::pos_lt(self@, other@) {
            Some(Ordering::Less)
        } else if crate::model::pos_lt(other@, self@) {
            Some(Ordering::Greater)
        } else {
            Some(Ordering::Equal)
        }
    }
}

} // verus!
