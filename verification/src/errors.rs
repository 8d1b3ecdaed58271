//! The engine's failure values: structural lookups that found nothing, and a
//! terminal coordinate that does not fit the terminal's cell type.

use vstd::prelude::*;

verus! {

#[derive(Clone, Copy, PartialEq, Eq, Structural, Debug)]
pub enum ChaiError {
    /// A row index outside the document's current lines.
    NoLine,
    /// A view index outside a pane's views.
    NoView,
    /// A pane index outside the editor's panes.
    NoPane,
    /// A view's document handle outside the open documents.
    NoDocument,
    /// A computed terminal coordinate too large for a terminal cell.
    CoordsTooLarge,
}

impl ChaiError {
    /// A short description of the failure.
    pub fn message(&self) -> (r: &'static str)
        ensures
            r@ == self.message_spec(),
    {
        match self {
            ChaiError::NoLine => "no line at the requested index",
            ChaiError::NoView => "no view found",
            ChaiError::NoPane => "no pane found",
            ChaiError::NoDocument => "no document for the view",
            ChaiError::CoordsTooLarge => "cursor position does not fit the terminal",
        }
    }

    pub open spec fn message_spec(&self) -> Seq<char> {
        match self {
            ChaiError::NoLine => "no line at the requested index"@,
            ChaiError::NoView => "no view found"@,
            ChaiError::NoPane => "no pane found"@,
            ChaiError::NoDocument => "no document for the view"@,
            ChaiError::CoordsTooLarge => "cursor position does not fit the terminal"@,
        }
    }
}

} // verus!
