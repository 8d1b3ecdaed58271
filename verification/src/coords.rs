//! Plain position and size types shared by the whole editor core.

use vstd::prelude::*;

verus! {

/// A logical in-document position: `x` is a character column, `y` a row.
#[derive(Clone, Copy, PartialEq, Eq, Structural, Debug)]
pub struct Coords {
    pub x: usize,
    pub y: usize,
}

/// An absolute terminal cell position.
#[derive(Clone, Copy, PartialEq, Eq, Structural, Debug)]
pub struct TermScreenCoords {
    pub x: u16,
    pub y: u16,
}

/// A terminal width/height pair.
#[derive(Clone, Copy, PartialEq, Eq, Structural, Debug)]
pub struct TermSize {
    pub width: u16,
    pub height: u16,
}

impl From<(usize, usize)> for Coords {
    fn from(p: (usize, usize)) -> (r: Self)
        ensures
            r.x == p.0 && r.y == p.1,
    {
        Coords { x: p.0, y: p.1 }
    }
}

impl vstd::std_specs::convert::FromSpecImpl<(usize, usize)> for Coords {
    open spec fn obeys_from_spec() -> bool {
        true
    }

    open spec fn from_spec(p: (usize, usize)) -> Self {
        Coords { x: p.0, y: p.1 }
    }
}

impl From<(u16, u16)> for TermScreenCoords {
    fn from(p: (u16, u16)) -> (r: Self)
        ensures
            r.x == p.0 && r.y == p.1,
    {
        TermScreenCoords { x: p.0, y: p.1 }
    }
}

impl vstd::std_specs::convert::FromSpecImpl<(u16, u16)> for TermScreenCoords {
    open spec fn obeys_from_spec() -> bool {
        true
    }

    open spec fn from_spec(p: (u16, u16)) -> Self {
        TermScreenCoords { x: p.0, y: p.1 }
    }
}

} // verus!
