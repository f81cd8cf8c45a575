use vstd::prelude::*;

verus! {

/// The closed set of terrain kinds a board cell can hold.
///
/// `Grass` is traversable and is the default terrain of a freshly sized
/// board; `Hole` is impassable.
#[derive(Debug, PartialEq, Eq, Structural, Clone, Copy)]
pub enum CellType {
    Grass,
    Hole,
}

/// The display character of each terrain kind.
pub open spec fn cell_encoding(c: CellType) -> char {
    match c {
        CellType::Grass => 'g',
        CellType::Hole => 'x',
    }
}

impl CellType {
    /// The character this terrain kind is rendered as.
    pub fn to_char(&self) -> (r: char)
        ensures
            r == cell_encoding(*self),
    {
        match self {
            CellType::Grass => 'g',
            CellType::Hole => 'x',
        }
    }
}

} // verus!
