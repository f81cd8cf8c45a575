use vstd::prelude::*;

verus! {

/// The ways building a puzzle or parsing a solution can fail.
///
/// Count mismatches and placement violations are *not* errors: they are
/// ordinary validation outcomes, reported in a `ValidationResult`.
#[derive(Debug, PartialEq, Eq, Structural, Clone, Copy)]
pub enum LevelError {
    /// A byte that is neither a background marker nor a building encoding
    /// appeared where a building was expected; carries the offending byte.
    UnknownBuildingEncoding(u8),
    /// A grid with no rows, an empty first row, or rows of unequal length.
    MalformedGrid,
}

} // verus!
