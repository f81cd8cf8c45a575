use crate::building::{decoded_building, BuildingCounts, BuildingType};
use crate::error::LevelError;
use vstd::prelude::*;
use vstd::string::StringSliceAdditionalSpecFns;

verus! {

/// The byte `'.'`: an empty background cell in a solution grid.
pub const DOT_MARKER: u8 = 46;

/// The byte `'g'`: grass terrain showing through a solution grid.
pub const GRASS_MARKER: u8 = 103;

/// The byte `'x'`: hole terrain showing through a solution grid.
pub const HOLE_MARKER: u8 = 120;

/// The background markers a solution grid may hold without placing a
/// building.
pub open spec fn is_background(c: u8) -> bool {
    c == DOT_MARKER || c == GRASS_MARKER || c == HOLE_MARKER
}

/// One parsed building together with the grid position it was read at.
///
/// The position is recorded as parsed and is not checked against any
/// board's bounds; pairing a solution with a board of the right size is
/// the caller's business.
#[derive(Debug, PartialEq, Eq, Structural, Clone, Copy)]
pub struct Placement {
    pub building: BuildingType,
    pub row: usize,
    pub column: usize,
}

/// An ordered list of placements, in row-major parse order.
///
/// The order determines the indices that validation reports; beyond that
/// it carries no meaning.
#[derive(Debug, PartialEq, Eq)]
pub struct Solution {
    pub placements: Vec<Placement>,
}

/// The placements parsed from the first `n` bytes of row `r`, or the
/// leftmost byte of them that is neither background nor a building
/// encoding.
pub open spec fn spec_parse_row(bytes: Seq<u8>, r: usize, n: int) -> Result<
    Seq<Placement>,
    LevelError,
>
    decreases n,
{
    if n <= 0 {
        Ok(Seq::empty())
    } else {
        match spec_parse_row(bytes, r, n - 1) {
            Err(e) => Err(e),
            Ok(ps) => {
                let c = bytes[n - 1];
                if is_background(c) {
                    Ok(ps)
                } else {
                    match decoded_building(c) {
                        Some(b) => Ok(
                            ps.push(Placement { building: b, row: r, column: (n - 1) as usize }),
                        ),
                        None => Err(LevelError::UnknownBuildingEncoding(c)),
                    }
                }
            },
        }
    }
}

/// The placements parsed from the first `n` rows, in row-major scan
/// order, or the first undecodable byte met in that order.
pub open spec fn spec_parse_rows(rows: Seq<Seq<u8>>, n: int) -> Result<Seq<Placement>, LevelError>
    decreases n,
{
    if n <= 0 {
        Ok(Seq::empty())
    } else {
        match spec_parse_rows(rows, n - 1) {
            Err(e) => Err(e),
            Ok(ps) => match spec_parse_row(rows[n - 1], (n - 1) as usize, rows[n - 1].len() as int) {
                Err(e) => Err(e),
                Ok(qs) => Ok(ps + qs),
            },
        }
    }
}

/// The byte grid a list of text rows stands for.
pub open spec fn rows_bytes(s: Seq<&str>) -> Seq<Seq<u8>> {
    s.map_values(|r: &str| r.spec_bytes())
}

/// What `parse_solution` promises: exactly the row-major parse of the
/// rows' bytes, or the error of the first undecodable byte.
pub open spec fn parse_post(rows: Seq<Seq<u8>>, r: Result<Solution, LevelError>) -> bool {
    match spec_parse_rows(rows, rows.len() as int) {
        Ok(ps) => (match r {
            Ok(sol) => sol.placements@ == ps,
            Err(_) => false,
        }),
        Err(e) => r == Err::<Solution, LevelError>(e),
    }
}

proof fn lemma_parse_row_err_persists(bytes: Seq<u8>, r: usize, k: int, n: int, e: LevelError)
    requires
        0 <= k <= n,
        spec_parse_row(bytes, r, k) == Err::<Seq<Placement>, LevelError>(e),
    ensures
        spec_parse_row(bytes, r, n) == Err::<Seq<Placement>, LevelError>(e),
    decreases n - k,
{
    if k < n {
        lemma_parse_row_err_persists(bytes, r, k + 1, n, e);
    }
}

proof fn lemma_parse_rows_err_persists(rows: Seq<Seq<u8>>, k: int, n: int, e: LevelError)
    requires
        0 <= k <= n,
        spec_parse_rows(rows, k) == Err::<Seq<Placement>, LevelError>(e),
    ensures
        spec_parse_rows(rows, n) == Err::<Seq<Placement>, LevelError>(e),
    decreases n - k,
{
    if k < n {
        lemma_parse_rows_err_persists(rows, k + 1, n, e);
    }
}

/// Converts a textual grid into the list of buildings it places.
///
/// Rows are scanned top to bottom, each row left to right by byte;
/// background markers are skipped, every other byte must decode to a
/// building and yields a placement at its `(row, column)` position.
pub fn parse_solution(s: Vec<&str>) -> (r: Result<Solution, LevelError>)
    ensures
        parse_post(rows_bytes(s@), r),
{
    let ghost rows: Seq<Seq<u8>> = rows_bytes(s@);
    let mut placements: Vec<Placement> = Vec::new();
    let mut row: usize = 0;
    while row < s.len()
        invariant
            row <= s@.len(),
            rows == rows_bytes(s@),
            spec_parse_rows(rows, row as int) == Ok::<Seq<Placement>, LevelError>(placements@),
        decreases s@.len() - row,
    {
        let bytes: &[u8] = s[row].as_bytes();
        let mut row_places: Vec<Placement> = Vec::new();
        let mut column: usize = 0;
        while column < bytes.len()
            invariant
                column <= bytes@.len(),
                row < s@.len(),
                rows == rows_bytes(s@),
                bytes@ == rows[row as int],
                spec_parse_rows(rows, row as int) == Ok::<Seq<Placement>, LevelError>(
                    placements@,
                ),
                spec_parse_row(rows[row as int], row, column as int) == Ok::<
                    Seq<Placement>,
                    LevelError,
                >(row_places@),
            decreases bytes@.len() - column,
        {
            let c = bytes[column];
            if !(c == DOT_MARKER || c == GRASS_MARKER || c == HOLE_MARKER) {
                match BuildingType::from_char(c) {
                    Ok(b) => {
                        row_places.push(Placement { building: b, row, column });
                    },
                    Err(e) => {
                        proof {
                            lemma_parse_row_err_persists(
                                rows[row as int],
                                row,
                                column + 1,
                                rows[row as int].len() as int,
                                e,
                            );
                            assert(spec_parse_rows(rows, row + 1) == Err::<
                                Seq<Placement>,
                                LevelError,
                            >(e));
                            lemma_parse_rows_err_persists(rows, row + 1, rows.len() as int, e);
                        }
                        return Err(e);
                    },
                }
            }
            column += 1;
        }
        placements.append(&mut row_places);
        row += 1;
    }
    Ok(Solution { placements })
}

proof fn lemma_background_row_parses_empty(bytes: Seq<u8>, r: usize, n: int)
    requires
        0 <= n <= bytes.len(),
        forall|j: int| 0 <= j < bytes.len() ==> is_background(#[trigger] bytes[j]),
    ensures
        spec_parse_row(bytes, r, n) == Ok::<Seq<Placement>, LevelError>(Seq::<Placement>::empty()),
    decreases n,
{
    if n > 0 {
        lemma_background_row_parses_empty(bytes, r, n - 1);
    }
}

proof fn lemma_background_rows_prefix(rows: Seq<Seq<u8>>, n: int)
    requires
        0 <= n <= rows.len(),
        forall|i: int, j: int|
            0 <= i < rows.len() && 0 <= j < rows[i].len() ==> is_background(
                #[trigger] rows[i][j],
            ),
    ensures
        spec_parse_rows(rows, n) == Ok::<Seq<Placement>, LevelError>(Seq::<Placement>::empty()),
    decreases n,
{
    if n > 0 {
        lemma_background_rows_prefix(rows, n - 1);
        lemma_background_row_parses_empty(rows[n - 1], (n - 1) as usize, rows[n - 1].len() as int);
        assert(Seq::<Placement>::empty() + Seq::<Placement>::empty() =~= Seq::<
            Placement,
        >::empty());
    }
}

/// Law: a grid of rows holding only background markers parses to an
/// empty placement list.
pub proof fn lemma_background_rows_parse_empty(rows: Seq<Seq<u8>>)
    requires
        forall|i: int, j: int|
            0 <= i < rows.len() && 0 <= j < rows[i].len() ==> is_background(
                #[trigger] rows[i][j],
            ),
    ensures
        spec_parse_rows(rows, rows.len() as int) == Ok::<Seq<Placement>, LevelError>(
            Seq::<Placement>::empty(),
        ),
{
    lemma_background_rows_prefix(rows, rows.len() as int);
}

/// The number of placements among the first `n` whose building is `b`.
pub open spec fn placed_count(ps: Seq<Placement>, b: BuildingType, n: int) -> nat
    decreases n,
{
    if n <= 0 {
        0
    } else {
        placed_count(ps, b, n - 1) + (if ps[n - 1].building == b {
            1nat
        } else {
            0nat
        })
    }
}

/// Whether a tally records, for every building kind, exactly the number
/// of placements of that kind in the list.
pub open spec fn counts_match(ps: Seq<Placement>, counts: BuildingCounts) -> bool {
    &&& counts.house == placed_count(ps, BuildingType::House, ps.len() as int)
    &&& counts.trash == placed_count(ps, BuildingType::Trash, ps.len() as int)
    &&& counts.hermit == placed_count(ps, BuildingType::Hermit, ps.len() as int)
}

impl Solution {
    /// Tallies how many buildings of each kind the solution places.
    pub fn building_counts(&self) -> (r: BuildingCounts)
        ensures
            counts_match(self.placements@, r),
    {
        let ghost ps: Seq<Placement> = self.placements@;
        let mut house: usize = 0;
        let mut trash: usize = 0;
        let mut hermit: usize = 0;
        let mut i: usize = 0;
        while i < self.placements.len()
            invariant
                i <= ps.len(),
                ps == self.placements@,
                house == placed_count(ps, BuildingType::House, i as int),
                trash == placed_count(ps, BuildingType::Trash, i as int),
                hermit == placed_count(ps, BuildingType::Hermit, i as int),
                house <= i,
                trash <= i,
                hermit <= i,
            decreases ps.len() - i,
        {
            match self.placements[i].building {
                BuildingType::House => {
                    house += 1;
                },
                BuildingType::Trash => {
                    trash += 1;
                },
                BuildingType::Hermit => {
                    hermit += 1;
                },
            }
            i += 1;
        }
        BuildingCounts { house, trash, hermit }
    }
}

} // verus!
