use crate::building::{
    BuildingCounts, HERMIT_ENCODING, HOUSE_ENCODING, TRASH_ENCODING,
};
use crate::cell::CellType;
use crate::error::LevelError;
use crate::solution::{GRASS_MARKER, HOLE_MARKER};
use crate::text::{ascii_bytes_to_string, dec_digits, push_decimal, COLON, NEWLINE};
use vstd::prelude::*;

verus! {

/// A vector-of-rows grid, as a mathematical sequence of rows.
pub open spec fn grid_view(f: Seq<Vec<CellType>>) -> Seq<Seq<CellType>> {
    f.map_values(|r: Vec<CellType>| r@)
}

/// Whether a grid is usable as a board: at least one row, at least one
/// column, and every row of the same length as the first.
pub open spec fn grid_dims_ok(g: Seq<Seq<CellType>>) -> bool {
    0 < g.len() && 0 < g[0].len() && (forall|i: int|
        0 <= i < g.len() ==> (#[trigger] g[i]).len() == g[0].len())
}

/// Produces a `rows x columns` grid with every cell `Grass`.
///
/// A grid with zero rows or zero columns is degenerate; `Level::new`
/// rejects it, so callers that size a board this way must pick positive
/// dimensions.
pub fn field_from_size(rows: usize, columns: usize) -> (r: Vec<Vec<CellType>>)
    ensures
        r@.len() == rows,
        forall|i: int| 0 <= i < rows ==> (#[trigger] r@[i])@.len() == columns,
        forall|i: int, j: int|
            0 <= i < rows && 0 <= j < columns ==> r@[i]@[j] == CellType::Grass,
{
    let mut field: Vec<Vec<CellType>> = Vec::new();
    let mut i: usize = 0;
    while i < rows
        invariant
            i <= rows,
            field@.len() == i,
            forall|k: int| 0 <= k < i ==> (#[trigger] field@[k])@.len() == columns,
            forall|k: int, j: int|
                0 <= k < i && 0 <= j < columns ==> field@[k]@[j] == CellType::Grass,
        decreases rows - i,
    {
        let mut row: Vec<CellType> = Vec::new();
        let mut j: usize = 0;
        while j < columns
            invariant
                j <= columns,
                row@.len() == j,
                forall|t: int| 0 <= t < j ==> row@[t] == CellType::Grass,
            decreases columns - j,
        {
            row.push(CellType::Grass);
            j += 1;
        }
        field.push(row);
        i += 1;
    }
    field
}

/// The byte a terrain kind is rendered as; the same bytes double as
/// background markers in a solution grid.
pub open spec fn cell_byte(c: CellType) -> u8 {
    match c {
        CellType::Grass => GRASS_MARKER,
        CellType::Hole => HOLE_MARKER,
    }
}

/// The first `n` cells of one row, rendered.
pub open spec fn spec_render_row_prefix(row: Seq<CellType>, n: int) -> Seq<u8>
    decreases n,
{
    if n <= 0 {
        Seq::empty()
    } else {
        spec_render_row_prefix(row, n - 1).push(cell_byte(row[n - 1]))
    }
}

/// The first `n` rows of a grid, each rendered and newline-terminated.
pub open spec fn spec_render_grid(g: Seq<Seq<CellType>>, n: int) -> Seq<u8>
    decreases n,
{
    if n <= 0 {
        Seq::empty()
    } else {
        spec_render_grid(g, n - 1) + spec_render_row_prefix(g[n - 1], g[n - 1].len() as int).push(
            NEWLINE,
        )
    }
}

/// One `<encoding>:<count>` line of the rendered tally.
pub open spec fn spec_count_line(enc: u8, count: nat) -> Seq<u8> {
    seq![enc, COLON] + dec_digits(count) + seq![NEWLINE]
}

/// The rendered tally: one line per required building kind, in house,
/// trash, hermit order; kinds with count zero are left out.
pub open spec fn spec_render_counts(counts: BuildingCounts) -> Seq<u8> {
    (if counts.house > 0 {
        spec_count_line(HOUSE_ENCODING, counts.house as nat)
    } else {
        Seq::<u8>::empty()
    }) + (if counts.trash > 0 {
        spec_count_line(TRASH_ENCODING, counts.trash as nat)
    } else {
        Seq::<u8>::empty()
    }) + (if counts.hermit > 0 {
        spec_count_line(HERMIT_ENCODING, counts.hermit as nat)
    } else {
        Seq::<u8>::empty()
    })
}

/// The full rendering of a board: the grid, then the required counts.
pub open spec fn spec_render(level: Level) -> Seq<u8> {
    spec_render_grid(level.cells(), level.cells().len() as int) + spec_render_counts(
        level.spec_building_count(),
    )
}

proof fn lemma_dec_digits_ascii(n: nat)
    ensures
        forall|i: int| 0 <= i < dec_digits(n).len() ==> dec_digits(n)[i] < 128,
    decreases n,
{
    if n < 10 {
        assert(dec_digits(n) == seq![(48 + n) as u8]);
    } else {
        lemma_dec_digits_ascii(n / 10);
        assert forall|i: int| 0 <= i < dec_digits(n).len() implies dec_digits(n)[i] < 128 by {
            if i < dec_digits(n / 10).len() {
                assert(dec_digits(n)[i] == dec_digits(n / 10)[i]);
            } else {
                assert(dec_digits(n)[i] == (48 + n % 10) as u8);
            }
        }
    }
}

/// An immutable puzzle board: a rectangular grid of terrain cells plus the
/// required number of buildings of each kind.
#[derive(Debug)]
pub struct Level {
    building_count: BuildingCounts,
    field: Vec<Vec<CellType>>,
}

impl Level {
    /// The grid of the board, row by row.
    pub closed spec fn cells(self) -> Seq<Seq<CellType>> {
        grid_view(self.field@)
    }

    /// How many buildings of each kind a valid solution must place.  A
    /// count of zero means the kind is not required at all.
    pub closed spec fn spec_building_count(self) -> BuildingCounts {
        self.building_count
    }

    /// Reads the required building counts of the puzzle.
    pub fn building_count(&self) -> (r: BuildingCounts)
        ensures
            r == self.spec_building_count(),
    {
        self.building_count
    }

    /// Every board in existence is rectangular and non-empty: the
    /// constructor refuses anything else.
    #[verifier::type_invariant]
    pub open spec fn wf(self) -> bool {
        grid_dims_ok(self.cells())
    }

    /// Builds a board from required counts and a grid; a grid with no
    /// rows, an empty first row, or rows of unequal length is rejected as
    /// `MalformedGrid`.
    pub fn new(building_count: BuildingCounts, field: Vec<Vec<CellType>>) -> (r: Result<
        Level,
        LevelError,
    >)
        ensures
            (match r {
                Ok(l) => grid_dims_ok(grid_view(field@)) && l.cells() == grid_view(field@)
                    && l.spec_building_count() == building_count,
                Err(e) => !grid_dims_ok(grid_view(field@)) && e == LevelError::MalformedGrid,
            }),
    {
        if field.len() == 0 {
            return Err(LevelError::MalformedGrid);
        }
        let columns = field[0].len();
        if columns == 0 {
            return Err(LevelError::MalformedGrid);
        }
        let mut i: usize = 1;
        while i < field.len()
            invariant
                1 <= i <= field@.len(),
                columns == grid_view(field@)[0].len(),
                0 < columns,
                forall|k: int|
                    0 <= k < i ==> (#[trigger] grid_view(field@)[k]).len() == columns,
            decreases field@.len() - i,
        {
            if field[i].len() != columns {
                proof {
                    assert(grid_view(field@)[i as int].len() != grid_view(field@)[0].len());
                }
                return Err(LevelError::MalformedGrid);
            }
            i += 1;
        }
        Ok(Level { building_count, field })
    }

    /// The number of rows of the board.
    pub fn rows(&self) -> (r: usize)
        ensures
            r == self.cells().len(),
    {
        self.field.len()
    }

    /// The number of columns of the board; by construction every row has
    /// this same length.
    pub fn columns(&self) -> (r: usize)
        ensures
            r == self.cells()[0].len(),
    {
        proof {
            use_type_invariant(self);
        }
        self.field[0].len()
    }

    /// Renders the board as text for diagnostics: each row's cells as
    /// their display characters, newline-terminated, then the required
    /// building counts.
    pub fn render(&self) -> (r: String)
        ensures
            r@.len() == spec_render(*self).len(),
            forall|i: int| 0 <= i < r@.len() ==> r@[i] == spec_render(*self)[i] as char,
    {
        proof {
            use_type_invariant(self);
        }
        let ghost g = self.cells();
        let mut out: Vec<u8> = Vec::new();
        let rows = self.rows();
        let columns = self.columns();
        let mut i: usize = 0;
        while i < rows
            invariant
                self.wf(),
                g == self.cells(),
                rows == g.len(),
                columns == g[0].len(),
                i <= rows,
                out@ == spec_render_grid(g, i as int),
                forall|k: int| 0 <= k < out@.len() ==> out@[k] < 128,
            decreases rows - i,
        {
            let mut j: usize = 0;
            while j < columns
                invariant
                    self.wf(),
                    g == self.cells(),
                    rows == g.len(),
                    columns == g[0].len(),
                    i < rows,
                    columns == g[i as int].len(),
                    j <= columns,
                    out@ == spec_render_grid(g, i as int) + spec_render_row_prefix(
                        g[i as int],
                        j as int,
                    ),
                    forall|k: int| 0 <= k < out@.len() ==> out@[k] < 128,
                decreases columns - j,
            {
                let b: u8 = match self.cell(i, j) {
                    CellType::Grass => GRASS_MARKER,
                    CellType::Hole => HOLE_MARKER,
                };
                out.push(b);
                proof {
                    assert((spec_render_grid(g, i as int) + spec_render_row_prefix(
                        g[i as int],
                        j as int,
                    )).push(cell_byte(g[i as int][j as int])) =~= spec_render_grid(g, i as int)
                        + spec_render_row_prefix(g[i as int], j + 1));
                }
                j += 1;
            }
            out.push(NEWLINE);
            proof {
                assert((spec_render_grid(g, i as int) + spec_render_row_prefix(
                    g[i as int],
                    g[i as int].len() as int,
                )).push(NEWLINE) =~= spec_render_grid(g, i + 1));
            }
            i += 1;
        }
        let ghost base = spec_render_grid(g, g.len() as int);
        let counts = self.building_count();
        let ghost after_house = base + (if counts.house > 0 {
            spec_count_line(HOUSE_ENCODING, counts.house as nat)
        } else {
            Seq::<u8>::empty()
        });
        if counts.house > 0 {
            out.push(HOUSE_ENCODING);
            out.push(COLON);
            push_decimal(&mut out, counts.house);
            out.push(NEWLINE);
            proof {
                lemma_dec_digits_ascii(counts.house as nat);
                assert((base.push(HOUSE_ENCODING).push(COLON) + dec_digits(
                    counts.house as nat,
                )).push(NEWLINE) =~= after_house);
            }
        } else {
            proof {
                assert(base + Seq::<u8>::empty() =~= base);
            }
        }
        let ghost after_trash = after_house + (if counts.trash > 0 {
            spec_count_line(TRASH_ENCODING, counts.trash as nat)
        } else {
            Seq::<u8>::empty()
        });
        if counts.trash > 0 {
            out.push(TRASH_ENCODING);
            out.push(COLON);
            push_decimal(&mut out, counts.trash);
            out.push(NEWLINE);
            proof {
                lemma_dec_digits_ascii(counts.trash as nat);
                assert((after_house.push(TRASH_ENCODING).push(COLON) + dec_digits(
                    counts.trash as nat,
                )).push(NEWLINE) =~= after_trash);
            }
        } else {
            proof {
                assert(after_house + Seq::<u8>::empty() =~= after_house);
            }
        }
        let ghost after_hermit = after_trash + (if counts.hermit > 0 {
            spec_count_line(HERMIT_ENCODING, counts.hermit as nat)
        } else {
            Seq::<u8>::empty()
        });
        if counts.hermit > 0 {
            out.push(HERMIT_ENCODING);
            out.push(COLON);
            push_decimal(&mut out, counts.hermit);
            out.push(NEWLINE);
            proof {
                lemma_dec_digits_ascii(counts.hermit as nat);
                assert((after_trash.push(HERMIT_ENCODING).push(COLON) + dec_digits(
                    counts.hermit as nat,
                )).push(NEWLINE) =~= after_hermit);
            }
        } else {
            proof {
                assert(after_trash + Seq::<u8>::empty() =~= after_trash);
            }
        }
        proof {
            assert(after_hermit =~= spec_render(*self));
        }
        ascii_bytes_to_string(out)
    }

    /// Reads one cell; the position must lie on the board.
    pub fn cell(&self, r: usize, c: usize) -> (x: CellType)
        requires
            r < self.cells().len(),
            c < self.cells()[r as int].len(),
        ensures
            x == self.cells()[r as int][c as int],
    {
        self.field[r][c]
    }
}

} // verus!
