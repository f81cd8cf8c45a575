use crate::building::BuildingType;
use crate::cell::CellType;
use crate::level::Level;
use crate::solution::{counts_match, Placement, Solution};
use vstd::prelude::*;

verus! {

/// The kinds of per-placement rule violations validation can report.
#[derive(Debug, PartialEq, Eq, Structural, Clone, Copy)]
pub enum ViolationType {
    /// A house with grass on none of its probed cells.
    NoGrass,
}

/// One offending placement: its index in the solution's placement list
/// and the rule it breaks.
#[derive(Debug, PartialEq, Eq, Structural, Clone, Copy)]
pub struct PlacementViolation {
    pub building_index: usize,
    pub violation: ViolationType,
}

/// The outcome of validating a solution against a puzzle.
#[derive(Debug, PartialEq, Eq)]
pub struct ValidationResult {
    /// True when the placed buildings do not tally exactly with the
    /// required counts; placement checks are then skipped entirely.
    pub building_missing: bool,
    /// One entry per failing house, in placement order; empty whenever
    /// `building_missing` is true.
    pub placement_violations: Vec<PlacementViolation>,
}

/// Whether position `(r, c)` lies on the board and holds grass.
pub open spec fn grass_at(level: Level, r: int, c: int) -> bool {
    0 <= r < level.cells().len() && 0 <= c < level.cells()[r].len() && level.cells()[r][c]
        == CellType::Grass
}

/// Whether a house at `(r, c)` has grass on one of its probed cells.
///
/// The probe offsets are `(+1, 0)`, `(0, 0)`, `(-1, 0)` and `(0, 0)`
/// again: the cell below, the placement's own cell twice, and the cell
/// above.  The two `(0, 0)` probes stand where the horizontal neighbours
/// would; the set is kept exactly as the existing levels were balanced
/// against it.
pub open spec fn house_supported(level: Level, r: int, c: int) -> bool {
    grass_at(level, r + 1, c) || grass_at(level, r, c) || grass_at(level, r - 1, c)
}

/// Whether placement `i` of the list breaks a placement rule.
pub open spec fn violates(level: Level, ps: Seq<Placement>, i: int) -> bool {
    ps[i].building == BuildingType::House && !house_supported(
        level,
        ps[i].row as int,
        ps[i].column as int,
    )
}

/// The violations among the first `n` placements, in placement order.
pub open spec fn spec_violations(level: Level, ps: Seq<Placement>, n: int) -> Seq<
    PlacementViolation,
>
    decreases n,
{
    if n <= 0 {
        Seq::empty()
    } else {
        let pre = spec_violations(level, ps, n - 1);
        if violates(level, ps, n - 1) {
            pre.push(
                PlacementViolation {
                    building_index: (n - 1) as usize,
                    violation: ViolationType::NoGrass,
                },
            )
        } else {
            pre
        }
    }
}

/// What `validate_solution` promises of its result: a count mismatch
/// short-circuits with no placement checks; otherwise the result lists
/// exactly the houses without grass nearby, in placement order.
pub open spec fn validation_of(solution: Solution, level: Level, r: ValidationResult) -> bool {
    let ps = solution.placements@;
    if counts_match(ps, level.spec_building_count()) {
        r.building_missing == false && r.placement_violations@ == spec_violations(
            level,
            ps,
            ps.len() as int,
        )
    } else {
        r.building_missing == true && r.placement_violations@ == Seq::<PlacementViolation>::empty()
    }
}

/// Checks a solution against a puzzle in two short-circuiting stages:
/// first the building tally, then, only if it matches, the grass probe
/// around every house.
pub fn validate_solution(solution: &Solution, level: &Level) -> (r: ValidationResult)
    ensures
        validation_of(*solution, *level, r),
{
    proof {
        use_type_invariant(level);
    }
    let placed = solution.building_counts();
    let required = level.building_count();
    if placed != required {
        return ValidationResult { building_missing: true, placement_violations: Vec::new() };
    }
    let rows = level.rows();
    let columns = level.columns();
    let ghost ps: Seq<Placement> = solution.placements@;
    let mut placement_violations: Vec<PlacementViolation> = Vec::new();
    let mut i: usize = 0;
    while i < solution.placements.len()
        invariant
            i <= ps.len(),
            ps == solution.placements@,
            level.wf(),
            rows == level.cells().len(),
            columns == level.cells()[0].len(),
            placement_violations@ == spec_violations(*level, ps, i as int),
        decreases ps.len() - i,
    {
        let p = solution.placements[i];
        if p.building == BuildingType::House {
            let mut found_grass = false;
            if p.row < rows - 1 && p.column < columns {
                if level.cell(p.row + 1, p.column) == CellType::Grass {
                    found_grass = true;
                }
            }
            if !found_grass && p.row < rows && p.column < columns {
                if level.cell(p.row, p.column) == CellType::Grass {
                    found_grass = true;
                }
            }
            if !found_grass && p.row >= 1 && p.row - 1 < rows && p.column < columns {
                if level.cell(p.row - 1, p.column) == CellType::Grass {
                    found_grass = true;
                }
            }
            proof {
                assert(found_grass == house_supported(*level, p.row as int, p.column as int));
            }
            if !found_grass {
                placement_violations.push(
                    PlacementViolation { building_index: i, violation: ViolationType::NoGrass },
                );
            }
        }
        i += 1;
    }
    ValidationResult { building_missing: false, placement_violations }
}

/// Law: validation is a pure function of its two inputs.  Any two
/// results the validator's contract admits for the same solution and
/// level agree on the count verdict and on the violation list, so
/// repeating a validation can never change the outcome.
pub proof fn lemma_validation_deterministic(
    solution: Solution,
    level: Level,
    r1: ValidationResult,
    r2: ValidationResult,
)
    requires
        validation_of(solution, level, r1),
        validation_of(solution, level, r2),
    ensures
        r1.building_missing == r2.building_missing,
        r1.placement_violations@ == r2.placement_violations@,
{
}

} // verus!
