use crate::building::{BuildingCounts, BuildingType};
use crate::cell::CellType;
use crate::error::LevelError;
use crate::level::{field_from_size, grid_dims_ok, grid_view, Level};
use crate::solution::{
    parse_solution, rows_bytes, spec_parse_row, spec_parse_rows, Placement, Solution,
};
use vstd::prelude::*;
use vstd::utf8::{encode_utf8, is_ascii_chars, is_ascii_chars_encode_utf8};

verus! {

/// The first sample puzzle: a 3x3 all-grass board asking for five houses
/// and one trash site, paired with its reference solution.
pub fn first_level() -> (r: (Level, Solution))
    ensures
        r.0.spec_building_count() == (BuildingCounts { house: 5, trash: 1, hermit: 0 }),
        r.0.cells().len() == 3,
        forall|i: int| 0 <= i < 3 ==> (#[trigger] r.0.cells()[i]).len() == 3,
        forall|i: int, j: int| 0 <= i < 3 && 0 <= j < 3 ==> r.0.cells()[i][j] == CellType::Grass,
        r.1.placements@ == seq![
            (Placement { building: BuildingType::House, row: 0, column: 0 }),
            (Placement { building: BuildingType::Trash, row: 0, column: 2 }),
            (Placement { building: BuildingType::House, row: 1, column: 0 }),
            (Placement { building: BuildingType::House, row: 1, column: 1 }),
            (Placement { building: BuildingType::House, row: 2, column: 1 }),
            (Placement { building: BuildingType::House, row: 2, column: 2 }),
        ],
{
    let field = field_from_size(3, 3);
    proof {
        assert(grid_dims_ok(grid_view(field@)));
    }
    let level = match Level::new(BuildingCounts { house: 5, trash: 1, hermit: 0 }, field) {
        Ok(l) => l,
        Err(_) => unreached(),
    };
    let mut rows_text: Vec<&str> = Vec::new();
    rows_text.push("1gT");
    rows_text.push("11g");
    rows_text.push("g11");
    let ghost rows: Seq<Seq<u8>> = rows_bytes(rows_text@);
    proof {
        reveal_strlit("1gT");
        reveal_strlit("11g");
        reveal_strlit("g11");
        assert(is_ascii_chars("1gT"@));
        assert(is_ascii_chars("11g"@));
        assert(is_ascii_chars("g11"@));
        is_ascii_chars_encode_utf8("1gT"@);
        is_ascii_chars_encode_utf8("11g"@);
        is_ascii_chars_encode_utf8("g11"@);
        let b0 = encode_utf8("1gT"@);
        let b1 = encode_utf8("11g"@);
        let b2 = encode_utf8("g11"@);
        assert(rows.len() == 3);
        assert(rows[0] == b0 && rows[1] == b1 && rows[2] == b2);
        assert(b0.len() == 3 && b0[0] == 49u8 && b0[1] == 103u8 && b0[2] == 84u8);
        assert(b1.len() == 3 && b1[0] == 49u8 && b1[1] == 49u8 && b1[2] == 103u8);
        assert(b2.len() == 3 && b2[0] == 103u8 && b2[1] == 49u8 && b2[2] == 49u8);
        let p1 = Placement { building: BuildingType::House, row: 0, column: 0 };
        let p2 = Placement { building: BuildingType::Trash, row: 0, column: 2 };
        let p3 = Placement { building: BuildingType::House, row: 1, column: 0 };
        let p4 = Placement { building: BuildingType::House, row: 1, column: 1 };
        let p5 = Placement { building: BuildingType::House, row: 2, column: 1 };
        let p6 = Placement { building: BuildingType::House, row: 2, column: 2 };
        assert(seq![p1].push(p2) =~= seq![p1, p2]);
        assert(seq![p3].push(p4) =~= seq![p3, p4]);
        assert(seq![p5].push(p6) =~= seq![p5, p6]);
        assert(spec_parse_row(b0, 0, 0) == Ok::<Seq<Placement>, LevelError>(Seq::empty()));
        assert(spec_parse_row(b0, 0, 1) == Ok::<Seq<Placement>, LevelError>(seq![p1]));
        assert(spec_parse_row(b0, 0, 2) == Ok::<Seq<Placement>, LevelError>(seq![p1]));
        assert(spec_parse_row(b0, 0, 3) == Ok::<Seq<Placement>, LevelError>(seq![p1, p2]));
        assert(spec_parse_row(b1, 1, 0) == Ok::<Seq<Placement>, LevelError>(Seq::empty()));
        assert(spec_parse_row(b1, 1, 1) == Ok::<Seq<Placement>, LevelError>(seq![p3]));
        assert(spec_parse_row(b1, 1, 2) == Ok::<Seq<Placement>, LevelError>(seq![p3, p4]));
        assert(spec_parse_row(b1, 1, 3) == Ok::<Seq<Placement>, LevelError>(seq![p3, p4]));
        assert(spec_parse_row(b2, 2, 0) == Ok::<Seq<Placement>, LevelError>(Seq::empty()));
        assert(spec_parse_row(b2, 2, 1) == Ok::<Seq<Placement>, LevelError>(Seq::empty()));
        assert(spec_parse_row(b2, 2, 2) == Ok::<Seq<Placement>, LevelError>(seq![p5]));
        assert(spec_parse_row(b2, 2, 3) == Ok::<Seq<Placement>, LevelError>(seq![p5, p6]));
        assert(spec_parse_rows(rows, 0) == Ok::<Seq<Placement>, LevelError>(Seq::empty()));
        assert(Seq::<Placement>::empty() + seq![p1, p2] =~= seq![p1, p2]);
        assert(spec_parse_rows(rows, 1) == Ok::<Seq<Placement>, LevelError>(seq![p1, p2]));
        assert(seq![p1, p2] + seq![p3, p4] =~= seq![p1, p2, p3, p4]);
        assert(spec_parse_rows(rows, 2) == Ok::<Seq<Placement>, LevelError>(
            seq![p1, p2, p3, p4],
        ));
        assert(seq![p1, p2, p3, p4] + seq![p5, p6] =~= seq![p1, p2, p3, p4, p5, p6]);
        assert(spec_parse_rows(rows, 3) == Ok::<Seq<Placement>, LevelError>(
            seq![p1, p2, p3, p4, p5, p6],
        ));
    }
    let solution = match parse_solution(rows_text) {
        Ok(s) => s,
        Err(_) => unreached(),
    };
    (level, solution)
}

/// The second sample puzzle: a 3x3 all-grass board asking for four houses
/// and four hermits, paired with its reference solution.
pub fn second_level() -> (r: (Level, Solution))
    ensures
        r.0.spec_building_count() == (BuildingCounts { house: 4, trash: 0, hermit: 4 }),
        r.0.cells().len() == 3,
        forall|i: int| 0 <= i < 3 ==> (#[trigger] r.0.cells()[i]).len() == 3,
        forall|i: int, j: int| 0 <= i < 3 && 0 <= j < 3 ==> r.0.cells()[i][j] == CellType::Grass,
        r.1.placements@ == seq![
            (Placement { building: BuildingType::Hermit, row: 0, column: 0 }),
            (Placement { building: BuildingType::House, row: 0, column: 1 }),
            (Placement { building: BuildingType::Hermit, row: 0, column: 2 }),
            (Placement { building: BuildingType::House, row: 1, column: 0 }),
            (Placement { building: BuildingType::House, row: 1, column: 2 }),
            (Placement { building: BuildingType::Hermit, row: 2, column: 0 }),
            (Placement { building: BuildingType::House, row: 2, column: 1 }),
            (Placement { building: BuildingType::Hermit, row: 2, column: 2 }),
        ],
{
    let field = field_from_size(3, 3);
    proof {
        assert(grid_dims_ok(grid_view(field@)));
    }
    let level = match Level::new(BuildingCounts { house: 4, trash: 0, hermit: 4 }, field) {
        Ok(l) => l,
        Err(_) => unreached(),
    };
    let mut rows_text: Vec<&str> = Vec::new();
    rows_text.push("H1H");
    rows_text.push("1g1");
    rows_text.push("H1H");
    let ghost rows: Seq<Seq<u8>> = rows_bytes(rows_text@);
    proof {
        reveal_strlit("H1H");
        reveal_strlit("1g1");
        assert(is_ascii_chars("H1H"@));
        assert(is_ascii_chars("1g1"@));
        is_ascii_chars_encode_utf8("H1H"@);
        is_ascii_chars_encode_utf8("1g1"@);
        let b0 = encode_utf8("H1H"@);
        let b1 = encode_utf8("1g1"@);
        assert(rows.len() == 3);
        assert(rows[0] == b0 && rows[1] == b1 && rows[2] == b0);
        assert(b0.len() == 3 && b0[0] == 72u8 && b0[1] == 49u8 && b0[2] == 72u8);
        assert(b1.len() == 3 && b1[0] == 49u8 && b1[1] == 103u8 && b1[2] == 49u8);
        let p1 = Placement { building: BuildingType::Hermit, row: 0, column: 0 };
        let p2 = Placement { building: BuildingType::House, row: 0, column: 1 };
        let p3 = Placement { building: BuildingType::Hermit, row: 0, column: 2 };
        let p4 = Placement { building: BuildingType::House, row: 1, column: 0 };
        let p5 = Placement { building: BuildingType::House, row: 1, column: 2 };
        let p6 = Placement { building: BuildingType::Hermit, row: 2, column: 0 };
        let p7 = Placement { building: BuildingType::House, row: 2, column: 1 };
        let p8 = Placement { building: BuildingType::Hermit, row: 2, column: 2 };
        assert(seq![p1].push(p2) =~= seq![p1, p2]);
        assert(seq![p1, p2].push(p3) =~= seq![p1, p2, p3]);
        assert(seq![p4].push(p5) =~= seq![p4, p5]);
        assert(seq![p6].push(p7) =~= seq![p6, p7]);
        assert(seq![p6, p7].push(p8) =~= seq![p6, p7, p8]);
        assert(spec_parse_row(b0, 0, 0) == Ok::<Seq<Placement>, LevelError>(Seq::empty()));
        assert(spec_parse_row(b0, 0, 1) == Ok::<Seq<Placement>, LevelError>(seq![p1]));
        assert(spec_parse_row(b0, 0, 2) == Ok::<Seq<Placement>, LevelError>(seq![p1, p2]));
        assert(spec_parse_row(b0, 0, 3) == Ok::<Seq<Placement>, LevelError>(seq![p1, p2, p3]));
        assert(spec_parse_row(b1, 1, 0) == Ok::<Seq<Placement>, LevelError>(Seq::empty()));
        assert(spec_parse_row(b1, 1, 1) == Ok::<Seq<Placement>, LevelError>(seq![p4]));
        assert(spec_parse_row(b1, 1, 2) == Ok::<Seq<Placement>, LevelError>(seq![p4]));
        assert(spec_parse_row(b1, 1, 3) == Ok::<Seq<Placement>, LevelError>(seq![p4, p5]));
        assert(spec_parse_row(b0, 2, 0) == Ok::<Seq<Placement>, LevelError>(Seq::empty()));
        assert(spec_parse_row(b0, 2, 1) == Ok::<Seq<Placement>, LevelError>(seq![p6]));
        assert(spec_parse_row(b0, 2, 2) == Ok::<Seq<Placement>, LevelError>(seq![p6, p7]));
        assert(spec_parse_row(b0, 2, 3) == Ok::<Seq<Placement>, LevelError>(seq![p6, p7, p8]));
        assert(spec_parse_rows(rows, 0) == Ok::<Seq<Placement>, LevelError>(Seq::empty()));
        assert(Seq::<Placement>::empty() + seq![p1, p2, p3] =~= seq![p1, p2, p3]);
        assert(spec_parse_rows(rows, 1) == Ok::<Seq<Placement>, LevelError>(seq![p1, p2, p3]));
        assert(seq![p1, p2, p3] + seq![p4, p5] =~= seq![p1, p2, p3, p4, p5]);
        assert(spec_parse_rows(rows, 2) == Ok::<Seq<Placement>, LevelError>(
            seq![p1, p2, p3, p4, p5],
        ));
        assert(seq![p1, p2, p3, p4, p5] + seq![p6, p7, p8] =~= seq![
            p1,
            p2,
            p3,
            p4,
            p5,
            p6,
            p7,
            p8,
        ]);
        assert(spec_parse_rows(rows, 3) == Ok::<Seq<Placement>, LevelError>(
            seq![p1, p2, p3, p4, p5, p6, p7, p8],
        ));
    }
    let solution = match parse_solution(rows_text) {
        Ok(s) => s,
        Err(_) => unreached(),
    };
    (level, solution)
}

} // verus!
