use grid_puzzle::{
    field_from_size, parse_solution, BuildingType, CellType, LevelError, Placement,
};

#[test]
fn background_only_rows_parse_to_nothing() {
    let solution = parse_solution(vec![".gx", "x.g", "..."]).unwrap();
    assert!(solution.placements.is_empty());
}

#[test]
fn empty_input_parses_to_nothing() {
    let solution = parse_solution(vec![]).unwrap();
    assert!(solution.placements.is_empty());
}

#[test]
fn parsing_keeps_row_major_order() {
    let solution = parse_solution(vec!["1T", "H1"]).unwrap();
    let expected = vec![
        Placement { building: BuildingType::House, row: 0, column: 0 },
        Placement { building: BuildingType::Trash, row: 0, column: 1 },
        Placement { building: BuildingType::Hermit, row: 1, column: 0 },
        Placement { building: BuildingType::House, row: 1, column: 1 },
    ];
    assert_eq!(solution.placements, expected);
}

#[test]
fn parsing_skips_background_between_buildings() {
    let solution = parse_solution(vec!["g1.", "..T"]).unwrap();
    let expected = vec![
        Placement { building: BuildingType::House, row: 0, column: 1 },
        Placement { building: BuildingType::Trash, row: 1, column: 2 },
    ];
    assert_eq!(solution.placements, expected);
}

#[test]
fn parsing_rejects_unknown_byte() {
    assert_eq!(
        parse_solution(vec!["1z"]).unwrap_err(),
        LevelError::UnknownBuildingEncoding(b'z')
    );
}

#[test]
fn parsing_reports_first_unknown_byte() {
    assert_eq!(
        parse_solution(vec!["g.", "qz"]).unwrap_err(),
        LevelError::UnknownBuildingEncoding(b'q')
    );
}

#[test]
fn sized_field_is_all_grass() {
    let field = field_from_size(2, 3);
    assert_eq!(field.len(), 2);
    for row in &field {
        assert_eq!(row.len(), 3);
        for cell in row {
            assert_eq!(*cell, CellType::Grass);
        }
    }
}
