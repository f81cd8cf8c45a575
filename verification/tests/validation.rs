use grid_puzzle::{
    field_from_size, first_level, parse_solution, second_level, validate_solution,
    BuildingCounts, BuildingType, CellType, Level, LevelError, ViolationType,
};

#[test]
fn level_new_accepts_rectangular_grid() {
    let counts = BuildingCounts { house: 1, trash: 0, hermit: 0 };
    let level = Level::new(counts, field_from_size(2, 4)).unwrap();
    assert_eq!(level.rows(), 2);
    assert_eq!(level.columns(), 4);
    assert_eq!(level.building_count(), counts);
    assert_eq!(level.cell(1, 3), CellType::Grass);
}

#[test]
fn level_new_rejects_no_rows() {
    let counts = BuildingCounts { house: 0, trash: 0, hermit: 0 };
    assert_eq!(
        Level::new(counts, Vec::new()).unwrap_err(),
        LevelError::MalformedGrid
    );
}

#[test]
fn level_new_rejects_empty_first_row() {
    let counts = BuildingCounts { house: 0, trash: 0, hermit: 0 };
    assert_eq!(
        Level::new(counts, field_from_size(3, 0)).unwrap_err(),
        LevelError::MalformedGrid
    );
}

#[test]
fn level_new_rejects_ragged_rows() {
    let counts = BuildingCounts { house: 0, trash: 0, hermit: 0 };
    let mut field = field_from_size(2, 3);
    field[1].pop();
    assert_eq!(Level::new(counts, field).unwrap_err(), LevelError::MalformedGrid);
}

#[test]
fn first_level_solution_is_valid() {
    let (level, solution) = first_level();
    let result = validate_solution(&solution, &level);
    assert!(!result.building_missing);
    assert!(result.placement_violations.is_empty());
}

#[test]
fn second_level_solution_is_valid() {
    let (level, solution) = second_level();
    let result = validate_solution(&solution, &level);
    assert!(!result.building_missing);
    assert!(result.placement_violations.is_empty());
}

#[test]
fn count_mismatch_short_circuits() {
    let (level, _) = first_level();
    // Four houses and one trash site instead of the required five houses.
    let short = parse_solution(vec!["1gT", "11g", "g1."]).unwrap();
    let result = validate_solution(&short, &level);
    assert!(result.building_missing);
    assert!(result.placement_violations.is_empty());
}

#[test]
fn surplus_building_kind_is_a_mismatch() {
    let (level, _) = first_level();
    // Right number of houses, but a hermit the level never asked for.
    let wrong = parse_solution(vec!["1HT", "11g", "g11"]).unwrap();
    let result = validate_solution(&wrong, &level);
    assert!(result.building_missing);
    assert!(result.placement_violations.is_empty());
}

#[test]
fn house_without_grass_is_reported() {
    let grass = CellType::Grass;
    let hole = CellType::Hole;
    let field = vec![
        vec![grass, hole, grass],
        vec![hole, hole, hole],
        vec![grass, hole, grass],
    ];
    let counts = BuildingCounts { house: 1, trash: 1, hermit: 0 };
    let level = Level::new(counts, field).unwrap();
    let solution = parse_solution(vec!["g.T", "x1x", "..."]).unwrap();
    let result = validate_solution(&solution, &level);
    assert!(!result.building_missing);
    assert_eq!(result.placement_violations.len(), 1);
    assert_eq!(result.placement_violations[0].building_index, 1);
    assert_eq!(
        result.placement_violations[0].violation,
        ViolationType::NoGrass
    );
}

#[test]
fn houses_bunched_on_grass_pass() {
    // Both houses sit on grass themselves, which the probe set accepts.
    let counts = BuildingCounts { house: 2, trash: 0, hermit: 0 };
    let level = Level::new(counts, field_from_size(1, 2)).unwrap();
    let solution = parse_solution(vec!["11"]).unwrap();
    let result = validate_solution(&solution, &level);
    assert!(!result.building_missing);
    assert!(result.placement_violations.is_empty());
}

#[test]
fn hermits_are_not_checked_for_grass() {
    let counts = BuildingCounts { house: 0, trash: 0, hermit: 1 };
    let field = vec![vec![CellType::Hole]];
    let level = Level::new(counts, field).unwrap();
    let solution = parse_solution(vec!["H"]).unwrap();
    let result = validate_solution(&solution, &level);
    assert!(!result.building_missing);
    assert!(result.placement_violations.is_empty());
}

#[test]
fn validation_is_idempotent() {
    let (level, solution) = first_level();
    let first = validate_solution(&solution, &level);
    let second = validate_solution(&solution, &level);
    assert_eq!(first, second);

    let (level2, _) = first_level();
    let short = parse_solution(vec!["1gT", "11g", "g1."]).unwrap();
    let third = validate_solution(&short, &level2);
    let fourth = validate_solution(&short, &level2);
    assert_eq!(third, fourth);
}

#[test]
fn solution_building_counts_tally() {
    let (_, solution) = second_level();
    assert_eq!(
        solution.building_counts(),
        BuildingCounts { house: 4, trash: 0, hermit: 4 }
    );
}

#[test]
fn render_shows_grid_and_counts() {
    let (level, _) = first_level();
    assert_eq!(level.render(), "ggg\nggg\nggg\n1:5\nT:1\n");
}

#[test]
fn render_shows_holes_and_multi_digit_counts() {
    let counts = BuildingCounts { house: 12, trash: 0, hermit: 3 };
    let field = vec![vec![CellType::Grass, CellType::Hole]];
    let level = Level::new(counts, field).unwrap();
    assert_eq!(level.render(), "gx\n1:12\nH:3\n");
}
