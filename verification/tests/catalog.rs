use grid_puzzle::{BuildingCounts, BuildingType, CellType, LevelError};

#[test]
fn building_to_char_values() {
    assert_eq!(BuildingType::House.to_char(), b'1');
    assert_eq!(BuildingType::Trash.to_char(), b'T');
    assert_eq!(BuildingType::Hermit.to_char(), b'H');
}

#[test]
fn building_from_char_values() {
    assert_eq!(BuildingType::from_char(b'1'), Ok(BuildingType::House));
    assert_eq!(BuildingType::from_char(b'T'), Ok(BuildingType::Trash));
    assert_eq!(BuildingType::from_char(b'H'), Ok(BuildingType::Hermit));
}

#[test]
fn building_round_trip() {
    for b in [BuildingType::House, BuildingType::Trash, BuildingType::Hermit] {
        assert_eq!(BuildingType::from_char(b.to_char()), Ok(b));
    }
}

#[test]
fn building_from_char_rejects_unknown() {
    assert_eq!(
        BuildingType::from_char(b'z'),
        Err(LevelError::UnknownBuildingEncoding(b'z'))
    );
    assert_eq!(
        BuildingType::from_char(b'.'),
        Err(LevelError::UnknownBuildingEncoding(b'.'))
    );
    assert_eq!(
        BuildingType::from_char(0),
        Err(LevelError::UnknownBuildingEncoding(0))
    );
}

#[test]
fn cell_to_char_values() {
    assert_eq!(CellType::Grass.to_char(), 'g');
    assert_eq!(CellType::Hole.to_char(), 'x');
}

#[test]
fn building_counts_lookup() {
    let counts = BuildingCounts { house: 5, trash: 1, hermit: 0 };
    assert_eq!(counts.count(BuildingType::House), 5);
    assert_eq!(counts.count(BuildingType::Trash), 1);
    assert_eq!(counts.count(BuildingType::Hermit), 0);
}
