use crate::error::LevelError;
use vstd::prelude::*;

verus! {

/// The byte `'1'`, the textual encoding of a house.
pub const HOUSE_ENCODING: u8 = 49;

/// The byte `'T'`, the textual encoding of a trash site.
pub const TRASH_ENCODING: u8 = 84;

/// The byte `'H'`, the textual encoding of a hermit.
pub const HERMIT_ENCODING: u8 = 72;

/// The closed set of building kinds a puzzle can require.
#[derive(Debug, PartialEq, Eq, Structural, Hash, Clone, Copy)]
pub enum BuildingType {
    House,
    Trash,
    Hermit,
}

/// The single-byte encoding of each building kind.
pub open spec fn building_encoding(b: BuildingType) -> u8 {
    match b {
        BuildingType::House => HOUSE_ENCODING,
        BuildingType::Trash => TRASH_ENCODING,
        BuildingType::Hermit => HERMIT_ENCODING,
    }
}

/// The building kind a byte decodes to, if any.
pub open spec fn decoded_building(c: u8) -> Option<BuildingType> {
    if c == HOUSE_ENCODING {
        Some(BuildingType::House)
    } else if c == TRASH_ENCODING {
        Some(BuildingType::Trash)
    } else if c == HERMIT_ENCODING {
        Some(BuildingType::Hermit)
    } else {
        None
    }
}

impl BuildingType {
    /// The byte this building kind is written as in a textual grid.
    pub fn to_char(&self) -> (r: u8)
        ensures
            r == building_encoding(*self),
    {
        match self {
            BuildingType::House => HOUSE_ENCODING,
            BuildingType::Trash => TRASH_ENCODING,
            BuildingType::Hermit => HERMIT_ENCODING,
        }
    }

    /// Decodes a byte back into a building kind; any byte outside the
    /// encoding is rejected as `UnknownBuildingEncoding`.
    pub fn from_char(c: u8) -> (r: Result<BuildingType, LevelError>)
        ensures
            (match decoded_building(c) {
                Some(b) => r == Ok::<BuildingType, LevelError>(b),
                None => r == Err::<BuildingType, LevelError>(
                    LevelError::UnknownBuildingEncoding(c),
                ),
            }),
    {
        if c == HOUSE_ENCODING {
            Ok(BuildingType::House)
        } else if c == TRASH_ENCODING {
            Ok(BuildingType::Trash)
        } else if c == HERMIT_ENCODING {
            Ok(BuildingType::Hermit)
        } else {
            Err(LevelError::UnknownBuildingEncoding(c))
        }
    }
}

/// Law: decoding the encoding of any building kind gives that kind back.
pub proof fn lemma_building_encoding_round_trip(b: BuildingType)
    ensures
        decoded_building(building_encoding(b)) == Some(b),
{
}

/// How many buildings of each kind a puzzle requires, or a solution places.
///
/// A count of zero means the kind does not occur at all, so two values of
/// this type agree exactly when the two tallies they stand for agree on
/// every building kind.
#[derive(Debug, PartialEq, Eq, Structural, Clone, Copy)]
pub struct BuildingCounts {
    pub house: usize,
    pub trash: usize,
    pub hermit: usize,
}

impl BuildingCounts {
    /// The count recorded for one building kind.
    pub open spec fn spec_count(self, b: BuildingType) -> usize {
        match b {
            BuildingType::House => self.house,
            BuildingType::Trash => self.trash,
            BuildingType::Hermit => self.hermit,
        }
    }

    /// Reads the count recorded for one building kind.
    pub fn count(&self, b: BuildingType) -> (r: usize)
        ensures
            r == self.spec_count(b),
    {
        match b {
            BuildingType::House => self.house,
            BuildingType::Trash => self.trash,
            BuildingType::Hermit => self.hermit,
        }
    }
}

} // verus!
