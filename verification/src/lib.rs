//! Core of a grid-placement puzzle game.
//!
//! A [`Level`] is an immutable rectangular board of terrain cells together
//! with the number of buildings of each kind the player must place.  A
//! [`Solution`] is an ordered list of placements, obtained by parsing a
//! textual grid.  [`validate_solution`] reconciles the placed buildings
//! against the required counts and then checks each house's surroundings,
//! reporting the outcome as a [`ValidationResult`].

mod building;
mod cell;
mod error;
mod level;
mod levels;
mod solution;
mod text;
mod validate;

pub use building::{
    building_encoding, decoded_building, lemma_building_encoding_round_trip, BuildingCounts,
    BuildingType, HERMIT_ENCODING, HOUSE_ENCODING, TRASH_ENCODING,
};
pub use cell::{cell_encoding, CellType};
pub use error::LevelError;
pub use level::{
    cell_byte, field_from_size, grid_dims_ok, grid_view, spec_count_line, spec_render,
    spec_render_counts, spec_render_grid, spec_render_row_prefix, Level,
};
pub use levels::{first_level, second_level};
pub use text::{dec_digits, COLON, NEWLINE};
pub use solution::{
    counts_match, is_background, lemma_background_rows_parse_empty, parse_post, parse_solution,
    placed_count, rows_bytes, spec_parse_row, spec_parse_rows, Placement, Solution, DOT_MARKER,
    GRASS_MARKER, HOLE_MARKER,
};
pub use validate::{
    grass_at, house_supported, lemma_validation_deterministic, spec_violations, validate_solution,
    validation_of, violates, PlacementViolation, ValidationResult, ViolationType,
};
