//! A terminal "metaball" scene: several circular influence sources are
//! blended additively into a scalar field sampled on a character grid, and
//! the samples are quantized to glyphs under one of five render styles.
//!
//! All geometry and field arithmetic is fixed-point: coordinates, radii,
//! field values and simulated time are integers in units of one
//! thousandth (`MILLI`) of a grid cell / second. Squared distances are in
//! millionths of a grid cell squared.
use vstd::prelude::*;

pub mod field;
pub mod glyph;
pub mod motion;
pub mod scene;
pub mod style;
pub mod trig;

verus! {

/// Number of glyph columns in a frame.
pub const GRID_WIDTH: usize = 80;

/// Number of glyph rows in a frame.
pub const GRID_HEIGHT: usize = 35;

/// Fixed-point scale: one grid unit (or one second) is this many ticks.
pub const MILLI: i64 = 1000;

/// Field threshold separating "inside" from "outside", in milli units
/// (the value 1.0).
pub const FIELD_THRESHOLD_MILLI: i64 = 1000;

/// Horizontal distances are divided by this factor before use, correcting
/// for character cells being taller than they are wide.
pub const ASPECT_RATIO_DIVISOR: i64 = 2;

/// Squared distances below this bound (in micro units, i.e. 1e-4 grid
/// units squared) count as "at the source center".
pub const EPSILON_DIST_SQ_MICRO: i64 = 100;

/// Influence reported for a query point essentially at a source center,
/// in milli units (the value 1000.0).
pub const SENTINEL_INFLUENCE_MILLI: i64 = 1000000;

/// Simulated time a render style stays active before the scene cycles to
/// the next one, in milliseconds (5 seconds).
pub const STYLE_DWELL_MILLI: i64 = 5000;

/// Sub-pixel sampling offset used by the blocks style, in milli units
/// (half a cell).
pub const SUBPIXEL_OFFSET_MILLI: i64 = 500;

/// Largest coordinate magnitude (milli units) the field arithmetic is
/// proved free of overflow for.
pub const COORD_LIMIT_MILLI: i64 = 1000000;

/// Largest source radius (milli units) the field arithmetic is proved
/// free of overflow for.
pub const RADIUS_LIMIT_MILLI: i64 = 100000;

/// Upper bound on the influence of a single source anywhere, in milli
/// units; holds under the coordinate and radius limits above.
pub const INFLUENCE_LIMIT_MILLI: i64 = 100000000000;

/// Upper bound on the number of sources a field may sum over.
pub const MAX_SOURCE_COUNT: usize = 1000;

/// Upper bound on the total field anywhere, in milli units.
pub const FIELD_LIMIT_MILLI: i64 = 100000000000000;

/// Largest simulated time (milliseconds) the animation arithmetic is
/// proved free of overflow for: roughly 31 simulated years.
pub const TIME_LIMIT_MILLI: i64 = 1000000000000;

} // verus!
