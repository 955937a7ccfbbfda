//! Logical playfield dimensions. Window management, projection fitting
//! and the render passes live with the rendering collaborator; the
//! simulation only needs the logical extent its boundaries clamp to.

use vstd::prelude::*;

verus! {

/// Logical playfield width, in thousandths of a world unit.
pub const LOGICAL_WIDTH: i64 = 1_920_000;

/// Logical playfield height, in thousandths of a world unit.
pub const LOGICAL_HEIGHT: i64 = 1_080_000;

} // verus!
