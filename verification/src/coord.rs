//! Exact coordinate values for the positioning engine.
//!
//! The engine's only non-linear step is halving a difference of two pixel
//! extents (centered alignment), so every coordinate it produces is an
//! integer number of half pixels. [`Coord`] stores exactly that count, which
//! keeps all arithmetic exact: no rounding, no clamping.

use vstd::prelude::*;

verus! {

/// Bound on pixel magnitudes accepted by the engine. It exists only so that
/// the half-pixel arithmetic provably fits in `i64`; it is far beyond any
/// on-screen coordinate.
pub const COORD_LIMIT: i64 = 0x0800_0000_0000_0000;

/// Holds of a pixel value the engine accepts as input.
pub open spec fn in_bounds(v: int) -> bool {
    -COORD_LIMIT <= v <= COORD_LIMIT
}

/// A one-dimensional coordinate, counted in half pixels: the value in pixels
/// is `halves / 2`. Exact for everything the engine computes.
#[derive(Clone, Copy, Debug, PartialEq, Eq, Structural)]
pub struct Coord {
    pub halves: i64,
}

impl Coord {
    /// The coordinate as a count of half pixels.
    pub open spec fn as_halves(self) -> int {
        self.halves as int
    }

    /// The coordinate of a whole-pixel value.
    pub fn from_px(px: i64) -> (c: Coord)
        requires
            in_bounds(px as int),
        ensures
            c.as_halves() == 2 * px,
    {
        Coord { halves: 2 * px }
    }

    /// Whether the coordinate falls on a whole pixel.
    pub fn is_whole_px(self) -> (r: bool)
        ensures
            r == (self.as_halves() % 2 == 0),
    {
        self.halves % 2 == 0
    }
}

/// Initial horizontal coordinate of a floating element before any position
/// has been computed.
#[derive(Clone, Copy, Debug, PartialEq, Eq, Structural)]
pub struct FloatingX(pub Coord);

impl Default for FloatingX {
    /// The initial horizontal coordinate is zero.
    fn default() -> (r: Self)
        ensures
            r.0.as_halves() == 0,
    {
        FloatingX(Coord { halves: 0 })
    }
}

impl From<FloatingX> for Coord {
    fn from(val: FloatingX) -> (c: Coord)
        ensures
            c == val.0,
    {
        val.0
    }
}

impl vstd::std_specs::convert::FromSpecImpl<FloatingX> for Coord {
    open spec fn obeys_from_spec() -> bool {
        true
    }

    open spec fn from_spec(val: FloatingX) -> Coord {
        val.0
    }
}

/// Initial vertical coordinate of a floating element before any position
/// has been computed.
#[derive(Clone, Copy, Debug, PartialEq, Eq, Structural)]
pub struct FloatingY(pub Coord);

impl Default for FloatingY {
    /// The initial vertical coordinate is zero.
    fn default() -> (r: Self)
        ensures
            r.0.as_halves() == 0,
    {
        FloatingY(Coord { halves: 0 })
    }
}

impl From<FloatingY> for Coord {
    fn from(val: FloatingY) -> (c: Coord)
        ensures
            c == val.0,
    {
        val.0
    }
}

impl vstd::std_specs::convert::FromSpecImpl<FloatingY> for Coord {
    open spec fn obeys_from_spec() -> bool {
        true
    }

    open spec fn from_spec(val: FloatingY) -> Coord {
        val.0
    }
}

} // verus!
