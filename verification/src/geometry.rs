//! The geometry engine: a pure function from (reference rectangle, floating
//! element size, placement options) to the floating element's top-left
//! coordinate, together with an echo of the requested placement.
//!
//! The side decides the primary axis (vertical for Top/Bottom, horizontal
//! for Left/Right) and which edge of the reference the floating element is
//! flush against; `side_offset` pushes it further away along that axis. The
//! alignment decides the coordinate on the perpendicular (cross) axis;
//! `align_offset` shifts it there. All arithmetic is exact and unclamped.

use vstd::prelude::*;

use crate::coord::Coord;
use crate::coord::in_bounds;

verus! {

/// The side of the reference element the floating element is anchored to.
#[derive(Clone, Copy, Debug, PartialEq, Eq, Structural)]
pub enum Side {
    Top,
    Right,
    Bottom,
    Left,
}

/// Position along the cross axis (the axis perpendicular to the side).
#[derive(Clone, Copy, Debug, PartialEq, Eq, Structural)]
pub enum Align {
    Start,
    Center,
    End,
}

/// Placement options. Offsets are in whole pixels; any value is accepted and
/// applies linearly (a negative offset pushes the opposite way).
#[derive(Clone, Copy, Debug, PartialEq, Eq, Structural)]
pub struct FloatingOptions {
    pub side: Side,
    pub align: Align,
    pub side_offset: i64,
    pub align_offset: i64,
}

impl Default for FloatingOptions {
    /// Defaults: below the reference, aligned to its start, no offsets.
    fn default() -> (r: Self)
        ensures
            r.side == Side::Bottom,
            r.align == Align::Start,
            r.side_offset == 0,
            r.align_offset == 0,
    {
        FloatingOptions {
            side: Side::Bottom,
            align: Align::Start,
            side_offset: 0,
            align_offset: 0,
        }
    }
}

/// Calculated position for a floating element. `side` and `align` echo the
/// options that produced it; they are never recomputed.
#[derive(Clone, Copy, Debug, PartialEq, Eq, Structural)]
pub struct FloatingPosition {
    pub x: Coord,
    pub y: Coord,
    pub side: Side,
    pub align: Align,
}

/// Whether the primary axis for this side is the vertical one. If it is, the
/// cross axis is horizontal, and conversely.
pub open spec fn vertical_primary(side: Side) -> bool {
    side == Side::Top || side == Side::Bottom
}

/// Direction the floating element moves along the primary axis as
/// `side_offset` grows: toward smaller coordinates for Top and Left, toward
/// larger ones for Bottom and Right.
pub open spec fn away_sign(side: Side) -> int {
    match side {
        Side::Top => -1,
        Side::Left => -1,
        Side::Bottom => 1,
        Side::Right => 1,
    }
}

/// The floating element's coordinate on the primary axis, in half pixels:
/// flush against the chosen edge of the reference, displaced by
/// `side_offset` away from it.
pub open spec fn primary_halves(rx: int, ry: int, rw: int, rh: int, o: FloatingOptions) -> int {
    match o.side {
        Side::Top => 2 * (ry - o.side_offset),
        Side::Bottom => 2 * (ry + rh + o.side_offset),
        Side::Left => 2 * (rx - o.side_offset),
        Side::Right => 2 * (rx + rw + o.side_offset),
    }
}

/// The reference's origin on the cross axis: x when the primary axis is
/// vertical, y when it is horizontal.
pub open spec fn cross_origin(rx: int, ry: int, side: Side) -> int {
    if vertical_primary(side) {
        rx
    } else {
        ry
    }
}

/// The reference's extent measured along the cross axis.
pub open spec fn ref_cross_extent(rw: int, rh: int, side: Side) -> int {
    if vertical_primary(side) {
        rw
    } else {
        rh
    }
}

/// The floating element's extent measured along the cross axis.
pub open spec fn float_cross_extent(fw: int, fh: int, side: Side) -> int {
    if vertical_primary(side) {
        fw
    } else {
        fh
    }
}

/// Alignment shift on the cross axis, in half pixels, given the reference
/// and floating extents along that axis (in pixels). Center halves the
/// difference exactly — in half pixels, that is the difference itself.
pub open spec fn align_shift_halves(re: int, fe: int, align: Align) -> int {
    match align {
        Align::Start => 0,
        Align::Center => re - fe,
        Align::End => 2 * (re - fe),
    }
}

/// The floating element's coordinate on the cross axis, in half pixels:
/// the reference's cross-axis origin, plus the alignment shift, plus
/// `align_offset`.
pub open spec fn cross_halves(rx: int, ry: int, rw: int, rh: int, fw: int, fh: int, o: FloatingOptions) -> int {
    2 * (cross_origin(rx, ry, o.side) + o.align_offset) + align_shift_halves(
        ref_cross_extent(rw, rh, o.side),
        float_cross_extent(fw, fh, o.side),
        o.align,
    )
}

/// The resulting x coordinate in half pixels: the cross-axis coordinate for
/// Top/Bottom, the primary-axis coordinate for Left/Right.
pub open spec fn position_x_halves(rx: int, ry: int, rw: int, rh: int, fw: int, fh: int, o: FloatingOptions) -> int {
    if vertical_primary(o.side) {
        cross_halves(rx, ry, rw, rh, fw, fh, o)
    } else {
        primary_halves(rx, ry, rw, rh, o)
    }
}

/// The resulting y coordinate in half pixels: the primary-axis coordinate
/// for Top/Bottom, the cross-axis coordinate for Left/Right.
pub open spec fn position_y_halves(rx: int, ry: int, rw: int, rh: int, fw: int, fh: int, o: FloatingOptions) -> int {
    if vertical_primary(o.side) {
        primary_halves(rx, ry, rw, rh, o)
    } else {
        cross_halves(rx, ry, rw, rh, fw, fh, o)
    }
}

/// Holds of options the engine accepts: offsets within the machine bound.
pub open spec fn options_in_bounds(o: FloatingOptions) -> bool {
    in_bounds(o.side_offset as int) && in_bounds(o.align_offset as int)
}

/// Calculate the position of a floating element from the reference
/// element's bounding rectangle, the floating element's size, and the
/// placement options. Every input produces a position: the `Option` is
/// always `Some`, and the coordinates are the exact unclamped formulas of
/// [`position_x_halves`] and [`position_y_halves`].
pub fn calculate_position_from_rect(
    reference_x: i64,
    reference_y: i64,
    reference_width: i64,
    reference_height: i64,
    floating_width: i64,
    floating_height: i64,
    options: FloatingOptions,
) -> (r: Option<FloatingPosition>)
    requires
        in_bounds(reference_x as int),
        in_bounds(reference_y as int),
        in_bounds(reference_width as int),
        in_bounds(reference_height as int),
        in_bounds(floating_width as int),
        in_bounds(floating_height as int),
        options_in_bounds(options),
    ensures
        ({
            &&& r matches Some(p)
            &&& p.x.as_halves() == position_x_halves(
                reference_x as int,
                reference_y as int,
                reference_width as int,
                reference_height as int,
                floating_width as int,
                floating_height as int,
                options,
            )
            &&& p.y.as_halves() == position_y_halves(
                reference_x as int,
                reference_y as int,
                reference_width as int,
                reference_height as int,
                floating_width as int,
                floating_height as int,
                options,
            )
            &&& p.side == options.side
            &&& p.align == options.align
        }),
{
    // Coordinate of the edge the floating element hangs off, pushed away by
    // the side offset, in half pixels.
    let primary: i64 = match options.side {
        Side::Top => 2 * (reference_y - options.side_offset),
        Side::Bottom => 2 * (reference_y + reference_height + options.side_offset),
        Side::Left => 2 * (reference_x - options.side_offset),
        Side::Right => 2 * (reference_x + reference_width + options.side_offset),
    };

    let vertical = matches!(options.side, Side::Top | Side::Bottom);

    // Extents along the cross axis, and the reference's origin there.
    let (origin, ref_extent, float_extent): (i64, i64, i64) = if vertical {
        (reference_x, reference_width, floating_width)
    } else {
        (reference_y, reference_height, floating_height)
    };

    // Alignment shift in half pixels: centering halves the pixel difference,
    // which in half pixels is the difference itself.
    let shift: i64 = match options.align {
        Align::Start => 0,
        Align::Center => ref_extent - float_extent,
        Align::End => 2 * (ref_extent - float_extent),
    };

    let cross: i64 = 2 * (origin + options.align_offset) + shift;

    let (x, y) = if vertical {
        (Coord { halves: cross }, Coord { halves: primary })
    } else {
        (Coord { halves: primary }, Coord { halves: cross })
    };

    Some(FloatingPosition { x, y, side: options.side, align: options.align })
}

} // verus!
