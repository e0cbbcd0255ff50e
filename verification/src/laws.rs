//! Properties of the geometry engine, stated and proved once over the spec
//! functions that [`crate::geometry::calculate_position_from_rect`]'s
//! contract is written in: the contract determines the result uniquely, the
//! two offsets act on independent axes, and each offset applies linearly in
//! its documented direction, with no clamping.

use vstd::prelude::*;

use crate::geometry::FloatingOptions;
use crate::geometry::FloatingPosition;
use crate::geometry::away_sign;
use crate::geometry::cross_halves;
use crate::geometry::position_x_halves;
use crate::geometry::position_y_halves;
use crate::geometry::primary_halves;
use crate::geometry::vertical_primary;

verus! {

/// The engine is pure: its contract pins the result down completely, so for
/// fixed inputs there is exactly one position satisfying it — repeated
/// invocations cannot differ.
pub proof fn lemma_position_unique(
    p1: FloatingPosition,
    p2: FloatingPosition,
    rx: int,
    ry: int,
    rw: int,
    rh: int,
    fw: int,
    fh: int,
    o: FloatingOptions,
)
    requires
        p1.x.as_halves() == position_x_halves(rx, ry, rw, rh, fw, fh, o),
        p1.y.as_halves() == position_y_halves(rx, ry, rw, rh, fw, fh, o),
        p1.side == o.side,
        p1.align == o.align,
        p2.x.as_halves() == position_x_halves(rx, ry, rw, rh, fw, fh, o),
        p2.y.as_halves() == position_y_halves(rx, ry, rw, rh, fw, fh, o),
        p2.side == o.side,
        p2.align == o.align,
    ensures
        p1 == p2,
{
    // A coordinate is determined by its half-pixel count, and a position by
    // its four fields.
    assert(p1 == (FloatingPosition { x: p2.x, y: p2.y, side: p2.side, align: p2.align }));
}

/// Changing `align_offset` (or the alignment) never changes the
/// primary-axis coordinate: y for Top/Bottom, x for Left/Right.
pub proof fn lemma_align_offset_leaves_primary(
    rx: int,
    ry: int,
    rw: int,
    rh: int,
    fw: int,
    fh: int,
    o1: FloatingOptions,
    o2: FloatingOptions,
)
    requires
        o1.side == o2.side,
        o1.side_offset == o2.side_offset,
    ensures
        primary_halves(rx, ry, rw, rh, o1) == primary_halves(rx, ry, rw, rh, o2),
        vertical_primary(o1.side) ==> position_y_halves(rx, ry, rw, rh, fw, fh, o1)
            == position_y_halves(rx, ry, rw, rh, fw, fh, o2),
        !vertical_primary(o1.side) ==> position_x_halves(rx, ry, rw, rh, fw, fh, o1)
            == position_x_halves(rx, ry, rw, rh, fw, fh, o2),
{
}

/// Changing `side_offset` never changes the cross-axis coordinate: x for
/// Top/Bottom, y for Left/Right.
pub proof fn lemma_side_offset_leaves_cross(
    rx: int,
    ry: int,
    rw: int,
    rh: int,
    fw: int,
    fh: int,
    o1: FloatingOptions,
    o2: FloatingOptions,
)
    requires
        o1.side == o2.side,
        o1.align == o2.align,
        o1.align_offset == o2.align_offset,
    ensures
        cross_halves(rx, ry, rw, rh, fw, fh, o1) == cross_halves(rx, ry, rw, rh, fw, fh, o2),
        vertical_primary(o1.side) ==> position_x_halves(rx, ry, rw, rh, fw, fh, o1)
            == position_x_halves(rx, ry, rw, rh, fw, fh, o2),
        !vertical_primary(o1.side) ==> position_y_halves(rx, ry, rw, rh, fw, fh, o1)
            == position_y_halves(rx, ry, rw, rh, fw, fh, o2),
{
}

/// `side_offset` applies linearly, with no clamping: the primary-axis
/// coordinate moves by exactly the offset difference (in half pixels, twice
/// it), in the direction away from the reference for that side.
pub proof fn lemma_side_offset_linear(
    rx: int,
    ry: int,
    rw: int,
    rh: int,
    o1: FloatingOptions,
    o2: FloatingOptions,
)
    requires
        o1.side == o2.side,
    ensures
        primary_halves(rx, ry, rw, rh, o2) - primary_halves(rx, ry, rw, rh, o1) == 2 * away_sign(
            o1.side,
        ) * (o2.side_offset - o1.side_offset),
{
    let s = away_sign(o1.side);
    let d = o2.side_offset - o1.side_offset;
    assert(s == 1 || s == -1);
    if s == 1 {
        assert(2 * s * d == 2 * d) by (nonlinear_arith)
            requires
                s == 1,
        ;
    } else {
        assert(2 * s * d == -2 * d) by (nonlinear_arith)
            requires
                s == -1,
        ;
    }
}

/// Increasing `side_offset` moves the floating element strictly further
/// from the reference along the primary axis, away from it, on every side:
/// toward smaller coordinates for Top and Left, larger for Bottom and Right.
pub proof fn lemma_side_offset_moves_away(
    rx: int,
    ry: int,
    rw: int,
    rh: int,
    o1: FloatingOptions,
    o2: FloatingOptions,
)
    requires
        o1.side == o2.side,
        o1.side_offset < o2.side_offset,
    ensures
        away_sign(o1.side) == 1 ==> primary_halves(rx, ry, rw, rh, o1) < primary_halves(
            rx,
            ry,
            rw,
            rh,
            o2,
        ),
        away_sign(o1.side) == -1 ==> primary_halves(rx, ry, rw, rh, o2) < primary_halves(
            rx,
            ry,
            rw,
            rh,
            o1,
        ),
{
}

/// `align_offset` applies linearly, with no clamping: the cross-axis
/// coordinate moves by exactly the offset difference (in half pixels, twice
/// it), toward increasing coordinates.
pub proof fn lemma_align_offset_linear(
    rx: int,
    ry: int,
    rw: int,
    rh: int,
    fw: int,
    fh: int,
    o1: FloatingOptions,
    o2: FloatingOptions,
)
    requires
        o1.side == o2.side,
        o1.align == o2.align,
    ensures
        cross_halves(rx, ry, rw, rh, fw, fh, o2) - cross_halves(rx, ry, rw, rh, fw, fh, o1) == 2 * (
        o2.align_offset - o1.align_offset),
{
}

} // verus!
