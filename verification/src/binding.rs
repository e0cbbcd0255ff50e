//! Decision logic of the reactive binding around the geometry engine.
//!
//! The binding watches two element handles — the reference and the floating
//! element — and on every observed change schedules one recomputation. Each
//! cycle hands this module what it could read: the reference's bounding
//! rectangle and the floating element's rendered size, each possibly absent.
//! A position is computed and published only when both are present;
//! otherwise nothing is published that cycle and the last published position
//! is held, not cleared — the stream simply stops updating until both
//! handles are present again. The scheduling itself (observing handles,
//! deferring to the next paint) is the caller's concern.

use vstd::prelude::*;

use crate::coord::in_bounds;
use crate::geometry::FloatingOptions;
use crate::geometry::FloatingPosition;
use crate::geometry::calculate_position_from_rect;
use crate::geometry::options_in_bounds;
use crate::geometry::position_x_halves;
use crate::geometry::position_y_halves;

verus! {

/// A bounding rectangle read from a laid-out element: origin and extents in
/// whole pixels of one coordinate space.
#[derive(Clone, Copy, Debug, PartialEq, Eq, Structural)]
pub struct Rect {
    pub x: i64,
    pub y: i64,
    pub width: i64,
    pub height: i64,
}

/// A rendered size read from a laid-out element, in whole pixels.
#[derive(Clone, Copy, Debug, PartialEq, Eq, Structural)]
pub struct Size {
    pub width: i64,
    pub height: i64,
}

/// Holds of a rectangle whose fields the engine accepts.
pub open spec fn rect_in_bounds(r: Rect) -> bool {
    &&& in_bounds(r.x as int)
    &&& in_bounds(r.y as int)
    &&& in_bounds(r.width as int)
    &&& in_bounds(r.height as int)
}

/// Holds of a size whose fields the engine accepts.
pub open spec fn size_in_bounds(s: Size) -> bool {
    &&& in_bounds(s.width as int)
    &&& in_bounds(s.height as int)
}

/// Holds of a position produced by the engine for these inputs.
pub open spec fn is_position_for(p: FloatingPosition, r: Rect, s: Size, o: FloatingOptions) -> bool {
    &&& p.x.as_halves() == position_x_halves(
        r.x as int,
        r.y as int,
        r.width as int,
        r.height as int,
        s.width as int,
        s.height as int,
        o,
    )
    &&& p.y.as_halves() == position_y_halves(
        r.x as int,
        r.y as int,
        r.width as int,
        r.height as int,
        s.width as int,
        s.height as int,
        o,
    )
    &&& p.side == o.side
    &&& p.align == o.align
}

/// One recomputation cycle's decision: a position exactly when both the
/// reference rectangle and the floating size could be read, nothing
/// otherwise.
pub fn compute_if_ready(
    reference: Option<Rect>,
    floating: Option<Size>,
    options: &FloatingOptions,
) -> (r: Option<FloatingPosition>)
    requires
        reference matches Some(rc) ==> rect_in_bounds(rc),
        floating matches Some(s) ==> size_in_bounds(s),
        options_in_bounds(*options),
    ensures
        r is Some <==> (reference is Some && floating is Some),
        reference matches Some(rc) ==> floating matches Some(s) ==> ({
            &&& r matches Some(p)
            &&& is_position_for(p, rc, s, *options)
        }),
{
    match (reference, floating) {
        (Some(rc), Some(s)) => calculate_position_from_rect(
            rc.x,
            rc.y,
            rc.width,
            rc.height,
            s.width,
            s.height,
            *options,
        ),
        _ => None,
    }
}

/// The state of one binding: the placement options it was created with and
/// the last position it published, `None` until the first cycle in which
/// both handles were present.
#[derive(Clone, Copy, Debug, PartialEq, Eq, Structural)]
pub struct PositionStream {
    pub options: FloatingOptions,
    pub published: Option<FloatingPosition>,
}

impl PositionStream {
    /// A fresh binding: nothing published yet — consumers must not render
    /// from the stream before its first successful computation.
    pub fn new(options: FloatingOptions) -> (s: PositionStream)
        ensures
            s.options == options,
            s.published is None,
    {
        PositionStream { options, published: None }
    }

    /// One observation cycle. When both handles yielded a value, the freshly
    /// computed position is published; when either is absent, the previously
    /// published position is held unchanged (in particular, a later absence
    /// never retroactively clears it). The options never change.
    pub fn observe(&mut self, reference: Option<Rect>, floating: Option<Size>)
        requires
            reference matches Some(rc) ==> rect_in_bounds(rc),
            floating matches Some(s) ==> size_in_bounds(s),
            options_in_bounds(old(self).options),
        ensures
            final(self).options == old(self).options,
            (reference is None || floating is None) ==> final(self).published == old(
                self,
            ).published,
            reference matches Some(rc) ==> floating matches Some(s) ==> ({
                &&& final(self).published matches Some(p)
                &&& is_position_for(p, rc, s, old(self).options)
            }),
    {
        let next = compute_if_ready(reference, floating, &self.options);
        if let Some(p) = next {
            self.published = Some(p);
        }
    }
}

} // verus!
