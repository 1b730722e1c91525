//! The window: a rectangle centred on the origin in which the particles live.
use vstd::prelude::*;
use crate::fixed::{half, negate, quotient};

verus! {

/// Width and height of the window, as fixed-point numbers.
#[derive(Clone, Copy, Debug, PartialEq, Eq, Structural)]
pub struct WindowSize {
    pub width: i64,
    pub height: i64,
}

impl WindowSize {
    /// Half the width, rounded toward zero.
    pub open spec fn half_width(self) -> int {
        quotient(self.width as int, 2)
    }

    /// Half the height, rounded toward zero.
    pub open spec fn half_height(self) -> int {
        quotient(self.height as int, 2)
    }

    /// The point lies on an edge of the window or beyond it.
    pub open spec fn outside(self, x: int, y: int) -> bool {
        ||| x >= self.half_width()
        ||| y >= self.half_height()
        ||| x <= -self.half_width()
        ||| y <= -self.half_height()
    }

    /// The point lies in the window, its edges included.
    pub open spec fn holds(self, x: int, y: int) -> bool {
        &&& -self.half_width() <= x <= self.half_width()
        &&& -self.half_height() <= y <= self.half_height()
    }

    pub fn new(width: i64, height: i64) -> (size: Self)
        ensures
            size.width == width,
            size.height == height,
    {
        WindowSize { width, height }
    }

    /// Takes over the size that a resize event reports.
    pub fn resize(&mut self, width: i64, height: i64)
        ensures
            final(self).width == width,
            final(self).height == height,
    {
        self.width = width;
        self.height = height;
    }

    /// Whether the point lies on an edge of the window or beyond it.
    pub fn is_outside(&self, x: i64, y: i64) -> (out: bool)
        ensures
            out == self.outside(x as int, y as int),
    {
        let hw: i64 = half(self.width);
        let hh: i64 = half(self.height);
        x >= hw || y >= hh || x <= negate(hw) || y <= negate(hh)
    }
}

/// The size after a batch of resize events, each a width and a height: the last one
/// counts, and without events the size stays.
pub open spec fn resized(size: WindowSize, events: Seq<(i64, i64)>) -> WindowSize {
    if events.len() == 0 {
        size
    } else {
        WindowSize { width: events.last().0, height: events.last().1 }
    }
}

/// Applies the resize events of one frame in the order in which they came.
pub fn window_resize(size: &mut WindowSize, events: &Vec<(i64, i64)>)
    ensures
        *final(size) == resized(*old(size), events@),
{
    let mut i: usize = 0;
    while i < events.len()
        invariant
            i <= events.len(),
            *size == resized(*old(size), events@.take(i as int)),
        decreases events.len() - i,
    {
        let e: (i64, i64) = events[i];
        size.resize(e.0, e.1);
        i += 1;
        assert(events@.take(i as int).last() == events@[i - 1]);
    }
    assert(events@.take(i as int) == events@);
}

} // verus!
