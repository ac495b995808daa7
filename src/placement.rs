//! Where a new glyph goes on the drawing surface.
use vstd::prelude::*;

use crate::chance::random_up_to;

verus! {

/// A width and a height, in pixels.
#[derive(Clone, Copy, Debug, PartialEq, Eq, Structural)]
pub struct Size {
    pub w: u32,
    pub h: u32,
}

/// A placement: top-left corner and size, in pixels.
#[derive(Clone, Copy, Debug, PartialEq, Eq, Structural)]
pub struct Rect {
    pub x: u32,
    pub y: u32,
    pub w: u32,
    pub h: u32,
}

/// A glyph larger than the surface cannot be placed on it.
#[derive(Clone, Copy, Debug, PartialEq, Eq, Structural)]
pub enum PlacementError {
    PlacementOverflow,
}

impl Size {
    pub open spec fn fits_in(self, bounds: Size) -> bool {
        self.w <= bounds.w && self.h <= bounds.h
    }
}

impl Rect {
    pub open spec fn has_size(self, s: Size) -> bool {
        self.w == s.w && self.h == s.h
    }

    /// The rectangle lies inside `[0, bounds.w) x [0, bounds.h)`.
    pub open spec fn within(self, bounds: Size) -> bool {
        self.x + self.w <= bounds.w && self.y + self.h <= bounds.h
    }
}

/// The outcome every placement policy owes: the glyph's own size, inside the
/// bounds, and an overflow error exactly when the glyph is larger than them.
pub open spec fn placed(glyph: Size, bounds: Size, r: Result<Rect, PlacementError>) -> bool {
    match r {
        Ok(rect) => glyph.fits_in(bounds) && rect.has_size(glyph) && rect.within(bounds),
        Err(e) => !glyph.fits_in(bounds) && e == PlacementError::PlacementOverflow,
    }
}

/// A layout policy for new glyphs.
pub trait PositionStrategy: Sized {
    /// The state that `reset` brings the policy back to.
    spec fn fresh(&self) -> Self;

    /// What one call of `next_position` from this state may do: give the
    /// outcome `r` for a glyph of size `glyph` on a surface of size `bounds`,
    /// and leave the policy in state `next`.
    spec fn step(&self, glyph: Size, bounds: Size, r: Result<Rect, PlacementError>, next: Self) -> bool;

    /// Where the next glyph of size `glyph` goes on a surface of size `bounds`.
    fn next_position(&mut self, glyph: Size, bounds: Size) -> (r: Result<Rect, PlacementError>)
        ensures
            placed(glyph, bounds, r),
            old(self).step(glyph, bounds, r, *final(self)),
    ;

    /// Brings the policy back to its initial state.
    fn reset(&mut self)
        ensures
            *final(self) == old(self).fresh(),
    ;
}

/// Places each glyph at a uniformly drawn corner that keeps it on the surface.
#[derive(Clone, Copy, Debug, PartialEq, Eq, Structural)]
pub struct RandomPositionStrategy {}

impl PositionStrategy for RandomPositionStrategy {
    /// Placement keeps no memory: a random strategy is always fresh.
    open spec fn fresh(&self) -> Self {
        *self
    }

    /// Any corner that keeps the glyph on the surface; the state stays.
    open spec fn step(&self, glyph: Size, bounds: Size, r: Result<Rect, PlacementError>, next: Self) -> bool {
        next == *self
    }

    fn next_position(&mut self, glyph: Size, bounds: Size) -> (r: Result<Rect, PlacementError>) {
        if glyph.w > bounds.w || glyph.h > bounds.h {
            return Err(PlacementError::PlacementOverflow);
        }
        let x = random_up_to(bounds.w - glyph.w);
        let y = random_up_to(bounds.h - glyph.h);
        Ok(Rect { x, y, w: glyph.w, h: glyph.h })
    }

    fn reset(&mut self) {
    }
}

/// Lays glyphs out left to right on the surface's middle line.
///
/// When the next glyph would cross the right edge, the line starts again at
/// the left edge. A glyph too tall to start on the middle line is raised
/// until its bottom edge meets the bottom of the surface.
#[derive(Clone, Copy, Debug, PartialEq, Eq, Structural)]
pub struct SequentialPositionStrategy {
    /// Where the next glyph's left edge goes.
    pub next_x: u32,
}

/// The left edge of a glyph placed with the cursor at `next_x`.
pub open spec fn sequential_x(next_x: int, glyph: Size, bounds: Size) -> int {
    if next_x + glyph.w <= bounds.w {
        next_x
    } else {
        0
    }
}

/// The top edge of a glyph placed by the sequential policy.
pub open spec fn sequential_y(glyph: Size, bounds: Size) -> int {
    let half = bounds.h as int / 2;
    if glyph.h <= bounds.h - half {
        half
    } else {
        bounds.h - glyph.h
    }
}

impl SequentialPositionStrategy {
    /// A strategy whose cursor is at the left edge.
    pub fn new() -> (r: SequentialPositionStrategy)
        ensures
            r.next_x == 0,
    {
        SequentialPositionStrategy { next_x: 0 }
    }
}

impl PositionStrategy for SequentialPositionStrategy {
    open spec fn fresh(&self) -> Self {
        SequentialPositionStrategy { next_x: 0 }
    }

    open spec fn step(&self, glyph: Size, bounds: Size, r: Result<Rect, PlacementError>, next: Self) -> bool {
        match r {
            Ok(rect) => {
                &&& rect.x == sequential_x(self.next_x as int, glyph, bounds)
                &&& rect.y == sequential_y(glyph, bounds)
                &&& next.next_x == rect.x + rect.w
            },
            Err(_) => next == *self,
        }
    }

    fn next_position(&mut self, glyph: Size, bounds: Size) -> (r: Result<Rect, PlacementError>) {
        if glyph.w > bounds.w || glyph.h > bounds.h {
            return Err(PlacementError::PlacementOverflow);
        }
        let x = if self.next_x <= bounds.w && glyph.w <= bounds.w - self.next_x {
            self.next_x
        } else {
            0
        };
        let half = bounds.h / 2;
        let y = if glyph.h <= bounds.h - half {
            half
        } else {
            bounds.h - glyph.h
        };
        self.next_x = x + glyph.w;
        Ok(Rect { x, y, w: glyph.w, h: glyph.h })
    }

    fn reset(&mut self) {
        self.next_x = 0;
    }
}

/// The policy's states and outcomes over `n` calls of `next_position` with
/// a glyph of size `glyph` on a surface of size `bounds`: call `i` starts in
/// `states[i]`, gives `results[i]` and leaves `states[i + 1]`.
pub open spec fn sequential_calls(
    states: Seq<SequentialPositionStrategy>,
    results: Seq<Result<Rect, PlacementError>>,
    glyph: Size,
    bounds: Size,
    n: nat,
) -> bool {
    &&& states.len() == n + 1
    &&& results.len() == n
    &&& forall|i: int|
        0 <= i < n ==> {
            &&& placed(glyph, bounds, #[trigger] results[i])
            &&& states[i].step(glyph, bounds, results[i], states[i + 1])
        }
}

proof fn lemma_cursor_after(
    states: Seq<SequentialPositionStrategy>,
    results: Seq<Result<Rect, PlacementError>>,
    glyph: Size,
    bounds: Size,
    n: nat,
    k: nat,
)
    requires
        sequential_calls(states, results, glyph, bounds, n),
        states[0].next_x == 0,
        glyph.h <= bounds.h,
        n * glyph.w <= bounds.w,
        k <= n,
    ensures
        states[k as int].next_x == k * glyph.w,
        k < n ==> (results[k as int] matches Ok(rect) && rect.x == k * glyph.w),
    decreases k,
{
    let w = glyph.w as int;
    if k > 0 {
        lemma_cursor_after(states, results, glyph, bounds, n, (k - 1) as nat);
    }
    if k < n {
        assert((k + 1) * w <= n * w) by (nonlinear_arith)
            requires
                k < n,
                w >= 0,
        ;
        assert(k * w + w == (k + 1) * w) by (nonlinear_arith);
        assert(placed(glyph, bounds, results[k as int]));
        assert(states[k as int].step(glyph, bounds, results[k as int], states[k + 1 as int]));
    }
    if k > 0 {
        let j: int = k - 1;
        assert(j * w + w == k * w) by (nonlinear_arith)
            requires
                j == k - 1,
        ;
        assert(k * w <= n * w) by (nonlinear_arith)
            requires
                k <= n,
                w >= 0,
        ;
        assert(placed(glyph, bounds, results[j]));
        assert(states[j].step(glyph, bounds, results[j], states[j + 1]));
    }
}

/// From a fresh strategy, consecutive glyphs of one size that fit on the line
/// together go to `0, w, 2w, 3w, ...` in order.
pub proof fn lemma_sequential_from_start(
    states: Seq<SequentialPositionStrategy>,
    results: Seq<Result<Rect, PlacementError>>,
    glyph: Size,
    bounds: Size,
    n: nat,
)
    requires
        sequential_calls(states, results, glyph, bounds, n),
        states[0].next_x == 0,
        glyph.h <= bounds.h,
        n * glyph.w <= bounds.w,
    ensures
        forall|i: int|
            0 <= i < n ==> ((#[trigger] results[i]) matches Ok(rect) && rect.x == i * glyph.w),
{
    assert forall|i: int| 0 <= i < n implies (#[trigger] results[i]) matches Ok(rect) && rect.x
        == i * glyph.w by {
        lemma_cursor_after(states, results, glyph, bounds, n, i as nat);
    }
}

/// After a reset, whatever came before, a glyph that fits goes to the left
/// edge, on the middle line when it fits in the lower half.
pub proof fn lemma_sequential_after_reset(
    s: SequentialPositionStrategy,
    glyph: Size,
    bounds: Size,
    r: Result<Rect, PlacementError>,
    next: SequentialPositionStrategy,
)
    requires
        glyph.fits_in(bounds),
        placed(glyph, bounds, r),
        s.fresh().step(glyph, bounds, r, next),
    ensures
        r matches Ok(rect) && rect.x == 0,
        glyph.h <= bounds.h - bounds.h / 2 ==> (r matches Ok(rect) && rect.y == bounds.h / 2),
{
}

} // verus!
