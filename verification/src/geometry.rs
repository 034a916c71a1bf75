//! Windows and monitors as rectangles in physical pixels, and how much of a
//! window a monitor shows.

use vstd::prelude::*;

use crate::rounding::{
    lemma_nearest_error, lemma_spacing_bounds, nearest, round_to_precision, spacing, DOUBLE_LIMIT,
};

verus! {

/// A rectangle by its four edges.
#[derive(Clone, Copy, Debug, PartialEq, Eq, Structural)]
pub struct Rect {
    pub left: i32,
    pub top: i32,
    pub right: i32,
    pub bottom: i32,
}

/// A rectangle by its top left corner and its size.
#[derive(Clone, Copy, Debug, PartialEq, Eq, Structural)]
pub struct Placement {
    pub x: i32,
    pub y: i32,
    pub width: u32,
    pub height: u32,
}

/// Where a window is and which monitor it is on.
#[derive(Clone, Copy, Debug, PartialEq, Eq, Structural)]
pub struct WindowGeometry {
    pub window: Placement,
    pub monitor: Placement,
}

/// Whether `n` can be a coordinate.
pub open spec fn is_coordinate(n: int) -> bool {
    i32::MIN <= n <= i32::MAX
}

/// A length as a signed coordinate: lengths of `2^31` and more wrap around to
/// negative ones.
pub open spec fn extent(length: u32) -> int {
    if length <= i32::MAX {
        length as int
    } else {
        length - 0x1_0000_0000
    }
}

/// `n` brought into the range of coordinates.
pub open spec fn saturated(n: int) -> int {
    if n < i32::MIN {
        i32::MIN as int
    } else if n > i32::MAX {
        i32::MAX as int
    } else {
        n
    }
}

/// A length as a signed coordinate.
pub fn signed_extent(length: u32) -> (res: i32)
    ensures
        res == extent(length),
{
    if length <= 0x7fff_ffff {
        length as i32
    } else {
        (length as i64 - 0x1_0000_0000i64) as i32
    }
}

fn saturate(n: i64) -> (res: i32)
    ensures
        res == saturated(n as int),
{
    if n < -0x8000_0000i64 {
        i32::MIN
    } else if n > 0x7fff_ffffi64 {
        i32::MAX
    } else {
        n as i32
    }
}

impl Placement {
    /// The coordinate of the right edge.
    pub open spec fn right_edge(self) -> int {
        self.x + extent(self.width)
    }

    /// The coordinate of the bottom edge.
    pub open spec fn bottom_edge(self) -> int {
        self.y + extent(self.height)
    }

    /// Whether all four edges are coordinates.
    pub open spec fn has_edges_spec(self) -> bool {
        is_coordinate(self.right_edge()) && is_coordinate(self.bottom_edge())
    }

    /// Whether all four edges are coordinates.
    pub fn has_edges(&self) -> (res: bool)
        ensures
            res == self.has_edges_spec(),
    {
        let right: i64 = self.x as i64 + signed_extent(self.width) as i64;
        let bottom: i64 = self.y as i64 + signed_extent(self.height) as i64;
        -0x8000_0000i64 <= right && right <= 0x7fff_ffffi64 && -0x8000_0000i64 <= bottom && bottom
            <= 0x7fff_ffffi64
    }

    /// The coordinate of the right edge.
    pub fn right(&self) -> (res: i32)
        requires
            is_coordinate(self.right_edge()),
        ensures
            res == self.right_edge(),
    {
        (self.x as i64 + signed_extent(self.width) as i64) as i32
    }

    /// The rectangle by its edges.
    pub fn rect(&self) -> (res: Rect)
        requires
            self.has_edges_spec(),
        ensures
            res.left == self.x,
            res.top == self.y,
            res.right == self.right_edge(),
            res.bottom == self.bottom_edge(),
    {
        Rect {
            left: self.x,
            top: self.y,
            right: self.right(),
            bottom: (self.y as i64 + signed_extent(self.height) as i64) as i32,
        }
    }

    /// The rectangle by its edges, the far ones stopped at the largest coordinate.
    pub fn rect_saturating(&self) -> (res: Rect)
        ensures
            res.left == self.x,
            res.top == self.y,
            res.right == saturated(self.right_edge()),
            res.bottom == saturated(self.bottom_edge()),
    {
        Rect {
            left: self.x,
            top: self.y,
            right: saturate(self.x as i64 + signed_extent(self.width) as i64),
            bottom: saturate(self.y as i64 + signed_extent(self.height) as i64),
        }
    }
}

/// `far - near` as a length of at least `least`, stopped at the largest coordinate.
pub open spec fn span(near: int, far: int, least: int) -> nat {
    let length = saturated(far - near);
    if length < least {
        least as nat
    } else {
        length as nat
    }
}

/// The larger of two coordinates.
pub open spec fn larger(a: i32, b: i32) -> int {
    if a >= b {
        a as int
    } else {
        b as int
    }
}

/// The smaller of two coordinates.
pub open spec fn smaller(a: i32, b: i32) -> int {
    if a <= b {
        a as int
    } else {
        b as int
    }
}

/// The number of pixels that two rectangles share.
pub open spec fn shared_area(a: Rect, b: Rect) -> nat {
    span(larger(a.left, b.left), smaller(a.right, b.right), 0) * span(
        larger(a.top, b.top),
        smaller(a.bottom, b.bottom),
        0,
    )
}

/// The number of pixels of a rectangle; one that is turned over counts as one
/// pixel wide or high.
pub open spec fn full_area(r: Rect) -> nat {
    span(r.left as int, r.right as int, 1) * span(r.top as int, r.bottom as int, 1)
}

/// The double nearest to the share `part / whole` is below the double `0.18`.
///
/// That double is `6485183463413514 / 2^55`, an even multiple of the spacing
/// there. A quotient rounds to something smaller exactly when it lies below the
/// middle between it and its predecessor.
pub open spec fn share_below(part: nat, whole: nat) -> bool {
    nearest(part, DOUBLE_LIMIT as nat) * 0x100_0000_0000_0000 < 12970366926827027 * nearest(
        whole,
        DOUBLE_LIMIT as nat,
    )
}

/// The double nearest to the share `part / whole` is above the double `0.18`.
pub open spec fn share_above(part: nat, whole: nat) -> bool {
    nearest(part, DOUBLE_LIMIT as nat) * 0x100_0000_0000_0000 > 12970366926827029 * nearest(
        whole,
        DOUBLE_LIMIT as nat,
    )
}

/// Less than 18 percent of `window` is on `screen`.
pub open spec fn barely_visible(window: Rect, screen: Rect) -> bool {
    share_below(shared_area(window, screen), full_area(window))
}

/// More than 18 percent of `window` is on `screen`.
pub open spec fn clearly_visible(window: Rect, screen: Rect) -> bool {
    share_above(shared_area(window, screen), full_area(window))
}

/// For areas below `2^49` pixels the tests against 18 percent are exact.
pub proof fn lemma_share_is_exact(part: nat, whole: nat)
    requires
        part <= whole < 0x2_0000_0000_0000,
    ensures
        share_below(part, whole) <==> 100 * part < 18 * whole,
        share_above(part, whole) <==> 100 * part > 18 * whole,
{
    lemma_nearest_error(part, DOUBLE_LIMIT as nat);
    lemma_nearest_error(whole, DOUBLE_LIMIT as nat);
}

/// At most three seventeenths are not above 18 percent, however large the areas are.
pub proof fn lemma_strip_is_not_above(part: nat, whole: nat)
    requires
        17 * part <= 3 * whole,
    ensures
        !share_above(part, whole),
{
    let limit = DOUBLE_LIMIT as nat;
    lemma_nearest_error(part, limit);
    lemma_nearest_error(whole, limit);
    lemma_spacing_bounds(part, limit);
    lemma_spacing_bounds(whole, limit);
}

fn span_of(near: i32, far: i32, least: i32) -> (res: u64)
    requires
        least >= 0,
    ensures
        res == span(near as int, far as int, least as int),
        res <= i32::MAX,
        res >= least,
{
    let length: i32 = saturate(far as i64 - near as i64);
    if length < least {
        least as u64
    } else {
        length as u64
    }
}

fn larger_of(a: i32, b: i32) -> (res: i32)
    ensures
        res == larger(a, b),
{
    if a >= b {
        a
    } else {
        b
    }
}

fn smaller_of(a: i32, b: i32) -> (res: i32)
    ensures
        res == smaller(a, b),
{
    if a <= b {
        a
    } else {
        b
    }
}

fn area(width: u64, height: u64) -> (res: u64)
    requires
        width <= i32::MAX,
        height <= i32::MAX,
    ensures
        res == width * height,
        res <= 0x4000_0000_0000_0000,
{
    assert(width * height <= 0x7fff_ffff * 0x7fff_ffff) by (nonlinear_arith)
        requires
            width <= 0x7fff_ffff,
            height <= 0x7fff_ffff,
    ;
    width * height
}

/// The visible and the full area of `window` on `screen`, in pixels.
pub fn visibility_ratio_on_monitor(window: &Rect, screen: &Rect) -> (res: (u64, u64))
    ensures
        res.0 == shared_area(*window, *screen),
        res.1 == full_area(*window),
        res.0 <= 0x4000_0000_0000_0000,
        res.1 <= 0x4000_0000_0000_0000,
{
    let visible_width: u64 = span_of(
        larger_of(window.left, screen.left),
        smaller_of(window.right, screen.right),
        0,
    );
    let visible_height: u64 = span_of(
        larger_of(window.top, screen.top),
        smaller_of(window.bottom, screen.bottom),
        0,
    );
    let full_width: u64 = span_of(window.left, window.right, 1);
    let full_height: u64 = span_of(window.top, window.bottom, 1);
    (area(visible_width, visible_height), area(full_width, full_height))
}

/// Whether less than 18 percent of `window` is on `screen`.
pub fn is_barely_visible(window: &Rect, screen: &Rect) -> (res: bool)
    ensures
        res == barely_visible(*window, *screen),
{
    let (visible, full) = visibility_ratio_on_monitor(window, screen);
    let part: u128 = round_to_precision(visible, DOUBLE_LIMIT) as u128;
    let whole: u128 = round_to_precision(full, DOUBLE_LIMIT) as u128;
    part * 0x100_0000_0000_0000 < 12970366926827027 * whole
}

/// Whether more than 18 percent of `window` is on `screen`.
pub fn is_clearly_visible(window: &Rect, screen: &Rect) -> (res: bool)
    ensures
        res == clearly_visible(*window, *screen),
{
    let (visible, full) = visibility_ratio_on_monitor(window, screen);
    let part: u128 = round_to_precision(visible, DOUBLE_LIMIT) as u128;
    let whole: u128 = round_to_precision(full, DOUBLE_LIMIT) as u128;
    part * 0x100_0000_0000_0000 > 12970366926827029 * whole
}

} // verus!
