//! Geometry primitives: points, sizes and axis-aligned rectangles in display
//! space, with the predicates and resizing operations defined on them.
//!
//! Coordinates grow left-to-right and top-to-bottom. All contracts are stated
//! over mathematical integers, so an edge such as `left + width` never wraps.

use vstd::prelude::*;

verus! {

/// 2D position of a point in display space.
/// Left-to-right, top-to-bottom; the origin depends on context.
#[derive(Clone, Copy, PartialEq, Eq, Debug, Structural)]
pub struct Position {
    pub left: i32,
    pub top: i32,
}

impl Position {
    pub fn new(left: i32, top: i32) -> (p: Self)
        ensures
            p.left == left,
            p.top == top,
    {
        Self { left, top }
    }
}

impl Default for Position {
    fn default() -> (p: Self)
        ensures
            p.left == 0,
            p.top == 0,
    {
        Self { left: 0, top: 0 }
    }
}

impl std::ops::Add for Position {
    type Output = Position;

    /// Component-wise sum. Both sums must be representable.
    fn add(self, other: Position) -> (sum: Position) {
        Position { left: self.left + other.left, top: self.top + other.top }
    }
}

impl vstd::std_specs::ops::AddSpecImpl for Position {
    open spec fn obeys_add_spec() -> bool {
        true
    }

    open spec fn add_req(self, other: Position) -> bool {
        &&& i32::MIN <= self.left + other.left <= i32::MAX
        &&& i32::MIN <= self.top + other.top <= i32::MAX
    }

    open spec fn add_spec(self, other: Position) -> Position {
        Position { left: (self.left + other.left) as i32, top: (self.top + other.top) as i32 }
    }
}

impl std::ops::Sub for Position {
    type Output = Position;

    /// Component-wise difference. Both differences must be representable.
    fn sub(self, other: Position) -> (difference: Position) {
        Position { left: self.left - other.left, top: self.top - other.top }
    }
}

impl vstd::std_specs::ops::SubSpecImpl for Position {
    open spec fn obeys_sub_spec() -> bool {
        true
    }

    open spec fn sub_req(self, other: Position) -> bool {
        &&& i32::MIN <= self.left - other.left <= i32::MAX
        &&& i32::MIN <= self.top - other.top <= i32::MAX
    }

    open spec fn sub_spec(self, other: Position) -> Position {
        Position { left: (self.left - other.left) as i32, top: (self.top - other.top) as i32 }
    }
}

/// 2D dimensions of a rectangle in display space.
#[derive(Clone, Copy, PartialEq, Eq, Debug, Structural)]
pub struct Dimensions {
    pub width: u32,
    pub height: u32,
}

impl Dimensions {
    pub fn new(width: u32, height: u32) -> (d: Self)
        ensures
            d.width == width,
            d.height == height,
    {
        Self { width, height }
    }

    /// The area in the mathematical sense, capped at the largest `u32`.
    pub open spec fn spec_area(self) -> int {
        if self.width * self.height > u32::MAX {
            u32::MAX as int
        } else {
            self.width * self.height
        }
    }

    /// Whether `self` is no wider and no taller than `other`.
    pub open spec fn spec_fits_within(self, other: Dimensions) -> bool {
        self.width <= other.width && self.height <= other.height
    }

    /// `width * height`, saturating at `u32::MAX` instead of wrapping.
    pub fn area(self) -> (a: u32)
        ensures
            a == self.spec_area(),
    {
        assert(self.width * self.height <= u32::MAX * u32::MAX) by (nonlinear_arith)
            requires
                self.width <= u32::MAX,
                self.height <= u32::MAX,
        ;
        let wide: u64 = (self.width as u64) * (self.height as u64);
        if wide > u32::MAX as u64 {
            u32::MAX
        } else {
            wide as u32
        }
    }
}

impl Default for Dimensions {
    fn default() -> (d: Self)
        ensures
            d.width == 0,
            d.height == 0,
    {
        Self { width: 0, height: 0 }
    }
}

impl std::ops::Add for Dimensions {
    type Output = Dimensions;

    /// Component-wise sum. Both sums must be representable.
    fn add(self, other: Dimensions) -> (sum: Dimensions) {
        Dimensions { width: self.width + other.width, height: self.height + other.height }
    }
}

impl vstd::std_specs::ops::AddSpecImpl for Dimensions {
    open spec fn obeys_add_spec() -> bool {
        true
    }

    open spec fn add_req(self, other: Dimensions) -> bool {
        &&& self.width + other.width <= u32::MAX
        &&& self.height + other.height <= u32::MAX
    }

    open spec fn add_spec(self, other: Dimensions) -> Dimensions {
        Dimensions {
            width: (self.width + other.width) as u32,
            height: (self.height + other.height) as u32,
        }
    }
}

impl std::ops::Sub for Dimensions {
    type Output = Option<Dimensions>;

    /// Component-wise difference, or `None` when either component of `other`
    /// exceeds the matching component of `self`.
    fn sub(self, other: Dimensions) -> (difference: Option<Dimensions>) {
        if (self.width >= other.width) && (self.height >= other.height) {
            Some(Dimensions { width: self.width - other.width, height: self.height - other.height })
        } else {
            None
        }
    }
}

impl vstd::std_specs::ops::SubSpecImpl for Dimensions {
    open spec fn obeys_sub_spec() -> bool {
        true
    }

    open spec fn sub_req(self, other: Dimensions) -> bool {
        true
    }

    open spec fn sub_spec(self, other: Dimensions) -> Option<Dimensions> {
        if other.spec_fits_within(self) {
            Some(
                Dimensions {
                    width: (self.width - other.width) as u32,
                    height: (self.height - other.height) as u32,
                },
            )
        } else {
            None
        }
    }
}

/// The sides of a rectangle that a resize must leave where they are.
///
/// Four independent choices; `|` joins two sets.
#[derive(Clone, Copy, PartialEq, Eq, Debug, Structural)]
pub struct ClipRectFlags {
    pub left: bool,
    pub right: bool,
    pub top: bool,
    pub bottom: bool,
}

impl ClipRectFlags {
    /// Move the rectangle as appropriate: no side is pinned.
    pub fn keep_none() -> (flags: Self)
        ensures
            !flags.left && !flags.right && !flags.top && !flags.bottom,
    {
        Self { left: false, right: false, top: false, bottom: false }
    }

    /// Do not move the left side of the rectangle.
    pub fn keep_left() -> (flags: Self)
        ensures
            flags.left && !flags.right && !flags.top && !flags.bottom,
    {
        Self { left: true, right: false, top: false, bottom: false }
    }

    /// Do not move the right side of the rectangle.
    pub fn keep_right() -> (flags: Self)
        ensures
            !flags.left && flags.right && !flags.top && !flags.bottom,
    {
        Self { left: false, right: true, top: false, bottom: false }
    }

    /// Do not move the top side of the rectangle.
    pub fn keep_top() -> (flags: Self)
        ensures
            !flags.left && !flags.right && flags.top && !flags.bottom,
    {
        Self { left: false, right: false, top: true, bottom: false }
    }

    /// Do not move the bottom side of the rectangle.
    pub fn keep_bottom() -> (flags: Self)
        ensures
            !flags.left && !flags.right && !flags.top && flags.bottom,
    {
        Self { left: false, right: false, top: false, bottom: true }
    }

    /// Do not move the rectangle at all, just clip it.
    pub fn keep_all() -> (flags: Self)
        ensures
            flags.left && flags.right && flags.top && flags.bottom,
    {
        Self { left: true, right: true, top: true, bottom: true }
    }

    pub fn keeps_left(self) -> (kept: bool)
        ensures
            kept == self.left,
    {
        self.left
    }

    pub fn keeps_right(self) -> (kept: bool)
        ensures
            kept == self.right,
    {
        self.right
    }

    pub fn keeps_top(self) -> (kept: bool)
        ensures
            kept == self.top,
    {
        self.top
    }

    pub fn keeps_bottom(self) -> (kept: bool)
        ensures
            kept == self.bottom,
    {
        self.bottom
    }

    /// Whether all four sides are pinned.
    pub fn keeps_all(self) -> (kept: bool)
        ensures
            kept == (self.left && self.right && self.top && self.bottom),
    {
        self.left && self.right && self.top && self.bottom
    }

    /// Whether every side pinned by `other` is pinned by `self` too.
    pub open spec fn spec_contains(self, other: ClipRectFlags) -> bool {
        &&& other.left ==> self.left
        &&& other.right ==> self.right
        &&& other.top ==> self.top
        &&& other.bottom ==> self.bottom
    }

    /// The sides pinned by `self` or by `other`.
    pub open spec fn spec_union(self, other: ClipRectFlags) -> ClipRectFlags {
        ClipRectFlags {
            left: self.left || other.left,
            right: self.right || other.right,
            top: self.top || other.top,
            bottom: self.bottom || other.bottom,
        }
    }

    /// Whether every side pinned by `other` is pinned by `self` too.
    pub fn contains(self, other: ClipRectFlags) -> (all: bool)
        ensures
            all == self.spec_contains(other),
    {
        (!other.left || self.left) && (!other.right || self.right) && (!other.top || self.top) && (
        !other.bottom || self.bottom)
    }
}

impl std::ops::BitOr for ClipRectFlags {
    type Output = ClipRectFlags;

    fn bitor(self, other: ClipRectFlags) -> (joined: ClipRectFlags) {
        ClipRectFlags {
            left: self.left || other.left,
            right: self.right || other.right,
            top: self.top || other.top,
            bottom: self.bottom || other.bottom,
        }
    }
}

impl vstd::std_specs::ops::BitOrSpecImpl for ClipRectFlags {
    open spec fn obeys_bitor_spec() -> bool {
        true
    }

    open spec fn bitor_req(self, other: ClipRectFlags) -> bool {
        true
    }

    open spec fn bitor_spec(self, other: ClipRectFlags) -> ClipRectFlags {
        self.spec_union(other)
    }
}

/// 2D rectangle in display space.
/// Left-to-right, top-to-bottom; the origin depends on context.
///
/// The right and bottom edges are `left + width` and `top + height` as
/// mathematical integers, so they are never below the left and top edges.
#[derive(Clone, Copy, PartialEq, Eq, Debug, Structural)]
pub struct Rectangle {
    pub position: Position,
    pub dimensions: Dimensions,
}

/// The interval that `clip` leaves on one axis, as `(low, high)`.
///
/// The interval starts at `low` and is `length` long; it has to end up inside
/// `bound_low ..= bound_high`. First the high end is pulled down to the bound.
/// The low end then stays (`keep_low`) or slides along with the high end, and
/// is pushed up to the bound. Last the high end stays (`keep_high`) or is
/// placed `length` above the new low end, again no higher than the bound.
pub open spec fn clipped_span(
    low: int,
    length: int,
    bound_low: int,
    bound_high: int,
    keep_low: bool,
    keep_high: bool,
) -> (int, int) {
    let high = vstd::math::min(low + length, bound_high);
    let new_low = vstd::math::max(
        if keep_low {
            low
        } else {
            high - length
        },
        bound_low,
    );
    let new_high = if keep_high {
        high
    } else {
        vstd::math::min(new_low + length, bound_high)
    };
    (new_low, new_high)
}

/// The interval that `clamp` leaves on one axis, as `(low, high)`.
///
/// The interval grows to `min_length` where it is shorter. With both ends
/// pinned it cannot grow and is left as it is; with only the high end pinned
/// the low end moves down; otherwise the high end moves up.
pub open spec fn clamped_span(
    low: int,
    length: int,
    min_length: int,
    keep_low: bool,
    keep_high: bool,
) -> (int, int) {
    let grown = vstd::math::max(length, min_length);
    if keep_low && keep_high {
        (low, low + length)
    } else if keep_high {
        (low + length - grown, low + length)
    } else {
        (low, low + grown)
    }
}

impl Rectangle {
    pub fn new(position: Position, dimensions: Dimensions) -> (r: Self)
        ensures
            r.position == position,
            r.dimensions == dimensions,
    {
        Self { position, dimensions }
    }

    pub open spec fn spec_left(&self) -> int {
        self.position.left as int
    }

    pub open spec fn spec_top(&self) -> int {
        self.position.top as int
    }

    pub open spec fn spec_right(&self) -> int {
        self.position.left + self.dimensions.width
    }

    pub open spec fn spec_bottom(&self) -> int {
        self.position.top + self.dimensions.height
    }

    /// Whether the right and bottom edges are coordinates too, that is, fit
    /// in an `i32` as the left and top edges do.
    pub open spec fn spec_is_valid(&self) -> bool {
        self.spec_right() <= i32::MAX && self.spec_bottom() <= i32::MAX
    }

    /// Whether the rectangle has a positive width and a positive height.
    pub open spec fn spec_has_area(&self) -> bool {
        self.dimensions.width > 0 && self.dimensions.height > 0
    }

    /// Whether the right and bottom edges are coordinates too, that is, fit
    /// in an `i32` as the left and top edges do.
    #[verifier::when_used_as_spec(spec_is_valid)]
    pub fn is_valid(&self) -> (valid: bool)
        ensures
            valid == self.spec_is_valid(),
    {
        self.wide_right() <= i32::MAX as i64 && self.wide_bottom() <= i32::MAX as i64
    }

    /// Whether the rectangle has a positive width and a positive height.
    #[verifier::when_used_as_spec(spec_has_area)]
    pub fn has_area(&self) -> (any: bool)
        ensures
            any == self.spec_has_area(),
    {
        self.dimensions.width > 0 && self.dimensions.height > 0
    }

    /// The rectangle with the given four edges, where they describe one.
    pub open spec fn spec_from_edges(left: int, top: int, right: int, bottom: int) -> Rectangle {
        Rectangle {
            position: Position { left: left as i32, top: top as i32 },
            dimensions: Dimensions { width: (right - left) as u32, height: (bottom - top) as u32 },
        }
    }

    /// Builds the rectangle that spans the given edges.
    pub(crate) fn from_wide_edges(left: i64, top: i64, right: i64, bottom: i64) -> (r: Self)
        requires
            i32::MIN <= left <= i32::MAX,
            i32::MIN <= top <= i32::MAX,
            0 <= right - left <= u32::MAX,
            0 <= bottom - top <= u32::MAX,
        ensures
            r == Self::spec_from_edges(left as int, top as int, right as int, bottom as int),
            r.spec_left() == left,
            r.spec_top() == top,
            r.spec_right() == right,
            r.spec_bottom() == bottom,
    {
        Self {
            position: Position { left: left as i32, top: top as i32 },
            dimensions: Dimensions { width: (right - left) as u32, height: (bottom - top) as u32 },
        }
    }

    pub fn left(&self) -> (edge: i32)
        ensures
            edge == self.spec_left(),
    {
        self.position.left
    }

    /// The right edge. It must be a coordinate: see [`Rectangle::is_valid`].
    pub fn right(&self) -> (edge: i32)
        requires
            self.spec_right() <= i32::MAX,
        ensures
            edge == self.spec_right(),
    {
        self.wide_right() as i32
    }

    pub fn top(&self) -> (edge: i32)
        ensures
            edge == self.spec_top(),
    {
        self.position.top
    }

    /// The bottom edge. It must be a coordinate: see [`Rectangle::is_valid`].
    pub fn bottom(&self) -> (edge: i32)
        requires
            self.spec_bottom() <= i32::MAX,
        ensures
            edge == self.spec_bottom(),
    {
        self.wide_bottom() as i32
    }

    pub fn width(&self) -> (w: u32)
        ensures
            w == self.dimensions.width,
    {
        self.dimensions.width
    }

    pub fn height(&self) -> (h: u32)
        ensures
            h == self.dimensions.height,
    {
        self.dimensions.height
    }

    pub(crate) fn wide_right(&self) -> (edge: i64)
        ensures
            edge == self.spec_right(),
    {
        self.position.left as i64 + self.dimensions.width as i64
    }

    pub(crate) fn wide_bottom(&self) -> (edge: i64)
        ensures
            edge == self.spec_bottom(),
    {
        self.position.top as i64 + self.dimensions.height as i64
    }

    /// Whether the interiors of the two rectangles meet on both axes.
    /// Edges that merely touch do not overlap.
    pub open spec fn spec_overlaps(&self, other: Rectangle) -> bool {
        &&& self.spec_left() < other.spec_right()
        &&& self.spec_right() > other.spec_left()
        &&& self.spec_top() < other.spec_bottom()
        &&& self.spec_bottom() > other.spec_top()
    }

    /// Whether `other` lies within `self`, boundary included, on all four
    /// edges.
    pub open spec fn spec_contains(&self, other: Rectangle) -> bool {
        &&& self.spec_left() <= other.spec_left()
        &&& self.spec_right() >= other.spec_right()
        &&& self.spec_top() <= other.spec_top()
        &&& self.spec_bottom() >= other.spec_bottom()
    }

    /// Returns `true` if the rectangle overlaps the `other` rectangle.
    pub fn overlaps(&self, other: &Rectangle) -> (b: bool)
        ensures
            b == self.spec_overlaps(*other),
    {
        (self.position.left as i64) < other.wide_right() && self.wide_right() > (
        other.position.left as i64) && (self.position.top as i64) < other.wide_bottom()
            && self.wide_bottom() > (other.position.top as i64)
    }

    /// Returns `true` if the rectangle completely contains the `other` rectangle.
    pub fn contains(&self, other: &Rectangle) -> (b: bool)
        ensures
            b == self.spec_contains(*other),
    {
        self.position.left <= other.position.left && self.wide_right() >= other.wide_right()
            && self.position.top <= other.position.top && self.wide_bottom()
            >= other.wide_bottom()
    }

    /// The horizontal interval of `self` clipped to `bounds`.
    pub open spec fn clipped_horizontal(&self, bounds: Rectangle, flags: ClipRectFlags) -> (
        int,
        int,
    ) {
        clipped_span(
            self.spec_left(),
            self.dimensions.width as int,
            bounds.spec_left(),
            bounds.spec_right(),
            flags.left,
            flags.right,
        )
    }

    /// The vertical interval of `self` clipped to `bounds`.
    pub open spec fn clipped_vertical(&self, bounds: Rectangle, flags: ClipRectFlags) -> (
        int,
        int,
    ) {
        clipped_span(
            self.spec_top(),
            self.dimensions.height as int,
            bounds.spec_top(),
            bounds.spec_bottom(),
            flags.top,
            flags.bottom,
        )
    }

    /// What `clip` returns: the rectangle spanned by the two clipped
    /// intervals, or nothing when either of them is empty.
    pub open spec fn spec_clip(&self, bounds: Rectangle, flags: ClipRectFlags) -> Option<
        Rectangle,
    > {
        let (left, right) = self.clipped_horizontal(bounds, flags);
        let (top, bottom) = self.clipped_vertical(bounds, flags);
        if right > left && bottom > top {
            Some(Self::spec_from_edges(left, top, right, bottom))
        } else {
            None
        }
    }

    /// Tries to clip the rectangle to the provided bounds.
    ///
    /// `clip_flags` control which sides of the rectangle to try to keep in place.
    ///
    /// Returns the clipped rectangle, if any;
    /// or `None` if the rectangle does not intersect the bounds and may not be moved.
    pub fn clip(&self, bounds: &Rectangle, clip_flags: ClipRectFlags) -> (clipped: Option<
        Rectangle,
    >)
        ensures
            clipped == self.spec_clip(*bounds, clip_flags),
    {
        let (left, right) = clip_span(
            self.position.left as i64,
            self.dimensions.width as i64,
            bounds.position.left as i64,
            bounds.wide_right(),
            clip_flags.keeps_left(),
            clip_flags.keeps_right(),
        );
        let (top, bottom) = clip_span(
            self.position.top as i64,
            self.dimensions.height as i64,
            bounds.position.top as i64,
            bounds.wide_bottom(),
            clip_flags.keeps_top(),
            clip_flags.keeps_bottom(),
        );
        if right > left && bottom > top {
            proof {
                lemma_clipped_span_bounds(
                    self.spec_left(),
                    self.dimensions.width as int,
                    bounds.spec_left(),
                    bounds.spec_right(),
                    clip_flags.left,
                    clip_flags.right,
                );
                lemma_clipped_span_bounds(
                    self.spec_top(),
                    self.dimensions.height as int,
                    bounds.spec_top(),
                    bounds.spec_bottom(),
                    clip_flags.top,
                    clip_flags.bottom,
                );
            }
            Some(Self::from_wide_edges(left, top, right, bottom))
        } else {
            None
        }
    }

    /// The horizontal interval of `self` grown to `min_dimensions.width`.
    pub open spec fn clamped_horizontal(
        &self,
        min_dimensions: Dimensions,
        flags: ClipRectFlags,
    ) -> (int, int) {
        clamped_span(
            self.spec_left(),
            self.dimensions.width as int,
            min_dimensions.width as int,
            flags.left,
            flags.right,
        )
    }

    /// The vertical interval of `self` grown to `min_dimensions.height`.
    pub open spec fn clamped_vertical(
        &self,
        min_dimensions: Dimensions,
        flags: ClipRectFlags,
    ) -> (int, int) {
        clamped_span(
            self.spec_top(),
            self.dimensions.height as int,
            min_dimensions.height as int,
            flags.top,
            flags.bottom,
        )
    }

    /// What `clamp` returns: the rectangle spanned by the two grown intervals.
    pub open spec fn spec_clamp(&self, min_dimensions: Dimensions, flags: ClipRectFlags) -> Rectangle {
        let (left, right) = self.clamped_horizontal(min_dimensions, flags);
        let (top, bottom) = self.clamped_vertical(min_dimensions, flags);
        Self::spec_from_edges(left, top, right, bottom)
    }

    /// Clamps the rectangle's dimensions to the provided minimum.
    /// `clip_flags` control which sides of the rectangle to keep in place.
    /// Returns the clamped rectangle.
    ///
    /// A left or top edge that moves outward must stay a coordinate.
    pub fn clamp(&self, min_dimensions: Dimensions, clip_flags: ClipRectFlags) -> (clamped:
        Rectangle)
        requires
            i32::MIN <= self.clamped_horizontal(min_dimensions, clip_flags).0,
            i32::MIN <= self.clamped_vertical(min_dimensions, clip_flags).0,
        ensures
            clamped == self.spec_clamp(min_dimensions, clip_flags),
    {
        let (left, right) = clamp_span(
            self.position.left as i64,
            self.dimensions.width as i64,
            min_dimensions.width as i64,
            clip_flags.keeps_left(),
            clip_flags.keeps_right(),
        );
        let (top, bottom) = clamp_span(
            self.position.top as i64,
            self.dimensions.height as i64,
            min_dimensions.height as i64,
            clip_flags.keeps_top(),
            clip_flags.keeps_bottom(),
        );
        Self::from_wide_edges(left, top, right, bottom)
    }
}

impl Default for Rectangle {
    fn default() -> (r: Self)
        ensures
            r.position.left == 0,
            r.position.top == 0,
            r.dimensions.width == 0,
            r.dimensions.height == 0,
    {
        Self { position: Position::default(), dimensions: Dimensions::default() }
    }
}

fn at_least(val: i64, min: i64) -> (r: i64)
    ensures
        r == vstd::math::max(val as int, min as int),
{
    if val < min {
        min
    } else {
        val
    }
}

fn at_most(val: i64, max: i64) -> (r: i64)
    ensures
        r == vstd::math::min(val as int, max as int),
{
    if val > max {
        max
    } else {
        val
    }
}

/// One axis of `clip`.
fn clip_span(
    low: i64,
    length: i64,
    bound_low: i64,
    bound_high: i64,
    keep_low: bool,
    keep_high: bool,
) -> (span: (i64, i64))
    requires
        i32::MIN <= low <= i32::MAX,
        0 <= length <= u32::MAX,
        i32::MIN <= bound_low <= bound_high <= i32::MAX + u32::MAX,
    ensures
        (span.0 as int, span.1 as int) == clipped_span(
            low as int,
            length as int,
            bound_low as int,
            bound_high as int,
            keep_low,
            keep_high,
        ),
{
    // Clip to the far side, finding the near coordinate.
    let high = at_most(low + length, bound_high);
    let new_low = if keep_low {
        low
    } else {
        high - length
    };
    let new_low = at_least(new_low, bound_low);
    // Then clip to the near side, finding the far coordinate.
    let new_high = if keep_high {
        high
    } else {
        at_most(new_low + length, bound_high)
    };
    (new_low, new_high)
}

/// One axis of `clamp`.
fn clamp_span(low: i64, length: i64, min_length: i64, keep_low: bool, keep_high: bool) -> (span: (
    i64,
    i64,
))
    requires
        i32::MIN <= low <= i32::MAX,
        0 <= length <= u32::MAX,
        0 <= min_length <= u32::MAX,
    ensures
        (span.0 as int, span.1 as int) == clamped_span(
            low as int,
            length as int,
            min_length as int,
            keep_low,
            keep_high,
        ),
{
    let grown = at_least(length, min_length);
    let high = if keep_high {
        low + length
    } else {
        low + grown
    };
    let new_low = if keep_low {
        low
    } else {
        high - grown
    };
    (new_low, high)
}

/// Where a clipped interval is not empty, it lies inside the bounds, starts
/// at a coordinate and is no longer than the interval it was clipped from.
pub proof fn lemma_clipped_span_bounds(
    low: int,
    length: int,
    bound_low: int,
    bound_high: int,
    keep_low: bool,
    keep_high: bool,
)
    requires
        i32::MIN <= low <= i32::MAX,
        0 <= length <= u32::MAX,
        i32::MIN <= bound_low <= i32::MAX,
    ensures
        ({
            let (new_low, new_high) = clipped_span(
                low,
                length,
                bound_low,
                bound_high,
                keep_low,
                keep_high,
            );
            new_low < new_high ==> {
                &&& bound_low <= new_low
                &&& new_high <= bound_high
                &&& i32::MIN <= new_low <= i32::MAX
                &&& new_high - new_low <= length
            }
        }),
{
}

/// The right edge is never left of the left edge, nor the bottom edge above
/// the top edge.
pub proof fn lemma_edges_ordered(r: Rectangle)
    ensures
        r.spec_left() <= r.spec_right(),
        r.spec_top() <= r.spec_bottom(),
{
}

/// Overlap is symmetric.
pub proof fn lemma_overlaps_symmetric(a: Rectangle, b: Rectangle)
    ensures
        a.spec_overlaps(b) == b.spec_overlaps(a),
{
}

/// Every rectangle contains itself.
pub proof fn lemma_contains_reflexive(a: Rectangle)
    ensures
        a.spec_contains(a),
{
}

/// Two rectangles that contain each other are the same rectangle.
pub proof fn lemma_contains_antisymmetric(a: Rectangle, b: Rectangle)
    requires
        a.spec_contains(b),
        b.spec_contains(a),
    ensures
        a == b,
{
}

/// Containment is transitive.
pub proof fn lemma_contains_transitive(a: Rectangle, b: Rectangle, c: Rectangle)
    requires
        a.spec_contains(b),
        b.spec_contains(c),
    ensures
        a.spec_contains(c),
{
}

/// A rectangle that `clip` returns has an area, lies within the bounds, is no
/// larger than the rectangle it was clipped from, and its four edges are the
/// ends of the two clipped intervals.
pub proof fn lemma_clip_within_bounds(r: Rectangle, bounds: Rectangle, flags: ClipRectFlags)
    requires
        r.spec_clip(bounds, flags).is_some(),
    ensures
        ({
            let c = r.spec_clip(bounds, flags).unwrap();
            &&& c.has_area()
            &&& bounds.spec_contains(c)
            &&& c.dimensions.spec_fits_within(r.dimensions)
            &&& (c.spec_left(), c.spec_right()) == r.clipped_horizontal(bounds, flags)
            &&& (c.spec_top(), c.spec_bottom()) == r.clipped_vertical(bounds, flags)
        }),
{
    lemma_clipped_span_bounds(
        r.spec_left(),
        r.dimensions.width as int,
        bounds.spec_left(),
        bounds.spec_right(),
        flags.left,
        flags.right,
    );
    lemma_clipped_span_bounds(
        r.spec_top(),
        r.dimensions.height as int,
        bounds.spec_top(),
        bounds.spec_bottom(),
        flags.top,
        flags.bottom,
    );
}

/// Clipping a rectangle that has an area to itself, with no side pinned,
/// succeeds and returns it unchanged.
pub proof fn lemma_clip_to_itself(r: Rectangle)
    requires
        r.has_area(),
    ensures
        r.spec_clip(
            r,
            (ClipRectFlags { left: false, right: false, top: false, bottom: false }),
        ) == Some(r),
{
}

/// A rectangle without an area cannot be clipped to anything.
pub proof fn lemma_clip_without_area(r: Rectangle, bounds: Rectangle, flags: ClipRectFlags)
    requires
        !r.has_area(),
    ensures
        r.spec_clip(bounds, flags).is_none(),
{
    if r.spec_clip(bounds, flags).is_some() {
        lemma_clip_within_bounds(r, bounds, flags);
    }
}

/// A rectangle that has an area and already lies within the bounds is
/// returned unchanged, whichever sides are pinned.
pub proof fn lemma_clip_contained(r: Rectangle, bounds: Rectangle, flags: ClipRectFlags)
    requires
        r.has_area(),
        bounds.spec_contains(r),
    ensures
        r.spec_clip(bounds, flags) == Some(r),
{
}

/// Clipping what was clipped, to the same bounds, changes nothing more.
pub proof fn lemma_clip_idempotent(r: Rectangle, bounds: Rectangle, flags: ClipRectFlags)
    requires
        r.spec_clip(bounds, flags).is_some(),
    ensures
        r.spec_clip(bounds, flags).unwrap().spec_clip(bounds, flags) == r.spec_clip(bounds, flags),
{
    lemma_clip_within_bounds(r, bounds, flags);
    lemma_clip_contained(r.spec_clip(bounds, flags).unwrap(), bounds, flags);
}

/// With all four sides pinned, `clip` returns the intersection, and so
/// succeeds exactly when the two rectangles have an area and overlap.
pub proof fn lemma_clip_keep_all(r: Rectangle, bounds: Rectangle)
    ensures
        ({
            let all = ClipRectFlags { left: true, right: true, top: true, bottom: true };
            &&& r.spec_clip(bounds, all).is_some() <==> r.has_area() && bounds.has_area()
                && r.spec_overlaps(bounds)
            &&& r.spec_clip(bounds, all) matches Some(c) ==> r.spec_contains(c)
                && bounds.spec_contains(c)
        }),
{
    let all = ClipRectFlags { left: true, right: true, top: true, bottom: true };
    if r.spec_clip(bounds, all).is_some() {
        lemma_clip_within_bounds(r, bounds, all);
    }
}

/// A pinned side of a rectangle that lies within the bounds on that side
/// stays where it was.
pub proof fn lemma_clip_keeps_pinned(r: Rectangle, bounds: Rectangle, flags: ClipRectFlags)
    requires
        r.spec_clip(bounds, flags).is_some(),
    ensures
        ({
            let c = r.spec_clip(bounds, flags).unwrap();
            &&& flags.left && bounds.spec_left() <= r.spec_left() ==> c.spec_left() == r.spec_left()
            &&& flags.right && r.spec_right() <= bounds.spec_right() ==> c.spec_right()
                == r.spec_right()
            &&& flags.top && bounds.spec_top() <= r.spec_top() ==> c.spec_top() == r.spec_top()
            &&& flags.bottom && r.spec_bottom() <= bounds.spec_bottom() ==> c.spec_bottom()
                == r.spec_bottom()
        }),
{
    lemma_clip_within_bounds(r, bounds, flags);
}

/// `clamp` never shrinks: the result contains the rectangle it was made from,
/// its four edges are the ends of the two grown intervals, pinned sides stay,
/// and on each axis with a free side it reaches exactly the larger of the old
/// and the minimum length.
pub proof fn lemma_clamp_grows(r: Rectangle, min_dimensions: Dimensions, flags: ClipRectFlags)
    requires
        i32::MIN <= r.clamped_horizontal(min_dimensions, flags).0,
        i32::MIN <= r.clamped_vertical(min_dimensions, flags).0,
    ensures
        ({
            let c = r.spec_clamp(min_dimensions, flags);
            &&& c.spec_contains(r)
            &&& (c.spec_left(), c.spec_right()) == r.clamped_horizontal(min_dimensions, flags)
            &&& (c.spec_top(), c.spec_bottom()) == r.clamped_vertical(min_dimensions, flags)
            &&& flags.left ==> c.spec_left() == r.spec_left()
            &&& flags.right ==> c.spec_right() == r.spec_right()
            &&& flags.top ==> c.spec_top() == r.spec_top()
            &&& flags.bottom ==> c.spec_bottom() == r.spec_bottom()
            &&& !(flags.left && flags.right) ==> c.dimensions.width == vstd::math::max(
                r.dimensions.width as int,
                min_dimensions.width as int,
            )
            &&& !(flags.top && flags.bottom) ==> c.dimensions.height == vstd::math::max(
                r.dimensions.height as int,
                min_dimensions.height as int,
            )
        }),
{
}

/// A rectangle that is already as large as the minimum is returned
/// unchanged.
pub proof fn lemma_clamp_large_enough(
    r: Rectangle,
    min_dimensions: Dimensions,
    flags: ClipRectFlags,
)
    requires
        min_dimensions.spec_fits_within(r.dimensions),
    ensures
        r.spec_clamp(min_dimensions, flags) == r,
{
}

/// Clamping what was clamped, to the same minimum, changes nothing more.
pub proof fn lemma_clamp_idempotent(r: Rectangle, min_dimensions: Dimensions, flags: ClipRectFlags)
    requires
        i32::MIN <= r.clamped_horizontal(min_dimensions, flags).0,
        i32::MIN <= r.clamped_vertical(min_dimensions, flags).0,
    ensures
        r.spec_clamp(min_dimensions, flags).spec_clamp(min_dimensions, flags) == r.spec_clamp(
            min_dimensions,
            flags,
        ),
{
    lemma_clamp_grows(r, min_dimensions, flags);
}

} // verus!
