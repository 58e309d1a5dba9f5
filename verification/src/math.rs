//! Positions, offsets and axis-aligned rectangles on the integer point grid.

use vstd::prelude::*;

verus! {

/// The grid value nearest to `v`.
pub open spec fn clamp_to_grid(v: int) -> i32 {
    if v < i32::MIN {
        i32::MIN
    } else if v > i32::MAX {
        i32::MAX
    } else {
        v as i32
    }
}

/// Brings a wide intermediate value back onto the grid.
pub fn saturate(v: i64) -> (r: i32)
    ensures
        r == clamp_to_grid(v as int),
{
    if v < -0x8000_0000i64 {
        i32::MIN
    } else if v > 0x7fff_ffffi64 {
        i32::MAX
    } else {
        v as i32
    }
}

/// Half of `v`, rounded towards negative infinity.
pub fn half(v: i32) -> (r: i32)
    ensures
        r == v as int / 2,
{
    let wide: i64 = v as i64;
    if wide >= 0 {
        (wide / 2) as i32
    } else {
        (-((1 - wide) / 2)) as i32
    }
}

/// The smaller of two grid values.
pub open spec fn spec_min(a: int, b: int) -> int {
    if a <= b {
        a
    } else {
        b
    }
}

/// The larger of two grid values.
pub open spec fn spec_max(a: int, b: int) -> int {
    if a >= b {
        a
    } else {
        b
    }
}

/// An offset between two positions, or a size.
#[derive(Clone, Copy, Debug, PartialEq, Eq, Structural)]
pub struct Vec2 {
    pub x: i32,
    pub y: i32,
}

/// A position on the screen.
#[derive(Clone, Copy, Debug, PartialEq, Eq, Structural)]
pub struct Pos2 {
    pub x: i32,
    pub y: i32,
}

/// Builds an offset from its two components.
pub fn vec2(x: i32, y: i32) -> (v: Vec2)
    ensures
        v == (Vec2 { x, y }),
{
    Vec2 { x, y }
}

/// Builds a position from its two coordinates.
pub fn pos2(x: i32, y: i32) -> (p: Pos2)
    ensures
        p == (Pos2 { x, y }),
{
    Pos2 { x, y }
}

impl Vec2 {
    /// The offset of no movement.
    pub open spec fn spec_zero() -> Vec2 {
        Vec2 { x: 0, y: 0 }
    }

    #[verifier::when_used_as_spec(spec_zero)]
    pub fn zero() -> (v: Vec2)
        ensures
            v == Vec2::spec_zero(),
    {
        Vec2 { x: 0, y: 0 }
    }

    /// Each component halved, rounded towards negative infinity.
    pub open spec fn spec_halved(self) -> Vec2 {
        Vec2 { x: (self.x as int / 2) as i32, y: (self.y as int / 2) as i32 }
    }

    #[verifier::when_used_as_spec(spec_halved)]
    pub fn halved(self) -> (v: Vec2)
        ensures
            v == self.spec_halved(),
    {
        Vec2 { x: half(self.x), y: half(self.y) }
    }
}

impl Pos2 {
    /// The position reached from `self` by `v`, saturating at the grid's ends.
    pub open spec fn spec_offset(self, v: Vec2) -> Pos2 {
        Pos2 { x: clamp_to_grid(self.x + v.x), y: clamp_to_grid(self.y + v.y) }
    }

    #[verifier::when_used_as_spec(spec_offset)]
    pub fn offset(self, v: Vec2) -> (p: Pos2)
        ensures
            p == self.spec_offset(v),
    {
        Pos2 {
            x: saturate(self.x as i64 + v.x as i64),
            y: saturate(self.y as i64 + v.y as i64),
        }
    }

    /// The offset that leads from `origin` to `self`, saturating at the
    /// grid's ends.
    pub open spec fn spec_offset_from(self, origin: Pos2) -> Vec2 {
        Vec2 { x: clamp_to_grid(self.x - origin.x), y: clamp_to_grid(self.y - origin.y) }
    }

    #[verifier::when_used_as_spec(spec_offset_from)]
    pub fn offset_from(self, origin: Pos2) -> (v: Vec2)
        ensures
            v == self.spec_offset_from(origin),
    {
        Vec2 {
            x: saturate(self.x as i64 - origin.x as i64),
            y: saturate(self.y as i64 - origin.y as i64),
        }
    }

    /// Whether the Euclidean distance between the two positions is strictly
    /// less than `radius`, stated without a square root.
    pub open spec fn spec_is_within(self, other: Pos2, radius: i32) -> bool {
        let dx = self.x - other.x;
        let dy = self.y - other.y;
        radius > 0 && dx * dx + dy * dy < radius * radius
    }

    #[verifier::when_used_as_spec(spec_is_within)]
    pub fn is_within(self, other: Pos2, radius: i32) -> (b: bool)
        ensures
            b == self.spec_is_within(other, radius),
    {
        if radius <= 0 {
            return false;
        }
        let dx: i128 = self.x as i128 - other.x as i128;
        let dy: i128 = self.y as i128 - other.y as i128;
        let r: i128 = radius as i128;
        proof {
            lemma_square_bound(dx as int, 0x1_0000_0000);
            lemma_square_bound(dy as int, 0x1_0000_0000);
            lemma_square_bound(r as int, 0x1_0000_0000);
        }
        dx * dx + dy * dy < r * r
    }
}

/// A square is bounded by the square of a bound on the magnitude.
pub proof fn lemma_square_bound(v: int, bound: int)
    requires
        -bound <= v <= bound,
    ensures
        0 <= v * v <= bound * bound,
{
    assert(0 <= v * v <= bound * bound) by (nonlinear_arith)
        requires
            -bound <= v <= bound,
    ;
}

/// An axis-aligned rectangle, given by its corners. A rectangle whose `max`
/// lies below or left of its `min` contains no position.
#[derive(Clone, Copy, Debug, PartialEq, Eq, Structural)]
pub struct Rect {
    pub min: Pos2,
    pub max: Pos2,
}

impl Rect {
    /// The rectangle that covers the whole grid.
    pub open spec fn spec_everything() -> Rect {
        Rect {
            min: Pos2 { x: i32::MIN, y: i32::MIN },
            max: Pos2 { x: i32::MAX, y: i32::MAX },
        }
    }

    #[verifier::when_used_as_spec(spec_everything)]
    pub fn everything() -> (r: Rect)
        ensures
            r == Rect::spec_everything(),
    {
        Rect {
            min: Pos2 { x: i32::MIN, y: i32::MIN },
            max: Pos2 { x: i32::MAX, y: i32::MAX },
        }
    }

    /// The rectangle with the given top-left corner and size.
    pub open spec fn spec_from_min_size(min: Pos2, size: Vec2) -> Rect {
        Rect { min, max: min.spec_offset(size) }
    }

    #[verifier::when_used_as_spec(spec_from_min_size)]
    pub fn from_min_size(min: Pos2, size: Vec2) -> (r: Rect)
        ensures
            r == Rect::spec_from_min_size(min, size),
    {
        Rect { min, max: min.offset(size) }
    }

    /// The rectangle that reaches half of `size` from `center` to each side.
    pub open spec fn spec_from_center_size(center: Pos2, size: Vec2) -> Rect {
        let h = size.spec_halved();
        Rect {
            min: Pos2 { x: clamp_to_grid(center.x - h.x), y: clamp_to_grid(center.y - h.y) },
            max: Pos2 { x: clamp_to_grid(center.x + h.x), y: clamp_to_grid(center.y + h.y) },
        }
    }

    #[verifier::when_used_as_spec(spec_from_center_size)]
    pub fn from_center_size(center: Pos2, size: Vec2) -> (r: Rect)
        ensures
            r == Rect::spec_from_center_size(center, size),
    {
        let h = size.halved();
        Rect {
            min: Pos2 {
                x: saturate(center.x as i64 - h.x as i64),
                y: saturate(center.y as i64 - h.y as i64),
            },
            max: Pos2 {
                x: saturate(center.x as i64 + h.x as i64),
                y: saturate(center.y as i64 + h.y as i64),
            },
        }
    }

    /// The rectangle grown by `amount` on each side, per axis. A negative
    /// amount shrinks it.
    pub open spec fn spec_expand2(self, amount: Vec2) -> Rect {
        Rect {
            min: Pos2 {
                x: clamp_to_grid(self.min.x - amount.x),
                y: clamp_to_grid(self.min.y - amount.y),
            },
            max: Pos2 {
                x: clamp_to_grid(self.max.x + amount.x),
                y: clamp_to_grid(self.max.y + amount.y),
            },
        }
    }

    #[verifier::when_used_as_spec(spec_expand2)]
    pub fn expand2(self, amount: Vec2) -> (r: Rect)
        ensures
            r == self.spec_expand2(amount),
    {
        Rect {
            min: Pos2 {
                x: saturate(self.min.x as i64 - amount.x as i64),
                y: saturate(self.min.y as i64 - amount.y as i64),
            },
            max: Pos2 {
                x: saturate(self.max.x as i64 + amount.x as i64),
                y: saturate(self.max.y as i64 + amount.y as i64),
            },
        }
    }

    /// The rectangle grown by `amount` on all four sides.
    pub open spec fn spec_expand(self, amount: i32) -> Rect {
        self.spec_expand2(Vec2 { x: amount, y: amount })
    }

    #[verifier::when_used_as_spec(spec_expand)]
    pub fn expand(self, amount: i32) -> (r: Rect)
        ensures
            r == self.spec_expand(amount),
    {
        self.expand2(Vec2 { x: amount, y: amount })
    }

    /// The part that the two rectangles share.
    pub open spec fn spec_intersect(self, other: Rect) -> Rect {
        Rect {
            min: Pos2 {
                x: spec_max(self.min.x as int, other.min.x as int) as i32,
                y: spec_max(self.min.y as int, other.min.y as int) as i32,
            },
            max: Pos2 {
                x: spec_min(self.max.x as int, other.max.x as int) as i32,
                y: spec_min(self.max.y as int, other.max.y as int) as i32,
            },
        }
    }

    #[verifier::when_used_as_spec(spec_intersect)]
    pub fn intersect(self, other: Rect) -> (r: Rect)
        ensures
            r == self.spec_intersect(other),
    {
        Rect {
            min: Pos2 {
                x: if self.min.x >= other.min.x { self.min.x } else { other.min.x },
                y: if self.min.y >= other.min.y { self.min.y } else { other.min.y },
            },
            max: Pos2 {
                x: if self.max.x <= other.max.x { self.max.x } else { other.max.x },
                y: if self.max.y <= other.max.y { self.max.y } else { other.max.y },
            },
        }
    }

    /// Whether `p` lies inside the rectangle, its edges included.
    pub open spec fn spec_contains(self, p: Pos2) -> bool {
        &&& self.min.x <= p.x <= self.max.x
        &&& self.min.y <= p.y <= self.max.y
    }

    #[verifier::when_used_as_spec(spec_contains)]
    pub fn contains(self, p: Pos2) -> (b: bool)
        ensures
            b == self.spec_contains(p),
    {
        self.min.x <= p.x && p.x <= self.max.x && self.min.y <= p.y && p.y <= self.max.y
    }

    /// The midpoint of the two corners, rounded towards negative infinity.
    pub open spec fn spec_center(self) -> Pos2 {
        Pos2 {
            x: ((self.min.x + self.max.x) / 2) as i32,
            y: ((self.min.y + self.max.y) / 2) as i32,
        }
    }

    #[verifier::when_used_as_spec(spec_center)]
    pub fn center(self) -> (p: Pos2)
        ensures
            p == self.spec_center(),
    {
        Pos2 { x: midpoint(self.min.x, self.max.x), y: midpoint(self.min.y, self.max.y) }
    }

    /// The offset from `min` to `max`, saturating at the grid's ends.
    pub open spec fn spec_size(self) -> Vec2 {
        self.max.spec_offset_from(self.min)
    }

    #[verifier::when_used_as_spec(spec_size)]
    pub fn size(self) -> (v: Vec2)
        ensures
            v == self.spec_size(),
    {
        self.max.offset_from(self.min)
    }

    /// The horizontal extent.
    pub open spec fn spec_width(self) -> i32 {
        self.spec_size().x
    }

    #[verifier::when_used_as_spec(spec_width)]
    pub fn width(self) -> (w: i32)
        ensures
            w == self.spec_width(),
    {
        self.size().x
    }

    /// The vertical extent.
    pub open spec fn spec_height(self) -> i32 {
        self.spec_size().y
    }

    #[verifier::when_used_as_spec(spec_height)]
    pub fn height(self) -> (h: i32)
        ensures
            h == self.spec_height(),
    {
        self.size().y
    }
}

/// The midpoint of two grid values, rounded towards negative infinity.
pub fn midpoint(a: i32, b: i32) -> (m: i32)
    ensures
        m == (a + b) / 2,
{
    let sum: i64 = a as i64 + b as i64;
    if sum >= 0 {
        (sum / 2) as i32
    } else {
        (-((1 - sum) / 2)) as i32
    }
}

/// The quotient of `n` by a positive `d`, rounded towards negative infinity.
pub fn floor_div(n: i128, d: i128) -> (q: i128)
    requires
        d > 0,
        -0x4000_0000_0000_0000_0000_0000_0000_0000 <= n - d,
        n + d <= 0x4000_0000_0000_0000_0000_0000_0000_0000,
    ensures
        q == n as int / d as int,
{
    if n >= 0 {
        n / d
    } else {
        let m: i128 = -n + d - 1;
        let t: i128 = m / d;
        proof {
            lemma_floor_of_negative(n as int, d as int);
        }
        -t
    }
}

/// For a negative numerator, rounding down is the negation of rounding the
/// magnitude up.
pub proof fn lemma_floor_of_negative(n: int, d: int)
    requires
        n < 0,
        d > 0,
    ensures
        n / d == -((-n + d - 1) / d),
{
    let q = (-n + d - 1) / d;
    let r = (-n + d - 1) % d;
    vstd::arithmetic::div_mod::lemma_fundamental_div_mod(-n + d - 1, d);
    vstd::arithmetic::div_mod::lemma_mod_bound(-n + d - 1, d);
    // -n + d - 1 == d * q + r with 0 <= r < d, so n == d * (-q) + (d - 1 - r).
    assert(n == d * (-q) + (d - 1 - r)) by (nonlinear_arith)
        requires
            -n + d - 1 == d * q + r,
    ;
    vstd::arithmetic::div_mod::lemma_fundamental_div_mod_converse(n, d, -q, d - 1 - r);
}

/// The value `num / den` of the way from `from` to `to`, rounded towards
/// negative infinity and saturating at the grid's ends. A denominator that
/// is not positive gives `from`.
pub open spec fn spec_lerp(from: i32, to: i32, num: i32, den: i32) -> i32 {
    if den <= 0 {
        from
    } else {
        clamp_to_grid(from + ((to - from) * num) / (den as int))
    }
}

#[verifier::when_used_as_spec(spec_lerp)]
pub fn lerp(from: i32, to: i32, num: i32, den: i32) -> (r: i32)
    ensures
        r == spec_lerp(from, to, num, den),
{
    if den <= 0 {
        return from;
    }
    let span: i128 = to as i128 - from as i128;
    let factor: i128 = num as i128;
    proof {
        lemma_product_bound(span as int, factor as int, 0x1_0000_0000, 0x8000_0000);
    }
    let scaled: i128 = span * factor;
    let q: i128 = floor_div(scaled, den as i128);
    proof {
        lemma_quotient_bound(scaled as int, den as int, 0x8000_0000_0000_0000);
    }
    let sum: i128 = from as i128 + q;
    if sum < -0x8000_0000i128 {
        i32::MIN
    } else if sum > 0x7fff_ffffi128 {
        i32::MAX
    } else {
        sum as i32
    }
}

/// A product is bounded by the product of bounds on the magnitudes.
pub proof fn lemma_product_bound(a: int, b: int, bound_a: int, bound_b: int)
    requires
        -bound_a <= a <= bound_a,
        -bound_b <= b <= bound_b,
    ensures
        -(bound_a * bound_b) <= a * b <= bound_a * bound_b,
{
    assert(-(bound_a * bound_b) <= a * b <= bound_a * bound_b) by (nonlinear_arith)
        requires
            -bound_a <= a <= bound_a,
            -bound_b <= b <= bound_b,
    ;
}

/// Dividing by a positive number does not grow the magnitude.
pub proof fn lemma_quotient_bound(n: int, d: int, bound: int)
    requires
        d > 0,
        -bound <= n <= bound,
    ensures
        -bound <= n / d <= bound,
{
    vstd::arithmetic::div_mod::lemma_fundamental_div_mod(n, d);
    vstd::arithmetic::div_mod::lemma_mod_bound(n, d);
    let q = n / d;
    let r = n % d;
    assert(-bound <= q <= bound) by (nonlinear_arith)
        requires
            n == d * q + r,
            0 <= r < d,
            d > 0,
            -bound <= n <= bound,
    ;
}

/// Maps `value` from the range `from_min ..= from_max` onto the range
/// `to_min ..= to_max`. A value at or below `from_min` gives `to_min`, one
/// at or above `from_max` gives `to_max`; between them the result is
/// interpolated and rounded towards negative infinity.
pub open spec fn spec_remap_clamp(value: i64, from_min: i64, from_max: i64, to_min: i32, to_max: i32) -> i32 {
    if value <= from_min {
        to_min
    } else if from_max <= value {
        to_max
    } else {
        (to_min + ((value - from_min) * (to_max - to_min)) / (from_max - from_min)) as i32
    }
}

/// An interpolated value lies between the two ends of the target range.
pub proof fn lemma_remap_between(value: i64, from_min: i64, from_max: i64, to_min: i32, to_max: i32)
    ensures
        spec_min(to_min as int, to_max as int) <= spec_remap_clamp(
            value,
            from_min,
            from_max,
            to_min,
            to_max,
        ) <= spec_max(to_min as int, to_max as int),
        from_min < value < from_max ==> spec_remap_clamp(value, from_min, from_max, to_min, to_max)
            == to_min + ((value - from_min) * (to_max - to_min)) / (from_max - from_min),
{
    if from_min < value < from_max {
        let a = value - from_min;
        let d = from_max - from_min;
        let w = to_max - to_min;
        lemma_scaled_between(a, d, w);
    }
}

/// Scaling `w` by a proper fraction `a / d` gives a value between zero and `w`.
pub proof fn lemma_scaled_between(a: int, d: int, w: int)
    requires
        0 < a < d,
    ensures
        w >= 0 ==> 0 <= (a * w) / d <= w,
        w < 0 ==> w <= (a * w) / d <= 0,
{
    let n = a * w;
    vstd::arithmetic::div_mod::lemma_fundamental_div_mod(n, d);
    vstd::arithmetic::div_mod::lemma_mod_bound(n, d);
    let q = n / d;
    let r = n % d;
    if w >= 0 {
        assert(0 <= q <= w) by (nonlinear_arith)
            requires
                n == a * w,
                n == d * q + r,
                0 <= r < d,
                0 < a < d,
                w >= 0,
        ;
    } else {
        assert(w <= q <= 0) by (nonlinear_arith)
            requires
                n == a * w,
                n == d * q + r,
                0 <= r < d,
                0 < a < d,
                w < 0,
        ;
    }
}

#[verifier::when_used_as_spec(spec_remap_clamp)]
pub fn remap_clamp(value: i64, from_min: i64, from_max: i64, to_min: i32, to_max: i32) -> (r: i32)
    ensures
        r == spec_remap_clamp(value, from_min, from_max, to_min, to_max),
{
    if value <= from_min {
        return to_min;
    }
    if from_max <= value {
        return to_max;
    }
    let a: i128 = value as i128 - from_min as i128;
    let d: i128 = from_max as i128 - from_min as i128;
    let w: i128 = to_max as i128 - to_min as i128;
    proof {
        lemma_product_bound(a as int, w as int, 0x1_0000_0000_0000_0000, 0x1_0000_0000);
        lemma_scaled_between(a as int, d as int, w as int);
    }
    let scaled: i128 = a * w;
    let q: i128 = floor_div(scaled, d);
    (to_min as i128 + q) as i32
}

/// Where a rectangle lies relative to a position, along one axis.
#[derive(Clone, Copy, Debug, PartialEq, Eq, Structural)]
pub enum Align {
    /// The rectangle begins at the position.
    Min,
    /// The rectangle is centred on the position.
    Center,
    /// The rectangle ends at the position.
    Max,
}

/// The start of an extent of length `length` that is aligned at `anchor`.
pub open spec fn spec_align_start(anchor: i32, length: i32, align: Align) -> i32 {
    match align {
        Align::Min => anchor,
        Align::Center => clamp_to_grid(anchor - length as int / 2),
        Align::Max => clamp_to_grid(anchor - length),
    }
}

#[verifier::when_used_as_spec(spec_align_start)]
pub fn align_start(anchor: i32, length: i32, align: Align) -> (start: i32)
    ensures
        start == spec_align_start(anchor, length, align),
{
    match align {
        Align::Min => anchor,
        Align::Center => saturate(anchor as i64 - half(length) as i64),
        Align::Max => saturate(anchor as i64 - length as i64),
    }
}

/// The rectangle of the size of `rect` that is aligned at the top-left
/// corner of `rect`, per axis.
pub open spec fn spec_align_rect(rect: Rect, align_x: Align, align_y: Align) -> Rect {
    Rect::spec_from_min_size(
        Pos2 {
            x: spec_align_start(rect.min.x, rect.spec_width(), align_x),
            y: spec_align_start(rect.min.y, rect.spec_height(), align_y),
        },
        rect.spec_size(),
    )
}

#[verifier::when_used_as_spec(spec_align_rect)]
pub fn align_rect(rect: Rect, align_x: Align, align_y: Align) -> (aligned: Rect)
    ensures
        aligned == spec_align_rect(rect, align_x, align_y),
{
    Rect::from_min_size(
        Pos2 {
            x: align_start(rect.min.x, rect.width(), align_x),
            y: align_start(rect.min.y, rect.height(), align_y),
        },
        rect.size(),
    )
}

} // verus!
