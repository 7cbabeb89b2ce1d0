//! Three-component integer vectors.
//!
//! The outside solver computes over floating-point coordinates; the engine
//! models every coordinate, velocity and force as a signed integer count of
//! fixed base units, so that force accumulation, lever arms and direction
//! scaling are exact and provable. Magnitudes are kept inside
//! [`COORD_LIMIT`] so that every product in the engine fits in 64 bits.

use vstd::prelude::*;

verus! {

use vstd::math::abs;

/// Largest coordinate magnitude the engine works with.
pub const COORD_LIMIT: i64 = 0x100000;

#[derive(Clone, Copy, PartialEq, Eq, Structural, Debug)]
pub struct V3 {
    pub x: i64,
    pub y: i64,
    pub z: i64,
}

/// All three components lie within `[-b, b]`.
pub open spec fn in_bounds(v: V3, b: int) -> bool {
    -b <= v.x <= b && -b <= v.y <= b && -b <= v.z <= b
}

impl V3 {
    pub fn zero() -> (r: V3)
        ensures
            r == (V3 { x: 0, y: 0, z: 0 }),
    {
        V3 { x: 0, y: 0, z: 0 }
    }

    pub open spec fn spec_plus(self, o: V3) -> V3 {
        V3 { x: (self.x + o.x) as i64, y: (self.y + o.y) as i64, z: (self.z + o.z) as i64 }
    }

    pub fn plus(self, o: V3) -> (r: V3)
        requires
            i64::MIN <= self.x + o.x <= i64::MAX,
            i64::MIN <= self.y + o.y <= i64::MAX,
            i64::MIN <= self.z + o.z <= i64::MAX,
        ensures
            r == self.spec_plus(o),
            r.x == self.x + o.x && r.y == self.y + o.y && r.z == self.z + o.z,
    {
        V3 { x: self.x + o.x, y: self.y + o.y, z: self.z + o.z }
    }

    pub open spec fn spec_minus(self, o: V3) -> V3 {
        V3 { x: (self.x - o.x) as i64, y: (self.y - o.y) as i64, z: (self.z - o.z) as i64 }
    }

    pub fn minus(self, o: V3) -> (r: V3)
        requires
            i64::MIN <= self.x - o.x <= i64::MAX,
            i64::MIN <= self.y - o.y <= i64::MAX,
            i64::MIN <= self.z - o.z <= i64::MAX,
        ensures
            r == self.spec_minus(o),
            r.x == self.x - o.x && r.y == self.y - o.y && r.z == self.z - o.z,
    {
        V3 { x: self.x - o.x, y: self.y - o.y, z: self.z - o.z }
    }

    pub open spec fn spec_neg(self) -> V3 {
        V3 { x: (-self.x) as i64, y: (-self.y) as i64, z: (-self.z) as i64 }
    }

    pub fn neg(self) -> (r: V3)
        requires
            self.x != i64::MIN && self.y != i64::MIN && self.z != i64::MIN,
        ensures
            r == self.spec_neg(),
            r.x == -self.x && r.y == -self.y && r.z == -self.z,
    {
        V3 { x: -self.x, y: -self.y, z: -self.z }
    }

    pub open spec fn spec_scaled(self, k: int) -> V3 {
        V3 { x: (k * self.x) as i64, y: (k * self.y) as i64, z: (k * self.z) as i64 }
    }

    /// Componentwise product with a scalar.
    pub fn scaled(self, k: i64) -> (r: V3)
        requires
            i64::MIN <= k * self.x <= i64::MAX,
            i64::MIN <= k * self.y <= i64::MAX,
            i64::MIN <= k * self.z <= i64::MAX,
        ensures
            r == self.spec_scaled(k as int),
            r.x == k * self.x && r.y == k * self.y && r.z == k * self.z,
    {
        V3 { x: k * self.x, y: k * self.y, z: k * self.z }
    }

    pub open spec fn spec_cross(self, o: V3) -> V3 {
        V3 {
            x: (self.y * o.z - self.z * o.y) as i64,
            y: (self.z * o.x - self.x * o.z) as i64,
            z: (self.x * o.y - self.y * o.x) as i64,
        }
    }

    /// Cross product; the torque of a force applied through a lever arm.
    pub fn cross(self, o: V3) -> (r: V3)
        requires
            in_bounds(self, 0x40000000),
            in_bounds(o, 0x40000000),
        ensures
            r == self.spec_cross(o),
            r.x == self.y * o.z - self.z * o.y,
            r.y == self.z * o.x - self.x * o.z,
            r.z == self.x * o.y - self.y * o.x,
    {
        proof {
            lemma_mul_bound(self.y as int, 0x40000000, o.z as int, 0x40000000);
            lemma_mul_bound(self.z as int, 0x40000000, o.y as int, 0x40000000);
            lemma_mul_bound(self.z as int, 0x40000000, o.x as int, 0x40000000);
            lemma_mul_bound(self.x as int, 0x40000000, o.z as int, 0x40000000);
            lemma_mul_bound(self.x as int, 0x40000000, o.y as int, 0x40000000);
            lemma_mul_bound(self.y as int, 0x40000000, o.x as int, 0x40000000);
        }
        V3 {
            x: self.y * o.z - self.z * o.y,
            y: self.z * o.x - self.x * o.z,
            z: self.x * o.y - self.y * o.x,
        }
    }
}

/// `|a| <= p` and `|b| <= q` bound the product by `p * q`.
pub proof fn lemma_mul_bound(a: int, p: int, b: int, q: int)
    requires
        0 <= p,
        0 <= q,
        -p <= a <= p,
        -q <= b <= q,
    ensures
        -(p * q) <= a * b <= p * q,
{
    assert(-(p * q) <= a * b <= p * q) by (nonlinear_arith)
        requires
            0 <= p,
            0 <= q,
            -p <= a <= p,
            -q <= b <= q,
    ;
}

/// A nonnegative numerator below `m * n` divides by `n` to at most `m`.
pub proof fn lemma_quot_le(x: int, m: int, n: int)
    requires
        n >= 1,
        0 <= x,
        x <= m * n,
    ensures
        0 <= x / n <= m,
{
    vstd::arithmetic::div_mod::lemma_div_pos_is_pos(x, n);
    vstd::arithmetic::div_mod::lemma_div_is_ordered(x, m * n, n);
    vstd::arithmetic::div_mod::lemma_div_multiples_vanish(m, n);
    assert(m * n == n * m) by (nonlinear_arith);
}

/// A numerator no larger than the denominator keeps the scaled quotient
/// within the scale: `|d| <= n` gives `|scaled_quot(d, k, n)| <= k`.
pub proof fn lemma_scaled_quot_within_scale(d: int, k: int, n: int)
    requires
        n >= 1,
        0 <= k,
        -n <= d <= n,
    ensures
        -k <= scaled_quot(d, k, n) <= k,
{
    if d >= 0 {
        assert(0 <= d * k <= k * n) by (nonlinear_arith)
            requires
                0 <= d <= n,
                0 <= k,
        ;
        lemma_quot_le(d * k, k, n);
    } else {
        assert(0 <= (-d) * k <= k * n) by (nonlinear_arith)
            requires
                -n <= d < 0,
                0 <= k,
        ;
        lemma_quot_le((-d) * k, k, n);
    }
}

/// A scale factor no larger than the denominator shrinks the numerator:
/// `k <= n` and `|d| <= b` give `|scaled_quot(d, k, n)| <= b`.
pub proof fn lemma_scaled_quot_shrinks(d: int, k: int, n: int, b: int)
    requires
        n >= 1,
        0 <= k <= n,
        -b <= d <= b,
    ensures
        -b <= scaled_quot(d, k, n) <= b,
{
    if d >= 0 {
        assert(0 <= d * k <= b * n) by (nonlinear_arith)
            requires
                0 <= d <= b,
                0 <= k <= n,
        ;
        lemma_quot_le(d * k, b, n);
    } else {
        assert(0 <= (-d) * k <= b * n) by (nonlinear_arith)
            requires
                -b <= d < 0,
                0 <= k <= n,
        ;
        lemma_quot_le((-d) * k, b, n);
    }
}

/// Integer square root: the greatest `r` with `r * r <= n`.
pub fn isqrt64(n: u64) -> (r: u64)
    ensures
        r * r <= n,
        n < (r + 1) * (r + 1),
{
    if n == 0 {
        return 0;
    }
    let mut lo: u64 = 0;
    let mut hi: u64 = 0x100000000;
    proof {
        assert(n < 0x100000000u64 * 0x100000000u64) by (nonlinear_arith)
            requires
                n <= u64::MAX,
        ;
    }
    while lo + 1 < hi
        invariant
            lo < hi <= 0x100000000,
            lo * lo <= n,
            n < hi * hi,
        decreases hi - lo,
    {
        let mid = lo + (hi - lo) / 2;
        assert(lo < mid < hi);
        assert(mid * mid < 0x10000000000000000) by (nonlinear_arith)
            requires
                mid < 0x100000000u64,
        ;
        if mid * mid <= n {
            lo = mid;
        } else {
            hi = mid;
        }
    }
    lo
}

/// Truncating scaled quotient of a signed numerator: `sign(d) * (|d| * k / n)`.
pub open spec fn scaled_quot(d: int, k: int, n: int) -> int {
    if d >= 0 {
        d * k / n
    } else {
        -((-d) * k / n)
    }
}

/// The squared length of the difference `to - from`.
pub open spec fn dist_sq(from: V3, to: V3) -> int {
    (to.x - from.x) * (to.x - from.x) + (to.y - from.y) * (to.y - from.y) + (to.z - from.z) * (to.z
        - from.z)
}

/// A direction vector of magnitude about `scale` pointing from `from` toward
/// `to`: each component is the difference scaled by `scale` and divided by the
/// integer square root of the squared distance. Returns `None` when the two
/// points coincide.
pub fn scaled_dir(from: V3, to: V3, scale: u64) -> (r: Option<V3>)
    requires
        in_bounds(from, COORD_LIMIT as int),
        in_bounds(to, COORD_LIMIT as int),
        scale <= 0x100000,
    ensures
        (r is None) <==> (from == to),
        r matches Some(d) ==> {
            let n = isqrt_spec(dist_sq(from, to));
            &&& d.x == scaled_quot(to.x - from.x, scale as int, n)
            &&& d.y == scaled_quot(to.y - from.y, scale as int, n)
            &&& d.z == scaled_quot(to.z - from.z, scale as int, n)
        },
        r matches Some(d) ==> in_bounds(d, scale as int),
{
    let dx = to.x - from.x;
    let dy = to.y - from.y;
    let dz = to.z - from.z;
    if dx == 0 && dy == 0 && dz == 0 {
        return None;
    }
    let ax = abs_small(dx);
    let ay = abs_small(dy);
    let az = abs_small(dz);
    proof {
        lemma_mul_bound(dx as int, 2 * COORD_LIMIT as int, dx as int, 2 * COORD_LIMIT as int);
        lemma_mul_bound(dy as int, 2 * COORD_LIMIT as int, dy as int, 2 * COORD_LIMIT as int);
        lemma_mul_bound(dz as int, 2 * COORD_LIMIT as int, dz as int, 2 * COORD_LIMIT as int);
        assert(ax * ax == dx * dx && ay * ay == dy * dy && az * az == dz * dz) by (nonlinear_arith)
            requires
                ax == abs(dx as int),
                ay == abs(dy as int),
                az == abs(dz as int),
        ;
    }
    let nsq = ax * ax + ay * ay + az * az;
    proof {
        assert(ax >= 1 || ay >= 1 || az >= 1);
        assert(ax * ax + ay * ay + az * az >= 1) by (nonlinear_arith)
            requires
                ax >= 1 || ay >= 1 || az >= 1,
        ;
    }
    let n = isqrt64(nsq);
    proof {
        lemma_isqrt_unique(nsq as int, n as int);
        assert(n >= 1) by (nonlinear_arith)
            requires
                n * n <= nsq < (n + 1) * (n + 1),
                nsq >= 1,
        ;
    }
    proof {
        assert(ax <= n && ay <= n && az <= n) by (nonlinear_arith)
            requires
                ax * ax <= nsq && ay * ay <= nsq && az * az <= nsq,
                nsq < (n + 1) * (n + 1),
                0 <= n && 0 <= ax && 0 <= ay && 0 <= az,
        ;
        lemma_scaled_quot_within_scale(dx as int, scale as int, n as int);
        lemma_scaled_quot_within_scale(dy as int, scale as int, n as int);
        lemma_scaled_quot_within_scale(dz as int, scale as int, n as int);
    }
    let rx = signed_scaled_quot(dx, scale, n);
    let ry = signed_scaled_quot(dy, scale, n);
    let rz = signed_scaled_quot(dz, scale, n);
    Some(V3 { x: rx, y: ry, z: rz })
}

/// What [`isqrt64`] returns, as a function of its argument.
pub open spec fn isqrt_spec(n: int) -> int
    decreases n,
{
    if n <= 0 {
        0
    } else {
        let r = isqrt_spec(n - 1);
        if (r + 1) * (r + 1) <= n {
            r + 1
        } else {
            r
        }
    }
}

/// The defining property of [`isqrt_spec`].
pub proof fn lemma_isqrt_spec(n: int)
    requires
        0 <= n,
    ensures
        0 <= isqrt_spec(n),
        isqrt_spec(n) * isqrt_spec(n) <= n,
        n < (isqrt_spec(n) + 1) * (isqrt_spec(n) + 1),
    decreases n,
{
    if n > 0 {
        lemma_isqrt_spec(n - 1);
        let r = isqrt_spec(n - 1);
        if (r + 1) * (r + 1) <= n {
            assert(n < (r + 2) * (r + 2)) by (nonlinear_arith)
                requires
                    0 <= r,
                    n - 1 < (r + 1) * (r + 1),
            ;
        }
    }
}

/// The integer square root is unique, so any witness equals `isqrt_spec`.
pub proof fn lemma_isqrt_unique(n: int, r: int)
    requires
        0 <= r,
        r * r <= n < (r + 1) * (r + 1),
    ensures
        isqrt_spec(n) == r,
{
    assert(0 <= n) by (nonlinear_arith)
        requires
            0 <= r,
            r * r <= n,
    ;
    lemma_isqrt_spec(n);
    let q = isqrt_spec(n);
    assert(q == r) by (nonlinear_arith)
        requires
            0 <= r,
            0 <= q,
            r * r <= n < (r + 1) * (r + 1),
            q * q <= n < (q + 1) * (q + 1),
    ;
}

/// The absolute value of an integer away from `i64::MIN`.
pub(crate) fn abs_small(d: i64) -> (r: u64)
    requires
        d != i64::MIN,
    ensures
        r == abs(d as int),
{
    if d >= 0 {
        d as u64
    } else {
        (-d) as u64
    }
}

/// `sign(d) * (|d| * k / n)` over machine integers.
pub(crate) fn signed_scaled_quot(d: i64, k: u64, n: u64) -> (r: i64)
    requires
        -(2 * COORD_LIMIT as int) <= d <= 2 * COORD_LIMIT as int,
        k <= 0x100000,
        n >= 1,
    ensures
        r == scaled_quot(d as int, k as int, n as int),
{
    let a = abs_small(d);
    proof {
        lemma_mul_bound(a as int, 0x200000, k as int, 0x100000);
        assert((a * k) as int / n as int <= a * k) by (nonlinear_arith)
            requires
                n >= 1,
                a * k >= 0,
        ;
    }
    let q = a * k / n;
    if d >= 0 {
        proof {
            assert(a == d);
        }
        q as i64
    } else {
        proof {
            assert(a == -(d as int));
        }
        -(q as i64)
    }
}

} // verus!
