use vstd::prelude::*;

verus! {

/// A two-dimensional vector, used for positions, velocities and sizes.
#[derive(Clone, Copy, Debug, PartialEq, Eq, Structural)]
pub struct Vector2D<T> {
    pub x: T,
    pub y: T,
}

impl<T> Vector2D<T> {
    pub fn new(x: T, y: T) -> (r: Self)
        ensures
            r.x == x,
            r.y == y,
    {
        Vector2D { x, y }
    }
}

/// Integer vector; positions are kept in fixed point (see `math::ONE`).
pub type Vec2I = Vector2D<i32>;


/// The component-wise result fits in `i32`.
pub open spec fn fits(v: int) -> bool {
    i32::MIN <= v <= i32::MAX
}

impl Vector2D<i32> {
    pub fn add(&self, other: &Vec2I) -> (r: Vec2I)
        requires
            fits(self.x + other.x),
            fits(self.y + other.y),
        ensures
            r.x == self.x + other.x,
            r.y == self.y + other.y,
    {
        Vector2D { x: self.x + other.x, y: self.y + other.y }
    }

    pub fn add_assign(&mut self, other: Vec2I)
        requires
            fits(old(self).x + other.x),
            fits(old(self).y + other.y),
        ensures
            final(self).x == old(self).x + other.x,
            final(self).y == old(self).y + other.y,
    {
        self.x = self.x + other.x;
        self.y = self.y + other.y;
    }

    pub fn sub(&self, other: &Vec2I) -> (r: Vec2I)
        requires
            fits(self.x - other.x),
            fits(self.y - other.y),
        ensures
            r.x == self.x - other.x,
            r.y == self.y - other.y,
    {
        Vector2D { x: self.x - other.x, y: self.y - other.y }
    }

    pub fn mul(&self, rhs: i32) -> (r: Vec2I)
        requires
            fits(self.x * rhs),
            fits(self.y * rhs),
        ensures
            r.x == self.x * rhs,
            r.y == self.y * rhs,
    {
        Vector2D { x: self.x * rhs, y: self.y * rhs }
    }

    /// Division truncates toward zero, as Rust's `/` on integers does.
    pub fn div(&self, rhs: i32) -> (r: Vec2I)
        requires
            rhs > 0,
        ensures
            r.x == trunc_div(self.x as int, rhs as int),
            r.y == trunc_div(self.y as int, rhs as int),
    {
        Vector2D { x: div_toward_zero(self.x, rhs), y: div_toward_zero(self.y, rhs) }
    }

    pub fn neg(&self) -> (r: Vec2I)
        requires
            self.x != i32::MIN,
            self.y != i32::MIN,
        ensures
            r.x == -self.x,
            r.y == -self.y,
    {
        Vector2D { x: -self.x, y: -self.y }
    }
}

/// Integer quotient rounded toward zero.
pub open spec fn trunc_div(a: int, b: int) -> int {
    if a >= 0 {
        a / b
    } else {
        -((-a) / b)
    }
}

/// `a / b` rounded toward zero, for a positive divisor.
pub fn div_toward_zero(a: i32, b: i32) -> (r: i32)
    requires
        b > 0,
    ensures
        r == trunc_div(a as int, b as int),
{
    if a >= 0 {
        a / b
    } else {
        let m: i64 = -(a as i64);
        let q: i64 = m / (b as i64);
        proof {
            assert(0 <= q <= m) by (nonlinear_arith)
                requires m >= 0, b > 0, q == m / (b as i64);
        }
        let r: i64 = -q;
        r as i32
    }
}

} // verus!
