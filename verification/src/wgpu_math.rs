//! Integer pairs for window and surface sizes.

use vstd::prelude::*;

verus! {

/// A pair of signed coordinates or extents.
#[derive(Debug, Clone, Copy)]
pub struct Vec2i {
    pub x: i32,
    pub y: i32,
}

/// The quotient of `dividend` by `divisor` rounded toward zero, as integer
/// division does on machine integers.
pub open spec fn truncating_quotient(dividend: int, divisor: int) -> int {
    if dividend >= 0 {
        if divisor > 0 {
            dividend / divisor
        } else {
            -(dividend / (-divisor))
        }
    } else {
        if divisor > 0 {
            -((-dividend) / divisor)
        } else {
            (-dividend) / (-divisor)
        }
    }
}

/// Whether `dividend / divisor` has a value that fits: the divisor is not
/// zero and the quotient is not `-i32::MIN`.
pub open spec fn divisible(dividend: i32, divisor: i32) -> bool {
    divisor != 0 && !(dividend == i32::MIN && divisor == -1)
}

/// `dividend / divisor`, rounded toward zero.
fn quotient(dividend: i32, divisor: i32) -> (result: i32)
    requires
        divisible(dividend, divisor),
    ensures
        result == truncating_quotient(dividend as int, divisor as int),
{
    let wide_dividend = dividend as i64;
    let wide_divisor = divisor as i64;
    let wide = if wide_dividend >= 0 {
        if wide_divisor > 0 {
            wide_dividend / wide_divisor
        } else {
            -(wide_dividend / (-wide_divisor))
        }
    } else {
        if wide_divisor > 0 {
            -((-wide_dividend) / wide_divisor)
        } else {
            (-wide_dividend) / (-wide_divisor)
        }
    };
    assert(i32::MIN <= wide <= i32::MAX) by (nonlinear_arith)
        requires
            wide == truncating_quotient(dividend as int, divisor as int),
            divisor != 0,
            !(dividend == i32::MIN && divisor == -1),
    ;
    wide as i32
}

impl Vec2i {
    pub fn new(x: i32, y: i32) -> (v: Vec2i)
        ensures
            v.x == x,
            v.y == y,
    {
        Self { x, y }
    }

    /// The pair for an unsigned width and height. A dimension above
    /// `i32::MAX` is reinterpreted in two's complement.
    pub fn new_dim(size: (u32, u32)) -> (v: Vec2i)
        ensures
            v.x == size.0 as i32,
            v.y == size.1 as i32,
            size.0 <= i32::MAX ==> v.x == size.0,
            size.1 <= i32::MAX ==> v.y == size.1,
    {
        Self { x: size.0 as i32, y: size.1 as i32 }
    }

    pub fn zero() -> (v: Vec2i)
        ensures
            v.x == 0,
            v.y == 0,
    {
        Self { x: 0, y: 0 }
    }

    /// Both components times `multiplier`.
    pub fn multiply(&self, multiplier: i32) -> (v: Vec2i)
        requires
            i32::MIN <= self.x * multiplier <= i32::MAX,
            i32::MIN <= self.y * multiplier <= i32::MAX,
        ensures
            v.x == self.x * multiplier,
            v.y == self.y * multiplier,
    {
        return Self { x: self.x * multiplier, y: self.y * multiplier };
    }

    /// Both components divided by `divider`, rounded toward zero.
    pub fn divide_single(&self, divider: i32) -> (v: Vec2i)
        requires
            divisible(self.x, divider),
            divisible(self.y, divider),
        ensures
            v.x == truncating_quotient(self.x as int, divider as int),
            v.y == truncating_quotient(self.y as int, divider as int),
    {
        return Self { x: quotient(self.x, divider), y: quotient(self.y, divider) };
    }

    /// Each component divided by its own divisor, rounded toward zero.
    pub fn divide(&self, x: i32, y: i32) -> (v: Vec2i)
        requires
            divisible(self.x, x),
            divisible(self.y, y),
        ensures
            v.x == truncating_quotient(self.x as int, x as int),
            v.y == truncating_quotient(self.y as int, y as int),
    {
        return Self { x: quotient(self.x, x), y: quotient(self.y, y) };
    }

    /// The componentwise difference.
    pub fn subtract(&self, subtract: Vec2i) -> (v: Vec2i)
        requires
            i32::MIN <= self.x - subtract.x <= i32::MAX,
            i32::MIN <= self.y - subtract.y <= i32::MAX,
        ensures
            v.x == self.x - subtract.x,
            v.y == self.y - subtract.y,
    {
        return Self { x: self.x - subtract.x, y: self.y - subtract.y };
    }
}

} // verus!
