//! Component-wise arithmetic on sizes that reports overflow and division by zero with `None`.

use vstd::prelude::*;

use crate::geometry::Size;

verus! {

/// Division rounding up, for a positive divisor.
pub open spec fn div_ceil(a: int, b: int) -> int {
    a / b + if a % b == 0 {
        0int
    } else {
        1int
    }
}

/// The smallest multiple of a positive `b` that is greater than or equal to `a`.
pub open spec fn next_multiple_of(a: int, b: int) -> int {
    if a % b == 0 {
        a
    } else {
        a + (b - a % b)
    }
}

/// `a.div_ceil(b)` on `u32`, for a positive `b`.
fn div_ceil_u32(a: u32, b: u32) -> (r: u32)
    requires
        b > 0,
    ensures
        r == div_ceil(a as int, b as int),
{
    let q = a / b;
    if a % b == 0 {
        q
    } else {
        assert(q < a || b == 1) by (nonlinear_arith)
            requires
                q == a / b,
                b > 0,
                a % b != 0,
        ;
        q + 1
    }
}

/// `a.checked_next_multiple_of(b)` on `u32`.
fn checked_next_multiple_of_u32(a: u32, b: u32) -> (r: Option<u32>)
    ensures
        r == (if b > 0 && next_multiple_of(a as int, b as int) <= u32::MAX {
            Some(next_multiple_of(a as int, b as int) as u32)
        } else {
            None::<u32>
        }),
{
    if b == 0 {
        None
    } else {
        let rem = a % b;
        if rem == 0 {
            Some(a)
        } else {
            let gap = b - rem;
            if a <= u32::MAX - gap {
                Some(a + gap)
            } else {
                None
            }
        }
    }
}

/// Extension trait for size instances.
pub trait SizeExt: Sized {
    /// Multiplies the widths and the heights, returning `None` on overflow.
    fn checked_component_mul(self, other: Self) -> Option<Self>;

    /// Divides the widths and the heights, rounding up, returning `None` when dividing by zero.
    fn checked_component_div_ceil(self, other: Self) -> Option<Self>;

    /// Rounds the width and the height up to the next multiples of those of `other`, returning
    /// `None` when either is zero or on overflow.
    fn checked_component_next_multiple_of(self, other: Self) -> Option<Self>;
}

impl SizeExt for Size {
    fn checked_component_mul(self, other: Self) -> (r: Option<Self>)
        ensures
            r == (if self.width * other.width <= u32::MAX && self.height * other.height
                <= u32::MAX {
                Some(
                    Size {
                        width: (self.width * other.width) as u32,
                        height: (self.height * other.height) as u32,
                    },
                )
            } else {
                None::<Size>
            }),
    {
        let width = self.width.checked_mul(other.width);
        let height = self.height.checked_mul(other.height);
        match (width, height) {
            (Some(width), Some(height)) => Some(Size::new(width, height)),
            _ => None,
        }
    }

    fn checked_component_div_ceil(self, other: Self) -> (r: Option<Self>)
        ensures
            r == (if other.width > 0 && other.height > 0 {
                Some(
                    Size {
                        width: div_ceil(self.width as int, other.width as int) as u32,
                        height: div_ceil(self.height as int, other.height as int) as u32,
                    },
                )
            } else {
                None::<Size>
            }),
    {
        if other.width > 0 && other.height > 0 {
            let width = div_ceil_u32(self.width, other.width);
            let height = div_ceil_u32(self.height, other.height);
            Some(Size::new(width, height))
        } else {
            None
        }
    }

    fn checked_component_next_multiple_of(self, other: Self) -> (r: Option<Self>)
        ensures
            r == (if other.width > 0 && other.height > 0 && next_multiple_of(
                self.width as int,
                other.width as int,
            ) <= u32::MAX && next_multiple_of(self.height as int, other.height as int)
                <= u32::MAX {
                Some(
                    Size {
                        width: next_multiple_of(self.width as int, other.width as int) as u32,
                        height: next_multiple_of(self.height as int, other.height as int) as u32,
                    },
                )
            } else {
                None::<Size>
            }),
    {
        let width = checked_next_multiple_of_u32(self.width, other.width);
        let height = checked_next_multiple_of_u32(self.height, other.height);
        match (width, height) {
            (Some(width), Some(height)) => Some(Size::new(width, height)),
            _ => None,
        }
    }
}

/// Rounding up a division by a positive divisor yields at most the dividend.
pub proof fn div_ceil_at_most(a: int, b: int)
    requires
        a >= 0,
        b > 0,
    ensures
        0 <= div_ceil(a, b) <= a,
{
    div_ceil_is_least_cover(a, b);
    if a > 0 {
        assert(div_ceil(a, b) <= a) by (nonlinear_arith)
            requires
                (div_ceil(a, b) - 1) * b < a,
                b >= 1,
                a > 0,
        ;
    } else {
        vstd::arithmetic::div_mod::lemma_small_mod(0, b as nat);
        assert(0int / b == 0) by (nonlinear_arith)
            requires
                b > 0,
        ;
    }
}

/// Rounding up divides into the least number of whole parts that cover the dividend.
pub proof fn div_ceil_is_least_cover(a: int, b: int)
    requires
        a >= 0,
        b > 0,
    ensures
        div_ceil(a, b) * b >= a,
        (div_ceil(a, b) - 1) * b < a || a == 0,
        div_ceil(a, b) >= 0,
{
    assert(div_ceil(a, b) * b >= a && ((div_ceil(a, b) - 1) * b < a || a == 0)) by (nonlinear_arith)
        requires
            a >= 0,
            b > 0,
            div_ceil(a, b) == a / b + if a % b == 0 {
                0int
            } else {
                1int
            },
    {
        vstd::arithmetic::div_mod::lemma_fundamental_div_mod(a, b);
    }
    vstd::arithmetic::div_mod::lemma_div_pos_is_pos(a, b);
}

/// The next multiple of `b` is a multiple of `b`, is at least `a`, and is less than `a + b`.
pub proof fn next_multiple_is_least_multiple(a: int, b: int)
    requires
        a >= 0,
        b > 0,
    ensures
        next_multiple_of(a, b) % b == 0,
        a <= next_multiple_of(a, b) < a + b,
{
    vstd::arithmetic::div_mod::lemma_fundamental_div_mod(a, b);
    if a % b != 0 {
        vstd::arithmetic::div_mod::lemma_mod_add_multiples_vanish(a - a % b, b);
        assert((a - a % b) % b == 0) by {
            vstd::arithmetic::div_mod::lemma_mod_multiples_basic(a / b, b);
            assert(a - a % b == (a / b) * b) by (nonlinear_arith)
                requires
                    a == b * (a / b) + a % b,
            ;
        }
    }
}

} // verus!
