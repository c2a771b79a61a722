//! Small integer operations that the driver uses everywhere.
use vstd::prelude::*;

verus! {

/// The value where it is positive, else 0.
#[verifier::allow_in_spec]
pub fn nonneg(value: i32) -> (r: u32)
    returns
        (if value > 0 { value as u32 } else { 0u32 }),
{
    if value > 0 { value as u32 } else { 0 }
}

/// The value where it fits, else the largest number.
#[verifier::allow_in_spec]
pub fn fit_u32(value: u64) -> (r: u32)
    returns
        (if value <= u32::MAX { value as u32 } else { u32::MAX }),
{
    if value <= u32::MAX as u64 { value as u32 } else { u32::MAX }
}

/// The distance of two numbers.
#[verifier::allow_in_spec]
pub fn distance(a: u32, b: u32) -> (r: u32)
    returns
        (if a >= b { (a - b) as u32 } else { (b - a) as u32 }),
{
    if a >= b { a - b } else { b - a }
}

/// The larger of two numbers.
#[verifier::allow_in_spec]
pub fn larger(a: u32, b: u32) -> (r: u32)
    returns
        (if a >= b { a } else { b }),
{
    if a >= b { a } else { b }
}

/// The smaller of two numbers.
#[verifier::allow_in_spec]
pub fn smaller(a: u32, b: u32) -> (r: u32)
    returns
        (if a <= b { a } else { b }),
{
    if a <= b { a } else { b }
}

/// The product, or the largest number where it does not fit.
#[verifier::allow_in_spec]
pub fn saturating_product(a: u32, b: u32) -> (r: u32)
    returns
        (if a * b > u32::MAX { u32::MAX } else { (a * b) as u32 }),
{
    assert(a * b <= u32::MAX * u32::MAX) by (nonlinear_arith)
        requires
            a <= u32::MAX,
            b <= u32::MAX,
    ;
    let wide: u64 = a as u64 * b as u64;
    if wide > u32::MAX as u64 { u32::MAX } else { wide as u32 }
}

/// The sum, or the largest number where it does not fit.
#[verifier::allow_in_spec]
pub fn step_up(value: i32, step: u32) -> (r: i32)
    returns
        (if value + step > i32::MAX { i32::MAX } else { (value + step) as i32 }),
{
    let wide: i64 = value as i64 + step as i64;
    if wide > i32::MAX as i64 { i32::MAX } else { wide as i32 }
}

/// The difference, or the smallest number where it does not fit.
#[verifier::allow_in_spec]
pub fn step_down(value: i32, step: u32) -> (r: i32)
    returns
        (if value - step < i32::MIN { i32::MIN } else { (value - step) as i32 }),
{
    let wide: i64 = value as i64 - step as i64;
    if wide < i32::MIN as i64 { i32::MIN } else { wide as i32 }
}

/// What the operations give, over all numbers.
pub proof fn law_operations_are_exact(a: u32, b: u32, value: i32, wide: u64, step: u32)
    ensures
        nonneg(value) as int == if value < 0 {
            0
        } else {
            value as int
        },
        fit_u32(wide) <= wide,
        fit_u32(wide) == wide || wide > u32::MAX && fit_u32(wide) == u32::MAX,
        distance(a, b) == distance(b, a),
        a + distance(a, b) == b || b + distance(a, b) == a,
        larger(a, b) >= a && larger(a, b) >= b && (larger(a, b) == a || larger(a, b) == b),
        smaller(a, b) <= a && smaller(a, b) <= b && (smaller(a, b) == a || smaller(a, b) == b),
        larger(a, b) + smaller(a, b) == a + b,
        saturating_product(a, b) == a * b || a * b > u32::MAX && saturating_product(a, b)
            == u32::MAX,
        step_up(value, step) == value + step || value + step > i32::MAX && step_up(value, step)
            == i32::MAX,
        step_down(value, step) == value - step || value - step < i32::MIN && step_down(value, step)
            == i32::MIN,
{
    assert(a * b >= 0) by (nonlinear_arith)
        requires
            a >= 0,
            b >= 0,
    ;
}

} // verus!
