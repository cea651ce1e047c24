use vstd::prelude::*;

verus! {

/// The absolute value of `x` as a mathematical integer.
pub open spec fn abs_int(x: int) -> int {
    if x < 0 { -x } else { x }
}

/// Absolute value.
pub fn abs(x: i64) -> (r: i64)
    requires
        x != i64::MIN,
    ensures
        r == abs_int(x as int),
{
    if x < 0 { -x } else { x }
}

/// Whether `a` and `b` lie strictly closer together than `delta`.
pub fn are_close(a: i32, b: i32, delta: i32) -> (r: bool)
    ensures
        r == (abs_int(a - b) < delta),
{
    let d = abs(a as i64 - b as i64);
    d < delta as i64
}

} // verus!
