//! A tour of the primitive types a contract works with: integers, booleans
//! and symbols.

use crate::host;
use vstd::prelude::*;

verus! {

/// The contract of the tour.
pub struct PrimitivesContract;

impl PrimitivesContract {
    /// The sum of `a` and `b`, where a `u32` holds it.
    pub fn basic_math(a: u32, b: u32) -> (sum: u32)
        requires
            a + b <= u32::MAX,
        ensures
            sum == a + b,
    {
        a + b
    }

    /// Whether `x` and `y` are the same number.
    pub fn compare_numbers(x: i64, y: i64) -> (same: bool)
        ensures
            same == (x == y),
    {
        x == y
    }

    /// The sample unsigned number, 42.
    pub fn get_u32() -> (value: u32)
        ensures
            value == 42,
    {
        42
    }

    /// The sample signed number, -123456789.
    pub fn get_i128() -> (value: i128)
        ensures
            value == -123456789,
    {
        -123456789
    }

    /// The sample boolean, `true`.
    pub fn get_bool() -> (value: bool)
        ensures
            value,
    {
        true
    }

    /// The text of the sample symbol, `result`.
    pub fn get_symbol() -> (text: &'static str)
        ensures
            text@ == "result"@,
            host::is_symbol_text(text@),
    {
        proof {
            reveal_strlit("result");
        }
        "result"
    }
}

} // verus!
