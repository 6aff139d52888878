//! The checked sum of two unsigned integers, returned as decimal text.

use vstd::prelude::*;

use crate::decimal::{
    decimal,
    format_decimal,
    is_canonical_decimal,
    lemma_decimal_canonical,
    lemma_parse_decimal,
    parse_decimal,
};

verus! {

/// Why a sum could not be rendered.
#[derive(Debug, Clone, Copy, PartialEq, Eq, Structural)]
pub enum SumError {
    /// The true sum exceeds the largest `usize`.
    Overflow,
}

/// What `sum_as_string(a, b)` returns: the decimal form of `a + b` when the
/// sum fits in a `usize`, and `Overflow` otherwise.
pub open spec fn sum_as_string_post(a: usize, b: usize, r: Result<String, SumError>) -> bool {
    match r {
        Ok(s) => a + b <= usize::MAX && s@ == decimal((a + b) as nat),
        Err(e) => a + b > usize::MAX && e == SumError::Overflow,
    }
}

/// Adds `a` and `b` without wrapping and renders the sum in base 10.
/// A sum larger than `usize::MAX` is reported as `SumError::Overflow`.
pub fn sum_as_string(a: usize, b: usize) -> (r: Result<String, SumError>)
    ensures
        sum_as_string_post(a, b, r),
        r is Ok <==> a + b <= usize::MAX,
        r matches Ok(s) ==> parse_decimal(s@) == a + b && is_canonical_decimal(s@),
{
    match a.checked_add(b) {
        Some(total) => {
            proof {
                lemma_parse_decimal(total as nat);
                lemma_decimal_canonical(total as nat);
            }
            Ok(format_decimal(total))
        },
        None => Err(SumError::Overflow),
    }
}

/// Whenever the true sum fits in a `usize`, the text that `sum_as_string`
/// returns reads back as exactly `a + b`.
pub proof fn sum_reads_back(a: usize, b: usize, r: Result<String, SumError>)
    requires
        a + b <= usize::MAX,
        sum_as_string_post(a, b, r),
    ensures
        r matches Ok(s) && parse_decimal(s@) == a + b,
{
    lemma_parse_decimal((a + b) as nat);
}

/// Every text that `sum_as_string` returns is made of ASCII digits only, and
/// starts with `'0'` only when the sum is zero, in which case it is `"0"`.
pub proof fn sum_text_is_canonical(a: usize, b: usize, r: Result<String, SumError>)
    requires
        sum_as_string_post(a, b, r),
    ensures
        r matches Ok(s) ==> is_canonical_decimal(s@) && (s@[0] == '0' <==> a + b == 0),
{
    lemma_decimal_canonical((a + b) as nat);
}

/// `sum_as_string` is a function of its arguments: two calls on the same
/// inputs agree on success, on the error, and on the text.
pub proof fn sum_is_deterministic(
    a: usize,
    b: usize,
    r1: Result<String, SumError>,
    r2: Result<String, SumError>,
)
    requires
        sum_as_string_post(a, b, r1),
        sum_as_string_post(a, b, r2),
    ensures
        r1 is Ok <==> r2 is Ok,
        r1 matches Ok(s1) ==> r2 matches Ok(s2) && s1@ == s2@,
        r1 matches Err(e1) ==> r2 matches Err(e2) && e1 == e2,
{
}

} // verus!
