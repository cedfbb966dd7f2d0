//! Scores: the cap that every detector applies, and the limits of the
//! machine integers that carry a score.

use vstd::prelude::*;

verus! {

/// The highest threat level.
pub const MAX_THREAT: i32 = 10;

/// A category score: the raw sum of contributions, held to at most
/// `MAX_THREAT`. A sum below zero is kept as it is.
pub open spec fn capped(raw: int) -> int {
    if raw > MAX_THREAT {
        MAX_THREAT as int
    } else {
        raw
    }
}

/// `n`, held to the range of `i32`.
pub open spec fn saturated(n: int) -> int {
    if n > i32::MAX {
        i32::MAX as int
    } else if n < i32::MIN {
        i32::MIN as int
    } else {
        n
    }
}

/// `n`, held to the range of `i32`.
pub fn saturate(n: i128) -> (held: i32)
    ensures
        held == saturated(n as int),
{
    if n > i32::MAX as i128 {
        i32::MAX
    } else if n < i32::MIN as i128 {
        i32::MIN
    } else {
        n as i32
    }
}

/// Caps a raw sum of contributions at `MAX_THREAT`.
pub fn cap(raw: i128) -> (level: i32)
    requires
        raw >= i32::MIN,
    ensures
        level == capped(raw as int),
{
    if raw > MAX_THREAT as i128 {
        MAX_THREAT
    } else {
        raw as i32
    }
}

} // verus!
