use vstd::prelude::*;

verus! {

/// The reason a textual date was rejected.
///
/// Every failure is terminal for the single parse call that produced it and
/// fully recoverable by the caller; no variant carries data beyond the
/// classification itself.
#[derive(Clone, Copy, Debug, PartialEq, Eq, Structural)]
pub enum DateError {
    /// Fewer than ten bytes were available.
    TooShort,
    /// One of the four year positions holds a non-digit byte.
    InvalidCharYear,
    /// One of the two month positions holds a non-digit byte.
    InvalidCharMonth,
    /// One of the two day positions holds a non-digit byte.
    InvalidCharDay,
    /// Offset 4 or offset 7 is not `-`.
    InvalidCharDateSep,
    /// The decoded month is outside 1..=12.
    OutOfRangeMonth,
    /// The decoded day is outside 1..=days_in_month.
    OutOfRangeDay,
}

} // verus!
