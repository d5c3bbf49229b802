use vstd::prelude::*;

use crate::date::Date;

verus! {

/// A richer timestamp value: the three calendar fields of a [`Date`] plus a
/// time of day. A `Date` can be projected out of it with [`Date::from`].
#[derive(Clone, Copy, Debug, PartialEq, Eq, Structural)]
pub struct DateTime {
    /// 0...999999
    pub micro: u32,
    /// 0...59
    pub sec: u8,
    /// 0...59
    pub min: u8,
    /// 0...23
    pub hour: u8,
    /// 1...31
    pub day: u8,
    /// 1...12
    pub mon: u8,
    /// 1000...9999
    pub year: u16,
}

impl From<DateTime> for Date {
    /// Project the calendar fields out of a timestamp, dropping the time of
    /// day. The source is trusted to already satisfy the date invariants;
    /// no validation is performed, so this must not be used as a validation
    /// gate.
    fn from(arg: DateTime) -> (r: Date) {
        Date { day: arg.day, mon: arg.mon, year: arg.year }
    }
}

impl vstd::std_specs::convert::FromSpecImpl<DateTime> for Date {
    open spec fn obeys_from_spec() -> bool {
        true
    }

    open spec fn from_spec(arg: DateTime) -> Date {
        Date { day: arg.day, mon: arg.mon, year: arg.year }
    }
}

} // verus!
