//! The candle intervals that a series can be bucketed by.

use crate::text::{lowercase_of, text_to_lowercase};
use vstd::prelude::*;

verus! {

/// The calendar unit that a candle's start is cut down to.
#[derive(Debug, Clone, Copy, PartialEq, Eq, Structural)]
pub enum TruncUnit {
    Minute,
    Hour,
    Day,
    Week,
}

/// The length of a candle: months, days and microseconds, added up.
#[derive(Debug, Clone, Copy, PartialEq, Eq, Structural)]
pub struct CandleInterval {
    pub unit: TruncUnit,
    pub months: i32,
    pub days: i32,
    pub microseconds: i64,
}

/// The interval that a name in lower case stands for: `1m`, `5m`, `15m`, `1h`,
/// `4h`, `1d` or `1w`.
pub open spec fn interval_named(lower: Seq<char>) -> Option<CandleInterval> {
    if lower == "1m"@ {
        Some(CandleInterval { unit: TruncUnit::Minute, months: 0, days: 0, microseconds: 60_000_000 })
    } else if lower == "5m"@ {
        Some(CandleInterval { unit: TruncUnit::Minute, months: 0, days: 0, microseconds: 300_000_000 })
    } else if lower == "15m"@ {
        Some(CandleInterval { unit: TruncUnit::Minute, months: 0, days: 0, microseconds: 900_000_000 })
    } else if lower == "1h"@ {
        Some(CandleInterval { unit: TruncUnit::Hour, months: 0, days: 0, microseconds: 3_600_000_000 })
    } else if lower == "4h"@ {
        Some(CandleInterval { unit: TruncUnit::Hour, months: 0, days: 0, microseconds: 14_400_000_000 })
    } else if lower == "1d"@ {
        Some(CandleInterval { unit: TruncUnit::Day, months: 0, days: 1, microseconds: 0 })
    } else if lower == "1w"@ {
        Some(CandleInterval { unit: TruncUnit::Week, months: 0, days: 7, microseconds: 0 })
    } else {
        None
    }
}

/// The name of the unit as the data store knows it.
pub fn unit_name(unit: TruncUnit) -> (r: &'static str)
    ensures
        r@ == (match unit {
            TruncUnit::Minute => "minute"@,
            TruncUnit::Hour => "hour"@,
            TruncUnit::Day => "day"@,
            TruncUnit::Week => "week"@,
        }),
{
    match unit {
        TruncUnit::Minute => "minute",
        TruncUnit::Hour => "hour",
        TruncUnit::Day => "day",
        TruncUnit::Week => "week",
    }
}

/// The interval that `interval` names, whatever its case; `None` for a name that
/// is not supported.
pub fn get_postgres_interval(interval: &str) -> (r: Option<CandleInterval>)
    ensures
        r == interval_named(lowercase_of(interval@)),
{
    let lower = text_to_lowercase(interval);
    interval_in_lower_case(&lower)
}

/// The interval that a name already in lower case stands for.
pub fn interval_in_lower_case(lower: &String) -> (r: Option<CandleInterval>)
    ensures
        r == interval_named(lower@),
{
    if *lower == "1m".to_owned() {
        Some(CandleInterval { unit: TruncUnit::Minute, months: 0, days: 0, microseconds: 60_000_000 })
    } else if *lower == "5m".to_owned() {
        Some(CandleInterval { unit: TruncUnit::Minute, months: 0, days: 0, microseconds: 300_000_000 })
    } else if *lower == "15m".to_owned() {
        Some(CandleInterval { unit: TruncUnit::Minute, months: 0, days: 0, microseconds: 900_000_000 })
    } else if *lower == "1h".to_owned() {
        Some(CandleInterval { unit: TruncUnit::Hour, months: 0, days: 0, microseconds: 3_600_000_000 })
    } else if *lower == "4h".to_owned() {
        Some(CandleInterval { unit: TruncUnit::Hour, months: 0, days: 0, microseconds: 14_400_000_000 })
    } else if *lower == "1d".to_owned() {
        Some(CandleInterval { unit: TruncUnit::Day, months: 0, days: 1, microseconds: 0 })
    } else if *lower == "1w".to_owned() {
        Some(CandleInterval { unit: TruncUnit::Week, months: 0, days: 7, microseconds: 0 })
    } else {
        None
    }
}

} // verus!
