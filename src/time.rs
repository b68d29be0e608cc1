use vstd::prelude::*;

verus! {

/// A calendar date and time of day as the real-time clock reports it.
#[derive(Clone, Copy, Debug, PartialEq, Eq, Structural)]
pub struct DateTime {
    pub year: i32,
    /// Month, counted from 0 for January.
    pub month0: u32,
    /// Day of the month, counted from 0.
    pub day0: u32,
    pub hour: u32,
    pub minute: u32,
    pub second: u32,
}

/// A file-system timestamp.
#[derive(Clone, Copy, Debug, PartialEq, Eq, Structural)]
pub struct Timestamp {
    pub year_since_1970: u8,
    pub zero_indexed_month: u8,
    pub zero_indexed_day: u8,
    pub hours: u8,
    pub minutes: u8,
    pub seconds: u8,
}

/// The timestamp given when the clock has no time to report: 1970-01-01
/// at midnight.
pub open spec fn default_timestamp() -> Timestamp {
    Timestamp {
        year_since_1970: 0,
        zero_indexed_month: 0,
        zero_indexed_day: 0,
        hours: 0,
        minutes: 0,
        seconds: 0,
    }
}

/// Stamps files with the time of the real-time clock.
#[derive(Clone, Copy, Debug, PartialEq, Eq, Structural)]
pub struct TimeSource;

impl TimeSource {
    /// The timestamp for the clock's reading `now`: each part of the date
    /// and time in one byte, the year counted from 1970; the default
    /// timestamp when the clock gave no reading.
    #[verifier::truncate]
    pub fn get_timestamp(&self, now: Option<DateTime>) -> (r: Timestamp)
        ensures
            now is None ==> r == default_timestamp(),
            now matches Some(dt) ==> r == (Timestamp {
                year_since_1970: (dt.year - 1970) as u8,
                zero_indexed_month: dt.month0 as u8,
                zero_indexed_day: dt.day0 as u8,
                hours: dt.hour as u8,
                minutes: dt.minute as u8,
                seconds: dt.second as u8,
            }),
    {
        match now {
            Some(dt) => Timestamp {
                year_since_1970: (dt.year as i64 - 1970) as u8,
                zero_indexed_month: dt.month0 as u8,
                zero_indexed_day: dt.day0 as u8,
                hours: dt.hour as u8,
                minutes: dt.minute as u8,
                seconds: dt.second as u8,
            },
            None => Timestamp {
                year_since_1970: 0,
                zero_indexed_month: 0,
                zero_indexed_day: 0,
                hours: 0,
                minutes: 0,
                seconds: 0,
            },
        }
    }
}

} // verus!
