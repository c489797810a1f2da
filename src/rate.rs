use vstd::prelude::*;

verus! {

/// A fixed span of time used for staking periods and redemption cooldowns.
#[derive(Debug, Clone, Copy, PartialEq, Eq, Structural)]
#[non_exhaustive]
pub enum Duration {
    OneHour,
    OneDay,
    OneWeek,
    OneMonth,
    OneYear,
}

/// Seconds in one hour.
pub const HOUR_SECONDS: i64 = 3600;

/// Seconds in one day.
pub const DAY_SECONDS: i64 = 86400;

/// Seconds in one week.
pub const WEEK_SECONDS: i64 = 604800;

/// Seconds in a thirty-day month.
pub const MONTH_SECONDS: i64 = 2592000;

/// Seconds in a 365-day year.
pub const YEAR_SECONDS: i64 = 31536000;

impl Duration {
    /// The length of the span in seconds.
    pub open spec fn seconds(self) -> int {
        match self {
            Duration::OneHour => 3600,
            Duration::OneDay => 86400,
            Duration::OneWeek => 604800,
            Duration::OneMonth => 2592000,
            Duration::OneYear => 31536000,
        }
    }

    /// Returns the length of the span in seconds.
    pub fn into_i64(&self) -> (r: i64)
        ensures
            r == self.seconds(),
            0 < r <= YEAR_SECONDS,
    {
        match self {
            Duration::OneHour => HOUR_SECONDS,
            Duration::OneDay => DAY_SECONDS,
            Duration::OneWeek => WEEK_SECONDS,
            Duration::OneMonth => MONTH_SECONDS,
            Duration::OneYear => YEAR_SECONDS,
        }
    }
}

/// A fraction `numerator / denominator`, used for rate limits.
#[derive(Debug, Clone, Copy, PartialEq, Eq, Structural)]
pub struct Rate {
    pub numerator: u32,
    pub denominator: u32,
}

impl Rate {
    /// A rate is valid when it is a fraction in (0, 1].
    pub open spec fn valid(self) -> bool {
        0 < self.numerator <= self.denominator && self.denominator > 0
    }

    /// Tells whether the rate is a fraction in (0, 1].
    pub fn is_valid(&self) -> (r: bool)
        ensures
            r == self.valid(),
            r <==> (self.numerator > 0 && self.denominator > 0
                && self.numerator <= self.denominator),
    {
        self.numerator > 0 && self.denominator > 0 && self.numerator <= self.denominator
    }
}

} // verus!
