//! Calendar dates as day numbers, weekdays, and UTC timestamps.
//!
//! A `Date` is the day number of a `chrono::NaiveDate` in the proleptic
//! Gregorian calendar (January 1 of year 1 is day 1). Day arithmetic and the
//! weekday of a date are computed here; parsing and printing go through chrono.

use vstd::prelude::*;

verus! {

/// Day number of `chrono::NaiveDate::MIN` (January 1 of year -262143, that is 262144 BCE).
pub const MIN_DAY: i32 = -95746129;

/// Day number of `chrono::NaiveDate::MAX` (December 31, 262142 CE).
pub const MAX_DAY: i32 = 95745399;

/// Whether `n` is the day number of a date that chrono can represent.
pub open spec fn day_in_range(n: int) -> bool {
    MIN_DAY <= n <= MAX_DAY
}

/// Day of the week.
#[derive(Clone, Copy, Debug, PartialEq, Eq, Structural, Hash)]
pub enum Weekday {
    Mon,
    Tue,
    Wed,
    Thu,
    Fri,
    Sat,
    Sun,
}

/// Days after Monday: Monday is 0, Sunday is 6.
pub open spec fn weekday_index(w: Weekday) -> int {
    match w {
        Weekday::Mon => 0,
        Weekday::Tue => 1,
        Weekday::Wed => 2,
        Weekday::Thu => 3,
        Weekday::Fri => 4,
        Weekday::Sat => 5,
        Weekday::Sun => 6,
    }
}

/// The weekday that is `i` days after Monday, for `0 <= i < 7`.
pub open spec fn weekday_from_index(i: int) -> Weekday {
    if i == 0 {
        Weekday::Mon
    } else if i == 1 {
        Weekday::Tue
    } else if i == 2 {
        Weekday::Wed
    } else if i == 3 {
        Weekday::Thu
    } else if i == 4 {
        Weekday::Fri
    } else if i == 5 {
        Weekday::Sat
    } else {
        Weekday::Sun
    }
}

/// The weekday of day number `n`: day 1 (January 1 of year 1) is a Monday.
pub open spec fn weekday_of_day(n: int) -> Weekday {
    weekday_from_index((n - 1) % 7)
}

impl Weekday {
    /// All weekdays from Monday to Sunday.
    pub fn all() -> (res: Vec<Weekday>)
        ensures
            res@ == seq![
                Weekday::Mon,
                Weekday::Tue,
                Weekday::Wed,
                Weekday::Thu,
                Weekday::Fri,
                Weekday::Sat,
                Weekday::Sun,
            ],
    {
        vec![
            Weekday::Mon,
            Weekday::Tue,
            Weekday::Wed,
            Weekday::Thu,
            Weekday::Fri,
            Weekday::Sat,
            Weekday::Sun,
        ]
    }

    /// Days since Monday (Monday is 0).
    pub fn num_days_from_monday(&self) -> (res: u32)
        ensures
            res == weekday_index(*self),
    {
        match self {
            Weekday::Mon => 0,
            Weekday::Tue => 1,
            Weekday::Wed => 2,
            Weekday::Thu => 3,
            Weekday::Fri => 4,
            Weekday::Sat => 5,
            Weekday::Sun => 6,
        }
    }
}

/// `weekday_from_index` and `weekday_index` undo each other.
pub proof fn lemma_weekday_index_roundtrip(w: Weekday, i: int)
    ensures
        weekday_from_index(weekday_index(w)) == w,
        0 <= weekday_index(w) < 7,
        0 <= i < 7 ==> weekday_index(weekday_from_index(i)) == i,
{
}

/// A calendar date, held as its day number.
#[derive(Clone, Copy, Debug, PartialEq, Eq, Structural, Hash)]
pub struct Date {
    days: i32,
}

impl View for Date {
    type V = int;

    closed spec fn view(&self) -> int {
        self.days as int
    }
}

impl Date {
    #[verifier::type_invariant]
    spec fn in_range(self) -> bool {
        day_in_range(self.days as int)
    }

    /// The date with day number `n`, if chrono can represent it.
    pub fn from_day_number(n: i32) -> (res: Option<Date>)
        ensures
            res is Some <==> day_in_range(n as int),
            res matches Some(d) ==> d@ == n,
    {
        if MIN_DAY <= n && n <= MAX_DAY {
            Some(Date { days: n })
        } else {
            None
        }
    }

    /// The day number (January 1 of year 1 is day 1).
    pub fn day_number(&self) -> (res: i32)
        ensures
            res == self@,
            day_in_range(res as int),
    {
        proof {
            use_type_invariant(self);
        }
        self.days
    }

    /// The date `k` days later (earlier for negative `k`).
    pub fn add_days(&self, k: i64) -> (res: Date)
        requires
            day_in_range(self@ + k),
        ensures
            res@ == self@ + k,
    {
        let n: i64 = self.days as i64 + k;
        Date { days: n as i32 }
    }

    /// The number of days from `self` to `other` (`other - self`).
    pub fn days_until(&self, other: &Date) -> (res: i64)
        ensures
            res == other@ - self@,
    {
        other.days as i64 - self.days as i64
    }

    /// The day of the week.
    pub fn weekday(&self) -> (res: Weekday)
        ensures
            res == weekday_of_day(self@),
    {
        proof {
            use_type_invariant(self);
        }
        // Shift by a multiple of 7 so that the remainder is taken of a non-negative number.
        let shifted: i64 = self.days as i64 - 1 + 7 * 20000000;
        let r: i64 = shifted % 7;
        proof {
            vstd::arithmetic::div_mod::lemma_mod_multiples_vanish(20000000, self.days - 1, 7);
            assert(shifted == 7 * 20000000 + (self.days - 1));
        }
        if r == 0 {
            Weekday::Mon
        } else if r == 1 {
            Weekday::Tue
        } else if r == 2 {
            Weekday::Wed
        } else if r == 3 {
            Weekday::Thu
        } else if r == 4 {
            Weekday::Fri
        } else if r == 5 {
            Weekday::Sat
        } else {
            Weekday::Sun
        }
    }
}

/// What `chrono::NaiveDate::parse_from_str(s, "%Y-%m-%d")` yields for `s`, as a day number.
pub uninterp spec fn parse_ymd_day(s: Seq<char>) -> Option<int>;

/// What `s.parse::<chrono::NaiveDate>()` (chrono's `FromStr`) yields for `s`, as a day number.
pub uninterp spec fn from_str_day(s: Seq<char>) -> Option<int>;

/// What chrono's `Display` for `NaiveDate` prints for day number `n` ("YYYY-MM-DD").
pub uninterp spec fn iso_date_text(n: int) -> Seq<char>;

/// What `s.parse::<chrono::DateTime<chrono::Utc>>()` yields for `s`.
pub uninterp spec fn utc_from_str(s: Seq<char>) -> Option<Timestamp>;

/// A UTC instant: whole seconds since the Unix epoch and the nanoseconds after them.
#[derive(Clone, Copy, Debug, PartialEq, Eq, Structural)]
pub struct Timestamp {
    pub secs: i64,
    pub nanos: u32,
}

impl Date {
    /// Calls `chrono::NaiveDate::parse_from_str(s, "%Y-%m-%d")` and keeps the
    /// day number (`num_days_from_ce`) of a parsed date. Claimed: the result is
    /// `parse_ymd_day` of the text, and a parsed date's day number lies in chrono's
    /// range (that of `NaiveDate::MIN` to that of `NaiveDate::MAX`).
    #[verifier::external_body]
    pub(crate) fn parse_ymd(s: &str) -> (res: Option<Date>)
        ensures
            match res {
                Some(d) => parse_ymd_day(s@) == Some(d@),
                None => parse_ymd_day(s@) is None,
            },
    {
        chrono::NaiveDate::parse_from_str(s, "%Y-%m-%d").ok().map(
            |d| Date { days: chrono::Datelike::num_days_from_ce(&d) },
        )
    }

    /// Calls chrono's `FromStr` for `NaiveDate` and keeps the day number of a
    /// parsed date. Claimed: the result is `from_str_day` of the text, and a parsed
    /// date's day number lies in chrono's range.
    #[verifier::external_body]
    pub(crate) fn parse(s: &str) -> (res: Option<Date>)
        ensures
            match res {
                Some(d) => from_str_day(s@) == Some(d@),
                None => from_str_day(s@) is None,
            },
    {
        s.parse::<chrono::NaiveDate>().ok().map(
            |d| Date { days: chrono::Datelike::num_days_from_ce(&d) },
        )
    }

    /// Calls chrono's `Display` for the `NaiveDate` with this day number
    /// (`NaiveDate::from_num_days_from_ce_opt`, which succeeds on every day number
    /// in chrono's range). Claimed: the text is `iso_date_text` of the day number,
    /// and no other date in range prints the same text (the text holds the year,
    /// month and day, which determine the date).
    #[verifier::external_body]
    pub(crate) fn to_iso_string(&self) -> (res: String)
        ensures
            res@ == iso_date_text(self@),
            forall|m: int| day_in_range(m) && m != self@ ==> #[trigger] iso_date_text(m) != res@,
    {
        chrono::NaiveDate::from_num_days_from_ce_opt(self.days).unwrap().to_string()
    }
}

impl Timestamp {
    /// Calls chrono's `FromStr` for `DateTime<Utc>` and keeps the parsed instant as
    /// seconds (`timestamp`) and nanoseconds (`timestamp_subsec_nanos`). Claimed:
    /// the result is `utc_from_str` of the text.
    #[verifier::external_body]
    pub(crate) fn parse(s: &str) -> (res: Option<Timestamp>)
        ensures
            res == utc_from_str(s@),
    {
        s.parse::<chrono::DateTime<chrono::Utc>>().ok().map(
            |t| Timestamp { secs: t.timestamp(), nanos: t.timestamp_subsec_nanos() },
        )
    }
}

/// Calls `chrono::Utc::now()` and prints it with `to_rfc3339`. Nothing is claimed
/// of the text: it depends on the clock.
#[verifier::external_body]
pub(crate) fn utc_now_rfc3339() -> (res: String) {
    chrono::Utc::now().to_rfc3339()
}

/// The weekday of the next day is the following weekday (Sunday is followed by
/// Monday), and a week later it is the same weekday.
pub proof fn law_weekday_succession(n: int)
    ensures
        weekday_index(weekday_of_day(n + 1)) == (weekday_index(weekday_of_day(n)) + 1) % 7,
        weekday_of_day(n + 7) == weekday_of_day(n),
{
    assert((n - 1) % 7 == 0 || (n - 1) % 7 == 1 || (n - 1) % 7 == 2 || (n - 1) % 7 == 3
        || (n - 1) % 7 == 4 || (n - 1) % 7 == 5 || (n - 1) % 7 == 6);
    assert(((n + 1) - 1) % 7 == ((n - 1) % 7 + 1) % 7);
    assert(((n + 7) - 1) % 7 == (n - 1) % 7);
}

/// Seven consecutive days fall on seven different weekdays.
pub proof fn law_week_covers_every_weekday(n: int, i: int, j: int)
    requires
        0 <= i < 7,
        0 <= j < 7,
        i != j,
    ensures
        weekday_of_day(n + i) != weekday_of_day(n + j),
{
    let a = (n + i - 1) % 7;
    let b = (n + j - 1) % 7;
    assert(a != b);
    assert(0 <= a < 7 && 0 <= b < 7);
    lemma_weekday_index_roundtrip(weekday_of_day(n + i), a);
    lemma_weekday_index_roundtrip(weekday_of_day(n + j), b);
}

} // verus!
