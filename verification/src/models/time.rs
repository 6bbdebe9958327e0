use vstd::prelude::*;
use chrono::Datelike;

verus! {

/// Whether chrono has a calendar date with this day number (day 1 being
/// 1 January of year 1), that is, whether `NaiveDate::from_num_days_from_ce_opt`
/// returns `Some` for it.
pub uninterp spec fn chrono_day_exists(days_from_ce: int) -> bool;

/// The text that chrono prints for the date with this day number
/// (`NaiveDate`'s `Display`, `YYYY-MM-DD` for years 0 to 9999).
pub uninterp spec fn chrono_date_text(days_from_ce: int) -> Seq<char>;

/// `NaiveDate::from_num_days_from_ce_opt(days).is_some()`: whether chrono has
/// a date with this day number.  The result depends on the number alone.
#[verifier::external_body]
fn chrono_day_in_range(days: i32) -> (exists: bool)
    ensures
        exists == chrono_day_exists(days as int),
{
    chrono::NaiveDate::from_num_days_from_ce_opt(days).is_some()
}

/// The date one day after the given one, by `NaiveDate::checked_add_signed`
/// with one day, read back with `num_days_from_ce`.  chrono returns `None`
/// exactly when the following day lies outside its range, that is, when no
/// date has the following day number; otherwise the following date has the
/// next day number.
#[verifier::external_body]
fn chrono_following_day(days: i32) -> (next: Option<i32>)
    requires
        chrono_day_exists(days as int),
    ensures
        next is Some <==> chrono_day_exists(days + 1),
        next matches Some(n) ==> n == days + 1,
{
    let date = chrono::NaiveDate::from_num_days_from_ce_opt(days).unwrap();
    match date.checked_add_signed(chrono::Duration::days(1)) {
        Some(d) => Some(d.num_days_from_ce()),
        None => None,
    }
}

/// `NaiveDate`'s `Display` text (through `to_string`) of the date with this
/// day number.  The result depends on the number alone.
#[verifier::external_body]
fn chrono_text(days: i32) -> (text: String)
    requires
        chrono_day_exists(days as int),
    ensures
        text@ == chrono_date_text(days as int),
{
    chrono::NaiveDate::from_num_days_from_ce_opt(days).unwrap().to_string()
}

/// A calendar date, held as chrono counts it: the number of days from
/// 1 January of year 1, which is day 1.  Only days that chrono can
/// represent are dates.
#[derive(Debug, Clone, Copy, PartialEq, Eq, Structural)]
pub struct CalendarDate {
    days_from_ce: i32,
}

impl View for CalendarDate {
    type V = int;

    closed spec fn view(&self) -> int {
        self.days_from_ce as int
    }
}

impl CalendarDate {
    #[verifier::type_invariant]
    spec fn is_chrono_date(self) -> bool {
        chrono_day_exists(self.days_from_ce as int)
    }

    /// The date with the given day number, if chrono has one.
    pub fn from_days_from_ce(days: i32) -> (date: Option<CalendarDate>)
        ensures
            date is Some <==> chrono_day_exists(days as int),
            date matches Some(d) ==> d@ == days,
    {
        if chrono_day_in_range(days) {
            Some(CalendarDate { days_from_ce: days })
        } else {
            None
        }
    }

    /// The day number of this date.
    pub fn days_from_ce(&self) -> (days: i32)
        ensures
            days == self@,
            chrono_day_exists(days as int),
    {
        proof {
            use_type_invariant(self);
        }
        self.days_from_ce
    }

    /// The following day, if chrono has one.
    pub fn next_day(&self) -> (next: Option<CalendarDate>)
        ensures
            next is Some <==> chrono_day_exists(self@ + 1),
            next matches Some(n) ==> n@ == self@ + 1,
    {
        proof {
            use_type_invariant(self);
        }
        match chrono_following_day(self.days_from_ce) {
            Some(n) => Some(CalendarDate { days_from_ce: n }),
            None => None,
        }
    }

    /// The date as chrono prints it.
    pub fn to_text(&self) -> (text: String)
        ensures
            text@ == chrono_date_text(self@),
    {
        proof {
            use_type_invariant(self);
        }
        chrono_text(self.days_from_ce)
    }
}

/// A moment without time zone, held to the nanosecond: whole seconds since
/// 1970-01-01 00:00:00, and the nanoseconds past that second (up to
/// 1_999_999_999, where a leap second runs on).
#[derive(Debug, Clone, Copy, PartialEq, Eq, Structural)]
pub struct Timestamp {
    pub secs: i64,
    pub nanos: u32,
}

} // verus!
