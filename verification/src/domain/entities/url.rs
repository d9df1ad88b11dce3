//! The record of one binding of a short code to a long URL.

use vstd::prelude::*;

verus! {

/// A calendar day without a time of day.
#[derive(Clone, Copy, Debug, PartialEq, Eq, PartialOrd, Ord, Hash, Structural)]
pub struct Date {
    pub year: i32,
    pub month: u32,
    pub day: u32,
}

impl Date {
    /// Whether month and day lie in the ranges of the calendar.
    pub open spec fn in_calendar(self) -> bool {
        1 <= self.month <= 12 && 1 <= self.day <= 31
    }

    /// Whether `self` is a day strictly before `other`.
    pub open spec fn earlier_than(self, other: Date) -> bool {
        self.year < other.year || (self.year == other.year && (self.month < other.month || (
        self.month == other.month && self.day < other.day)))
    }

    /// Whether `self` is a day strictly before `other`.
    pub fn is_before(&self, other: &Date) -> (r: bool)
        ensures
            r == self.earlier_than(*other),
    {
        self.year < other.year || (self.year == other.year && (self.month < other.month || (
        self.month == other.month && self.day < other.day)))
    }
}

/// A moment in UTC: whole seconds since 1970-01-01T00:00:00, and the
/// nanoseconds into that second.
#[derive(Clone, Copy, Debug, PartialEq, Eq, Hash, Structural)]
pub struct Timestamp {
    pub secs: i64,
    pub nanos: u32,
}

/// The view of an optional string.
pub open spec fn text_of(s: Option<String>) -> Option<Seq<char>> {
    match s {
        Some(t) => Some(t@),
        None => None,
    }
}

/// A binding as a mathematical value.
pub struct UrlView {
    pub long: Seq<char>,
    pub short: Seq<char>,
    pub alias: Option<Seq<char>>,
    pub expiration_date: Option<Date>,
    pub created_at: Timestamp,
    pub updated_at: Timestamp,
    pub user_id: Seq<char>,
}

/// One binding: the long URL, its short code, and who owns it.
#[derive(Debug)]
pub struct Url {
    pub long: String,
    pub short: String,
    pub alias: Option<String>,
    pub expiration_date: Option<Date>,
    pub created_at: Timestamp,
    pub updated_at: Timestamp,
    pub user_id: String,
}

impl View for Url {
    type V = UrlView;

    open spec fn view(&self) -> UrlView {
        UrlView {
            long: self.long@,
            short: self.short@,
            alias: text_of(self.alias),
            expiration_date: self.expiration_date,
            created_at: self.created_at,
            updated_at: self.updated_at,
            user_id: self.user_id@,
        }
    }
}

/// Whether two optional strings hold the same text.
pub fn same_text(a: &Option<String>, b: &Option<String>) -> (r: bool)
    ensures
        r == (text_of(*a) == text_of(*b)),
{
    match a {
        Some(x) => match b {
            Some(y) => *x == *y,
            None => false,
        },
        None => b.is_none(),
    }
}

impl Clone for Url {
    fn clone(&self) -> (r: Self)
        ensures
            r == *self,
    {
        Url {
            long: self.long.clone(),
            short: self.short.clone(),
            alias: match &self.alias {
                Some(a) => Some(a.clone()),
                None => None,
            },
            expiration_date: self.expiration_date,
            created_at: self.created_at,
            updated_at: self.updated_at,
            user_id: self.user_id.clone(),
        }
    }
}

impl PartialEq for Url {
    fn eq(&self, other: &Url) -> (r: bool) {
        self.long == other.long && self.short == other.short && same_text(&self.alias, &other.alias)
            && self.expiration_date == other.expiration_date && self.created_at == other.created_at
            && self.updated_at == other.updated_at && self.user_id == other.user_id
    }
}

impl vstd::std_specs::cmp::PartialEqSpecImpl for Url {
    open spec fn obeys_eq_spec() -> bool {
        true
    }

    open spec fn eq_spec(&self, other: &Url) -> bool {
        self@ == other@
    }
}

impl Eq for Url {

}

impl UrlView {
    /// Whether the binding has an expiration date that lies strictly before
    /// `today`. A binding without one never expires.
    pub open spec fn expired_on(self, today: Date) -> bool {
        self.expiration_date matches Some(last_day) && last_day.earlier_than(today)
    }
}

impl Url {
    /// Whether the binding is expired on the day `today`.
    pub fn expired_on(&self, today: Date) -> (r: bool)
        ensures
            r == self@.expired_on(today),
    {
        match &self.expiration_date {
            Some(last_day) => last_day.is_before(&today),
            None => false,
        }
    }

    /// Whether the binding is expired now, by the system clock's day in UTC.
    /// Which day that is, is not known here: the answer is that of
    /// `expired_on` for some day of the calendar since 1970.
    pub fn expired(&self) -> (r: bool)
        ensures
            self.expiration_date is None ==> !r,
            exists|today: Date|
                today.in_calendar() && today.year >= 1970 && r == #[trigger] self@.expired_on(today),
    {
        let today = crate::clock::today();
        let r = self.expired_on(today);
        assert(r == self@.expired_on(today));
        r
    }
}

} // verus!
