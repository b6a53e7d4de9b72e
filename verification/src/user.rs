//! The entity model: the `User` record and its field types.

use vstd::prelude::*;

verus! {

/// A 128-bit entity identifier, the in-library form of a UUID. Identifiers
/// are caller-supplied and immutable; the store never generates them.
#[derive(Clone, Copy, PartialEq, Eq, Structural, Debug, Hash)]
pub struct UserId {
    pub bits: u128,
}

/// A calendar date (no time of day), held as plain year, month and day
/// numbers in the proleptic Gregorian calendar.
#[derive(Clone, Copy, PartialEq, Eq, Structural, Debug)]
pub struct Date {
    pub year: i32,
    pub month: u32,
    pub day: u32,
}

/// Whether `y` is a leap year. Divisibility is unaffected by sign, so the
/// rule is stated on the magnitude of the year.
pub open spec fn leap_year(y: int) -> bool {
    let a = if y >= 0 { y } else { -y };
    (a % 4 == 0 && a % 100 != 0) || a % 400 == 0
}

/// The number of days in month `m` (1 to 12) of year `y`.
pub open spec fn days_in_month(y: int, m: int) -> int {
    if m == 2 {
        if leap_year(y) {
            29
        } else {
            28
        }
    } else if m == 4 || m == 6 || m == 9 || m == 11 {
        30
    } else {
        31
    }
}

/// Whether year `y`, month `m`, day `d` name a real calendar date.
pub open spec fn valid_ymd(y: int, m: int, d: int) -> bool {
    &&& 1 <= m <= 12
    &&& 1 <= d <= days_in_month(y, m)
}

/// Whether `year` is a leap year.
pub fn is_leap_year(year: i32) -> (b: bool)
    ensures
        b == leap_year(year as int),
{
    let a: i64 = if year >= 0 {
        year as i64
    } else {
        -(year as i64)
    };
    (a % 4 == 0 && a % 100 != 0) || a % 400 == 0
}

/// The number of days in `month` of `year`.
pub fn month_length(year: i32, month: u32) -> (n: u32)
    requires
        1 <= month <= 12,
    ensures
        n as int == days_in_month(year as int, month as int),
{
    if month == 2 {
        if is_leap_year(year) {
            29
        } else {
            28
        }
    } else if month == 4 || month == 6 || month == 9 || month == 11 {
        30
    } else {
        31
    }
}

impl Date {
    /// Whether the three fields name a real calendar date.
    pub open spec fn wf(self) -> bool {
        valid_ymd(self.year as int, self.month as int, self.day as int)
    }

    /// Decides `wf`, so that callers can reject a malformed date before
    /// building an entity from it.
    pub fn is_valid(&self) -> (b: bool)
        ensures
            b == self.wf(),
    {
        if self.month < 1 || self.month > 12 {
            return false;
        }
        1 <= self.day && self.day <= month_length(self.year, self.month)
    }
}

/// An opaque auxiliary payload attached to every user: a small namespaced
/// record with one numeric field.
#[derive(Clone, Copy, PartialEq, Eq, Structural, Debug)]
pub struct CustomData {
    pub random: u32,
}

/// The stored entity. `created_at` and `updated_at` are wall-clock
/// timestamps in milliseconds since the Unix epoch; the store sets
/// `created_at` exactly once, at creation, and `updated_at` on every update.
#[derive(PartialEq, Debug)]
pub struct User {
    pub id: UserId,
    pub name: String,
    pub birth_date: Date,
    pub custom_data: CustomData,
    pub created_at: Option<i64>,
    pub updated_at: Option<i64>,
}

impl Clone for User {
    fn clone(&self) -> (u: Self)
        ensures
            u == *self,
    {
        User {
            id: self.id,
            name: self.name.clone(),
            birth_date: self.birth_date,
            custom_data: self.custom_data,
            created_at: self.created_at,
            updated_at: self.updated_at,
        }
    }
}

/// The fixed identifier that `User::new` assigns: the 128 bits of the UUID
/// `b916577c-2c51-4025-891f-13b0e27b8049`.
pub const DEFAULT_USER_ID_BITS: u128 = 0xb916577c_2c51_4025_891f_13b0_e27b_8049;

impl User {
    /// Builds a fresh entity with the fixed default identifier, the given
    /// name and birth date, creation time set to the current wall clock,
    /// and no update time.
    pub fn new(name: String, birth_date_ymd: (i32, u32, u32)) -> (u: User)
        requires
            valid_ymd(
                birth_date_ymd.0 as int,
                birth_date_ymd.1 as int,
                birth_date_ymd.2 as int,
            ),
        ensures
            u.id == (UserId { bits: DEFAULT_USER_ID_BITS }),
            u.name == name,
            u.birth_date == (Date {
                year: birth_date_ymd.0,
                month: birth_date_ymd.1,
                day: birth_date_ymd.2,
            }),
            u.birth_date.wf(),
            u.custom_data == (CustomData { random: 1 }),
            u.created_at is Some,
            u.updated_at is None,
    {
        let (y, m, d) = birth_date_ymd;
        User {
            id: UserId { bits: DEFAULT_USER_ID_BITS },
            name,
            birth_date: Date { year: y, month: m, day: d },
            custom_data: CustomData { random: 1 },
            created_at: Some(crate::clock::now_millis()),
            updated_at: None,
        }
    }
}

} // verus!
