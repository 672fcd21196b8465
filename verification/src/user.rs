use vstd::prelude::*;
use crate::system::{date_exists, is_calendar_date, now_micros};

verus! {

/// The structured payload stored with a user.
#[derive(Debug, Clone, Copy, PartialEq, Eq, Structural)]
pub struct CustomData {
    pub random: i32,
}

/// A calendar date without time of day or time zone.
#[derive(Debug, Clone, Copy, PartialEq, Eq, Structural)]
pub struct Date {
    pub year: i32,
    pub month: u32,
    pub day: u32,
}

impl Date {
    /// The date with the given fields, where the calendar has such a day.
    pub fn from_ymd_opt(year: i32, month: u32, day: u32) -> (r: Option<Date>)
        ensures
            r == if is_calendar_date(year, month, day) {
                Some(Date { year, month, day })
            } else {
                None
            },
    {
        if date_exists(year, month, day) {
            Some(Date { year, month, day })
        } else {
            None
        }
    }
}

/// A stored user. Timestamps count microseconds since the Unix epoch, UTC.
#[derive(Debug, PartialEq, Eq)]
pub struct User {
    pub id: u128,
    pub email: String,
    pub name: String,
    pub birth_date: Date,
    pub custom_data: CustomData,
    pub created_at: Option<i64>,
    pub updated_at: Option<i64>,
}

/// The mathematical value of a [`User`].
pub struct UserView {
    pub id: u128,
    pub email: Seq<char>,
    pub name: Seq<char>,
    pub birth_date: Date,
    pub custom_data: CustomData,
    pub created_at: Option<i64>,
    pub updated_at: Option<i64>,
}

impl View for User {
    type V = UserView;

    open spec fn view(&self) -> UserView {
        UserView {
            id: self.id,
            email: self.email@,
            name: self.name@,
            birth_date: self.birth_date,
            custom_data: self.custom_data,
            created_at: self.created_at,
            updated_at: self.updated_at,
        }
    }
}

impl Clone for User {
    fn clone(&self) -> (u: Self)
        ensures
            u == *self,
    {
        User {
            id: self.id,
            email: self.email.clone(),
            name: self.name.clone(),
            birth_date: self.birth_date,
            custom_data: self.custom_data,
            created_at: self.created_at,
            updated_at: self.updated_at,
        }
    }
}

/// A user for trying things out: the given id and name, a fixed address and
/// payload, created now and never updated.
pub fn create_test_user(id: u128, name: String, birth_date_ymd: (i32, u32, u32)) -> (u: User)
    requires
        is_calendar_date(birth_date_ymd.0, birth_date_ymd.1, birth_date_ymd.2),
    ensures
        u.created_at matches Some(t) && t >= 0 && u@ == (UserView {
            id,
            email: "teste@teste.com"@,
            name: name@,
            birth_date: Date {
                year: birth_date_ymd.0,
                month: birth_date_ymd.1,
                day: birth_date_ymd.2,
            },
            custom_data: CustomData { random: 1 },
            created_at: Some(t),
            updated_at: None,
        }),
{
    let (year, month, day) = birth_date_ymd;
    User {
        id,
        name,
        email: "teste@teste.com".to_owned(),
        birth_date: Date::from_ymd_opt(year, month, day).unwrap(),
        custom_data: CustomData { random: 1 },
        created_at: Some(now_micros()),
        updated_at: None,
    }
}

} // verus!
