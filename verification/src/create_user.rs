use vstd::prelude::*;
use crate::user::Date;

verus! {

/// The structured payload that a caller attaches to a new user.
#[derive(Debug, Clone, Copy, PartialEq, Eq, Structural)]
pub struct CustomData {
    pub random: i32,
}

/// What a caller supplies to have a user created. The identifier is assigned
/// by the repository; the two timestamps are accepted for shape only and are
/// never read.
#[derive(Debug, PartialEq, Eq)]
pub struct CreateUser {
    pub email: String,
    pub name: String,
    pub birth_date: Date,
    pub custom_data: CustomData,
    pub created_at: Option<i64>,
    pub updated_at: Option<i64>,
}

/// The mathematical value of a [`CreateUser`].
pub struct CreateUserView {
    pub email: Seq<char>,
    pub name: Seq<char>,
    pub birth_date: Date,
    pub custom_data: CustomData,
    pub created_at: Option<i64>,
    pub updated_at: Option<i64>,
}

impl View for CreateUser {
    type V = CreateUserView;

    open spec fn view(&self) -> CreateUserView {
        CreateUserView {
            email: self.email@,
            name: self.name@,
            birth_date: self.birth_date,
            custom_data: self.custom_data,
            created_at: self.created_at,
            updated_at: self.updated_at,
        }
    }
}

impl Clone for CreateUser {
    fn clone(&self) -> (c: Self)
        ensures
            c == *self,
    {
        CreateUser {
            email: self.email.clone(),
            name: self.name.clone(),
            birth_date: self.birth_date,
            custom_data: self.custom_data,
            created_at: self.created_at,
            updated_at: self.updated_at,
        }
    }
}

} // verus!
