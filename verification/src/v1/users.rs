//! The routes under `/v1/user`. Each function takes what the repository
//! returned and gives the response: the status and what goes into the body.

use vstd::prelude::*;
use crate::error::Error;
use crate::repository::{RepositoryResult, RepositoryResultList};
use crate::user::User;

verus! {

/// The path of the routes, below the version.
pub const PATH: &'static str = "/user";

pub const OK: u16 = 200;

pub const CREATED: u16 = 201;

pub const NO_CONTENT: u16 = 204;

pub const NOT_FOUND: u16 = 404;

pub const UNPROCESSABLE_ENTITY: u16 = 422;

pub const BAD_GATEWAY: u16 = 502;

/// What a response carries in its body, to be written as JSON.
#[derive(Debug, PartialEq, Eq)]
pub enum Body {
    Users(Vec<User>),
    User(User),
    Error(Error),
    Empty,
}

/// A response: the HTTP status and the body.
#[derive(Debug, PartialEq, Eq)]
pub struct Response {
    pub status: u16,
    pub body: Body,
}

/// `GET /v1/user`: the list, or bad gateway with the error.
pub fn get_all(result: RepositoryResultList<User>) -> (response: Response)
    ensures
        response == match result {
            Ok(users) => Response { status: OK, body: Body::Users(users) },
            Err(e) => Response { status: BAD_GATEWAY, body: Body::Error(e) },
        },
{
    match result {
        Ok(users) => Response { status: OK, body: Body::Users(users) },
        Err(e) => Response { status: BAD_GATEWAY, body: Body::Error(e) },
    }
}

/// `GET /v1/user/{id}`: the user, or not found with the error.
pub fn get(result: RepositoryResult<User>) -> (response: Response)
    ensures
        response == match result {
            Ok(user) => Response { status: OK, body: Body::User(user) },
            Err(e) => Response { status: NOT_FOUND, body: Body::Error(e) },
        },
{
    match result {
        Ok(user) => Response { status: OK, body: Body::User(user) },
        Err(e) => Response { status: NOT_FOUND, body: Body::Error(e) },
    }
}

/// `POST /v1/user`: created with the new user, or unprocessable entity with
/// the error.
pub fn post(result: RepositoryResult<User>) -> (response: Response)
    ensures
        response == match result {
            Ok(user) => Response { status: CREATED, body: Body::User(user) },
            Err(e) => Response { status: UNPROCESSABLE_ENTITY, body: Body::Error(e) },
        },
{
    match result {
        Ok(user) => Response { status: CREATED, body: Body::User(user) },
        Err(e) => Response { status: UNPROCESSABLE_ENTITY, body: Body::Error(e) },
    }
}

/// `PUT /v1/user`: the updated user, or unprocessable entity with the error.
pub fn put(result: RepositoryResult<User>) -> (response: Response)
    ensures
        response == match result {
            Ok(user) => Response { status: OK, body: Body::User(user) },
            Err(e) => Response { status: UNPROCESSABLE_ENTITY, body: Body::Error(e) },
        },
{
    match result {
        Ok(user) => Response { status: OK, body: Body::User(user) },
        Err(e) => Response { status: UNPROCESSABLE_ENTITY, body: Body::Error(e) },
    }
}

/// `DELETE /v1/user/{id}`: no content, or not found with the error.
pub fn delete(result: RepositoryResult<u128>) -> (response: Response)
    ensures
        response == match result {
            Ok(_) => Response { status: NO_CONTENT, body: Body::Empty },
            Err(e) => Response { status: NOT_FOUND, body: Body::Error(e) },
        },
{
    match result {
        Ok(_) => Response { status: NO_CONTENT, body: Body::Empty },
        Err(e) => Response { status: NOT_FOUND, body: Body::Error(e) },
    }
}

} // verus!
