//! A repository of users: the entity model, a volatile in-memory store that
//! keeps e-mail addresses unique, and the decisions of a relational store
//! expressed over the replies of its statements.

pub mod create_user;
pub mod error;
pub mod laws;
pub mod model;
pub mod relational;
pub mod repository;
pub mod system;
pub mod table;
pub mod user;
pub mod v1;
