//! Version 1 of the HTTP interface: what each route answers to each result
//! of the repository.

pub mod users;
