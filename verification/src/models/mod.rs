//! The request and record types of the services and their validation rules.
pub mod validation;
pub mod book;
pub mod todo;
pub mod task;
pub mod sql_book;
