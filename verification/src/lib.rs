//! Verified core of the playground services: the message-stream vocabulary,
//! request validation, error-to-response mapping, environment handling and
//! the small algorithms the services share.

pub mod text;
pub mod streams;
pub mod duplicates;
pub mod models;
pub mod errors;
pub mod numbers;
pub mod operations;
pub mod envs;
pub mod ids;
pub mod cli;
pub mod commands;
pub mod db_resource;
pub mod datetime;
pub mod messaging;
pub mod answers;
pub mod services;
