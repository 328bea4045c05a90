//! Cookie-based sessions that live in memory and are kept in an SQL database.
//!
//! The library decides; it does no input or output of its own. What has to happen on the database
//! it hands out as a [`statement::Statement`], and what came of it is handed back.
//!
//! - [`config`]: the settings, and the fairing that is built up with them;
//! - [`fairing`]: what the fairing does when it is attached and when a response goes out;
//! - [`store`]: the sessions in memory, and the statements for the database;
//! - [`request`]: how a request comes by its session;
//! - [`session`]: what is done with a session;
//! - [`data`]: the data of one session;
//! - [`laws`]: what holds of the sessions as a whole;
//! - [`operations`]: what each operation does, said of what goes in and what comes out;
//! - [`table`]: what the statements do to the table;
//! - [`statement`], [`string_map`], [`text`], [`time`], [`token`]: what these are made of.

pub mod config;
pub mod data;
pub mod fairing;
pub mod laws;
pub mod operations;
pub mod request;
pub mod session;
pub mod statement;
pub mod store;
pub mod string_map;
pub mod table;
pub mod text;
pub mod time;
pub mod token;
