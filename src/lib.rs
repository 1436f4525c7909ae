//! Local storage of day notes: one free-text note per calendar day, kept in
//! an embedded SQLite database.
pub mod note;
pub mod sql;
pub mod store;
