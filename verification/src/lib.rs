//! Stub generation for functions that are still under development.
//!
//! A function declaration, together with an optional free-text comment and a
//! foreign-export flag, is turned into a stub whose body aborts, and into one
//! line of an append-only audit log. Generation works on plain records;
//! `syntax` reads them from token streams, and writing the log is left to
//! the caller.

pub mod text;
pub mod error;
pub mod args;
pub mod batch;
pub mod declaration;
pub mod audit;
pub mod generate;
pub mod samples;
pub mod syntax;
