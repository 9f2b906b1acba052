//! Anonymization of a browsing-history database.
//!
//! The crate replaces sensitive text with random substitutes of the same
//! length. Equal originals receive equal substitutes, so the shape of the
//! data survives while its content does not.
//!
//! * [`anonymizer`] holds the substitution table.
//! * [`columns`] says which columns get which treatment, either from a fixed
//!   list for the history database or from the schema as it is found, and
//!   writes the statement for each.
//! * [`plan`] checks the column specs against the schema.
//! * [`rewrite`] steers the one transaction in which all statements run.
//!
//! The crate does not touch the database itself. Its caller executes the
//! statements, offers the substitution table to them as a function of one
//! argument, and reports back how each execution went.

pub mod anonymizer;
pub mod columns;
pub mod error;
pub mod plan;
pub mod random;
pub mod rewrite;
pub mod schema;
pub mod sql;
pub mod value;
