//! Reading the four-part file version (major, minor, build, revision) out of
//! the version resource of an executable or library file.
//!
//! `encoding` writes a path in the forms that the host's version API takes,
//! `query` decides, answer by answer, how a query of that API goes on, and
//! `record` reads the version out of the fixed record that the host located.

pub mod encoding;
pub mod query;
pub mod record;
