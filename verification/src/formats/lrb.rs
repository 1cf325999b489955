//! The binary track container: a magic header, a versioned extensible
//! "mod" table, and offset-addressed optional payloads.

pub mod cursor;
pub mod error;
pub mod reader;
pub mod unsupported_warning;
