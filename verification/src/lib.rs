//! File-pruning and response-shaping core of a table-sharing server.
//!
//! Given a table snapshot (schema and file entries) and a set of column
//! filters, the library decides which data files could possibly contain
//! matching rows, and reshapes the survivors plus the table metadata into
//! protocol-facing records. Pruning is best-effort and safe: a file is
//! dropped only when its own statistics prove that no row in it can
//! satisfy every filter; any uncertainty keeps the file.

pub mod laws;
pub mod model;
pub mod service;
pub mod sql;
pub mod stats;
pub mod text;
