//! Discovers candidate database files under one or more root directories and
//! reclaims disk space by compacting each one, reporting per-file and
//! aggregate space savings.
//!
//! This crate holds the verified core of that pipeline: file classification,
//! the compaction step machine, scanner root handling, worker event
//! construction, and aggregation of status events into run totals. The I/O
//! edges (directory walking, the database engine, terminal output) live
//! outside and hand plain values in and out.

pub mod compact;
pub mod errors;
pub mod events;
pub mod pool;
pub mod scanner;
pub mod sqlite_file;

pub use errors::AppError;
pub use events::RunTotals;
pub use events::StatusEvent;
pub use sqlite_file::SQLiteFile;
pub use sqlite_file::VacuumResult;
