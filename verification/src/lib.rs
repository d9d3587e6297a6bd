//! A minimal in-memory key/value store: string payloads are filed under
//! monotonically increasing integer identifiers, with create, read, update
//! and delete access. A lock-protected shared variant lets many callers
//! work on one store at once.

pub mod db;
pub mod entities;
pub mod in_memory_db;
pub mod laws;
pub mod payroll_db;
pub mod shared;
pub mod use_cases;
