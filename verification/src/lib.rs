//! Decision logic of a file encryption tool: which action was asked for, which
//! files are named, and what becomes of each file's contents under a key.
//!
//! Nothing here reads or writes a file, or the clock. A caller hands over
//! what it read, and gets back what to write.

pub mod action;
pub mod batch;
pub mod cipher;
pub mod file;
pub mod key;
pub mod paths;
pub mod report;
pub mod text;
