//! Leftover-artifact detection and removal engine.
//!
//! After a program's own uninstaller has run, stray files, directories and
//! registry entries are often left behind.  This library derives search terms
//! from a program's identity, matches filesystem entries and registry subkey
//! names against them, merges and canonically orders the findings, and plans
//! and accounts for a best-effort batch deletion with an optional audit log.

pub mod aggregate;
pub mod backup;
pub mod deletion;
pub mod item;
pub mod platform;
pub mod registry;
pub mod scan;
pub mod session;
pub mod terms;
pub mod text;
pub mod theme;
