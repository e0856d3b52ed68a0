//! Sources: monitored devices reporting a boolean activity state. The
//! kind-specific source option types and their verified decision helpers
//! live in the submodules.

pub mod kodi;
pub mod steamlink;
