//! An anonymous, ephemeral file store: bundles of one content file and one
//! hashed change key, with the rules that govern reading, creating, modifying,
//! deleting and expiring them.

pub mod id;
pub mod data_source;
pub mod storage;
pub mod guarantees;
pub mod auto_delete;
pub mod api;
