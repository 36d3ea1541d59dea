//! The freshness cache: what is stored for a key, when a stored answer may
//! still be served, and the two protocols that read and refresh it.

pub mod entry;
pub mod policy;
pub mod loader;
pub mod refresher;
pub mod model;
pub mod laws;
pub mod race;
