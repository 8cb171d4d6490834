//! A fortune service core: resolves its configuration from externally
//! supplied values with documented defaults, selects a random entry from a
//! sparse identifier space by bounded rejection sampling, and wraps the
//! chosen entry in a minimal HTML page under a single configured status code.

pub mod config;
pub mod response;
pub mod selector;
pub mod storage;
