//! An embedded engine bridge: descriptor resolution, bootstrap decisions and a
//! single-writer request dispatcher, each stated as verified Rust.
pub mod endpoint;
pub mod handle;
pub mod laws;
pub mod router;
pub mod semver;
pub mod value;
pub mod vars;
