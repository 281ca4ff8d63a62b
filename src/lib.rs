//! Policy layer of a small script host: module resolution, media
//! classification, transpilation dispatch, module loading, the host
//! operation table, the run state machine and the snapshot frame.
pub mod error;
pub mod media;
pub mod resolver;
pub mod transpile;
pub mod loader;
pub mod ops;
pub mod driver;
pub mod snapshot;
