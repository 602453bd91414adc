//! Live telemetry gateway core: the snapshot model and store, the stream
//! collector's decisions, observer sessions, and the vector projection engine.
pub mod collector;
pub mod lcg;
pub mod metrics;
pub mod projection;
pub mod session;
pub mod store;
pub mod vectors;
