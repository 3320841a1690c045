//! Over-the-air firmware update coordinator: attribute exchange, chunked
//! download state machine, progress accounting and the flash-write abstraction.
pub mod coordinator;
pub mod flash;
pub mod laws;
pub mod message;
pub mod metadata;
pub mod session;
