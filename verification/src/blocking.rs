//! Blocking API
//!
//! Operations that return only when they are done, built on the non-blocking
//! ones by trying again for as long as the device would block.
pub mod spi;
