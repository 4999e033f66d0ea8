//! Capability interfaces for embedded peripherals, and the generic adapters
//! that derive the richer capabilities from the minimal ones.
//!
//! A concrete device implements the leaf capabilities natively: driving and
//! reading a pin ([`digital`]), or moving one word at a time over a serial
//! bus without waiting ([`spi`]). A device that opts in then gets the derived
//! capabilities for free: toggling a pin ([`digital::toggleable`]) and
//! blocking multi-word transfers ([`blocking::spi`]).
//!
//! Every leaf capability comes with a ghost model of the device and says what
//! each of its operations does to that model. Whoever implements one for a
//! piece of hardware vouches for that; the adapters are then proved to do
//! their work on any such device.
pub mod blocking;
pub mod digital;
pub mod nb;
pub mod spi;
