//! Registration of a debug callback with a Vulkan instance.
//!
//! The native subsystem reports diagnostic events through a single C-style
//! callback slot, filtered by severity and message-type bitmasks. This crate
//! models and verifies the logic of that bridge: the severity and
//! message-type filter values, the bitmask encoding they travel in, the
//! decoding of an incoming event into a structured [`message::Message`], and
//! the registration state machine that guarantees the native handle is
//! released exactly once. The thin unsafe shell that actually crosses the
//! C ABI lives outside the library and drives these functions.

pub mod codec;
pub mod filters;
pub mod message;
pub mod registry;
pub mod subscription;
