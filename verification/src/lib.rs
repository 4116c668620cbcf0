//! Frontend supervisor for a reconfigurable-hardware game platform.
//!
//! The library models and verifies the logic that coordinates the
//! per-frame event loop, the hot-plug input-device registry, the
//! hardware-core lifecycle (launch, status, reset, mount polling,
//! teardown), the in-loop menu overlay, and the bridge through which an
//! embedded script engine drives core launches.  Everything that touches
//! the platform itself (display, event pump, script engine, storage) is
//! kept at the edges and hands this library plain values.

pub mod application;
pub mod catalog;
pub mod devices;
pub mod lifecycle;
pub mod nav;
pub mod script;
pub mod session;
pub mod surface;
