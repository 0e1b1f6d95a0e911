//! A safe, verified model of a flight-simulator plugin interface: typed
//! dataref handles, owned datarefs with host-dispatched accessor callbacks,
//! and the supporting user-interface value types.
//!
//! Nothing here runs its own threads: the host invokes every callback
//! synchronously from one logical thread of control, so only one call
//! stack is ever inside plugin code at a time and no synchronization is
//! used. Code that shares these types across threads is outside every
//! guarantee made here.

pub mod data;
/// Drawing phase value types
pub mod draw;
/// Foreign function interface utilities
pub mod ffi;
/// Radio frequencies
pub mod frequency;
/// 2D user interface geometry
pub mod geometry;
/// Menu item value types
pub mod menu;
/// Host version information
pub mod versions;
/// Window event value types
pub mod window;
