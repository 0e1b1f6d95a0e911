//! Menu item value types.
//!
//! Menu tree management itself talks to the host and lives in the plugin
//! shell; the value types that describe menu items are here.

use vstd::prelude::*;

verus! {

/// A separator between menu items
#[derive(Debug, Clone, Copy, PartialEq, Eq, Structural)]
pub struct Separator;

} // verus!
