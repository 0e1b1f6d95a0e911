//! Drawing phase value types.

use vstd::prelude::*;

verus! {

/// Phases in which drawing can occur
#[derive(Debug, Clone, Copy, PartialEq, Eq, Structural)]
pub enum Phase {
    /// After the host draws the panel
    AfterPanel,
    /// After the host draws panel gauges
    AfterGauges,
    /// After the host draws user interface windows
    AfterWindows,
    /// After the host draws 3D content in the local map window
    AfterLocalMap3D,
    /// After the host draws 2D content in the local map window
    AfterLocalMap2D,
    /// After the host draws 2D content in the local map profile view
    AfterLocalMapProfile,
}

impl Phase {
    /// Converts this phase into the host's drawing phase code
    pub fn to_xplm(&self) -> (r: i32)
        ensures
            r == (match *self {
                Phase::AfterPanel => 40i32,
                Phase::AfterGauges => 45i32,
                Phase::AfterWindows => 50i32,
                Phase::AfterLocalMap3D => 100i32,
                Phase::AfterLocalMap2D => 101i32,
                Phase::AfterLocalMapProfile => 102i32,
            }),
    {
        match *self {
            Phase::AfterPanel => 40,
            Phase::AfterGauges => 45,
            Phase::AfterWindows => 50,
            Phase::AfterLocalMap3D => 100,
            Phase::AfterLocalMap2D => 101,
            Phase::AfterLocalMapProfile => 102,
        }
    }
}

} // verus!
