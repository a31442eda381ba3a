//! The air above a cell.

use vstd::prelude::*;

verus! {

/// The air layer: the waste that metabolism leaves behind.
#[derive(Debug, Clone, Copy, PartialEq, Eq, Structural)]
pub struct AirCell {
    pub pollution: u8,
}

impl Default for AirCell {
    fn default() -> (cell: AirCell)
        ensures
            cell.pollution == 0,
    {
        AirCell { pollution: 0 }
    }
}

} // verus!
