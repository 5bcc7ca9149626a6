//! The operator command that fans out to every device.

use vstd::prelude::*;

verus! {

/// One tick of operator intent: signed axis values in thousandths of full
/// deflection, plus the focus axis and the autofocus trigger. A command is a
/// complete snapshot, not a delta; each driver honors the axes its
/// capability set permits.
#[derive(Clone, Copy, Debug, PartialEq)]
pub struct Command {
    pub pan: i16,
    pub tilt: i16,
    pub roll: i16,
    pub zoom: i16,
    pub focus: i16,
    pub autofocus: bool,
}

impl Command {
    /// Every axis within full deflection.
    pub open spec fn valid(self) -> bool {
        &&& -1000 <= self.pan <= 1000
        &&& -1000 <= self.tilt <= 1000
        &&& -1000 <= self.roll <= 1000
        &&& -1000 <= self.zoom <= 1000
        &&& -1000 <= self.focus <= 1000
    }
}

} // verus!
