//! The factory reset of the module, a write-only command.

use crate::protocol::Word;
use vstd::prelude::*;

verus! {

/// The command that restores the module's factory settings.
///
/// It is written to the register of the baud rate, as the one value that is
/// no baud rate code. There is nothing to read back: after the write the
/// module stays silent until its power is cycled.
#[derive(Debug, Clone, Copy)]
pub struct FactoryReset;

impl FactoryReset {
    /// Register address the command is written to.
    pub const ADDRESS: u16 = 0x00FF;

    /// The word that triggers the reset.
    pub const DATA: u16 = 5;

    /// The word to write to [`FactoryReset::ADDRESS`] to trigger the reset.
    pub fn encode_for_write_register() -> (word: Word)
        ensures
            word == Self::DATA,
            word == 5,
    {
        Self::DATA
    }
}

} // verus!
