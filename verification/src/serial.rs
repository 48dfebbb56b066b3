use vstd::prelude::*;

verus! {

/// The serial port: writes to its registers are accepted and have no effect.
pub struct Serial;

impl Serial {
    pub fn new() -> (r: Serial) {
        Serial
    }

    /// SB (serial transfer data): ignored.
    pub fn set_sb(&mut self, value: u8) {
    }

    /// SC (serial transfer control): ignored.
    pub fn set_sc(&mut self, value: u8) {
    }
}

} // verus!
