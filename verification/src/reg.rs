//! The modem's registers.
use vstd::prelude::*;

verus! {

/// A register, by its address.
#[derive(Clone, Copy, Debug, PartialEq, Eq)]
pub struct Register {
    pub addr: u16,
}

/// The address of the high byte of the LoRa sync word. The low byte follows it.
pub const LORA_SYNC_WORD_MSB: u16 = 0x0740;

impl Register {
    /// The high byte of the LoRa sync word.
    pub fn lora_sync_word_msb() -> (register: Self)
        ensures
            register == (Register { addr: LORA_SYNC_WORD_MSB }),
    {
        Register { addr: LORA_SYNC_WORD_MSB }
    }
}

} // verus!
