//! The configuration of a modem.
use vstd::prelude::*;

use crate::op::{
    CalibImageFreq, CalibParam, IrqMask, ModParams, PaConfig, PacketParams, PacketType, TcxoDelay,
    TcxoVoltage, TxParams,
};

verus! {

/// What a modem is initialized with.
#[derive(Clone, Copy, Debug)]
pub struct Config {
    pub packet_type: PacketType,
    /// The sync word. 0x3444 for public networks like TTN, 0x1424 for private ones.
    pub sync_word: u16,
    pub calib_param: CalibParam,
    pub mod_params: ModParams,
    pub pa_config: PaConfig,
    /// Not sent where there are none.
    pub packet_params: Option<PacketParams>,
    pub tx_params: TxParams,
    /// The interrupts that are enabled, and routed to DIO1.
    pub dio1_irq_mask: IrqMask,
    pub dio2_irq_mask: IrqMask,
    pub dio3_irq_mask: IrqMask,
    /// The RF frequency, in steps of the frequency synthesizer.
    pub rf_freq: u32,
    /// The band that the RF frequency lies in.
    pub image_freq: CalibImageFreq,
    /// Present where DIO3 feeds a TCXO.
    pub tcxo_opts: Option<(TcxoVoltage, TcxoDelay)>,
}

} // verus!
