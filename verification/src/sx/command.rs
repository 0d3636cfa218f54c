//! The modem's commands, and what the driver's calls are made of.
use vstd::prelude::*;

use super::bus::{sent, Level, OperationView, SpiFault, StepView};
use crate::conf::Config;
use crate::endian::{be16, be32};
use crate::op::{
    CalibImageFreq, CalibParam, IrqMask, LoRaCrcType, LoRaPacketParams, ModParams, PaConfig,
    PacketParams, PacketType, RxTxTimeout, StandbyConfig, TcxoDelay, TcxoVoltage, TxParams, IRQ_ALL,
    STBY_RC,
};
use crate::reg::LORA_SYNC_WORD_MSB;
use vstd::std_specs::convert::FromSpec;

verus! {

/// The byte that is sent while the modem answers.
pub const NOP: u8 = 0x00;

/// How long the driver leaves the modem before it looks at the busy pin.
pub const BUSY_DELAY_NS: u32 = 1000;

/// How long the driver holds the reset pin low.
pub const RESET_DELAY_NS: u32 = 200_000;

/// A command of the modem, with its operands.
pub enum Command {
    ClearIrqStatus { mask: IrqMask },
    ClearDeviceErrors,
    SetDioIrqParams { irq: IrqMask, dio1: IrqMask, dio2: IrqMask, dio3: IrqMask },
    WriteRegister { addr: u16, data: Seq<u8> },
    WriteBuffer { offset: u8, data: Seq<u8> },
    GetStats,
    GetIrqStatus,
    GetRxBufferStatus,
    GetPacketStatus,
    GetDeviceErrors,
    ReadRegister { addr: u16, len: usize },
    ReadBuffer { offset: u8, len: usize },
    SetStandby { standby: StandbyConfig },
    SetRx { timeout: RxTxTimeout },
    SetTx { timeout: RxTxTimeout },
    SetRfFrequency { rf_freq: u32 },
    Calibrate { param: CalibParam },
    SetPacketType { packet_type: PacketType },
    SetModParams { mod_params: ModParams },
    SetPacketParams { packet_params: PacketParams },
    SetTxParams { tx_params: TxParams },
    SetBufferBaseAddress { tx: u8, rx: u8 },
    SetPaConfig { pa_config: PaConfig },
    SetDio3AsTcxoCtrl { voltage: TcxoVoltage, delay: TcxoDelay },
    CalibrateImage { freq: CalibImageFreq },
    SetDio2AsRfSwitchCtrl { enable: bool },
    GetStatus,
    SetFs,
}

/// A transaction that sends an opcode, and then the operands.
pub open spec fn opcode_then(opcode: u8, operands: Seq<u8>) -> Seq<OperationView> {
    seq![OperationView::Write(seq![opcode]), OperationView::Write(operands)]
}

impl Command {
    /// The transaction that gives the command to the modem.
    pub open spec fn ops(self) -> Seq<OperationView> {
        match self {
            Command::ClearIrqStatus { mask } => opcode_then(0x02, be16(mask.bits)),
            Command::ClearDeviceErrors => seq![OperationView::Write(seq![0x07u8, NOP, NOP])],
            Command::SetDioIrqParams { irq, dio1, dio2, dio3 } => seq![
                OperationView::Write(seq![0x08u8]),
                OperationView::Write(be16(irq.bits)),
                OperationView::Write(be16(dio1.bits)),
                OperationView::Write(be16(dio2.bits)),
                OperationView::Write(be16(dio3.bits)),
            ],
            Command::WriteRegister { addr, data } => seq![
                OperationView::Write(seq![0x0Du8]),
                OperationView::Write(be16(addr)),
                OperationView::Write(data),
            ],
            Command::WriteBuffer { offset, data } => seq![
                OperationView::Write(seq![0x0Eu8, offset]),
                OperationView::Write(data),
            ],
            Command::GetStats => seq![
                OperationView::TransferInPlace(seq![0x10u8, NOP, NOP, NOP, NOP, NOP, NOP, NOP]),
            ],
            Command::GetIrqStatus => seq![
                OperationView::Write(seq![0x12u8]),
                OperationView::Read(3),
            ],
            Command::GetRxBufferStatus => seq![
                OperationView::TransferInPlace(seq![0x13u8, NOP, NOP, NOP]),
            ],
            Command::GetPacketStatus => seq![
                OperationView::Write(seq![0x14u8, NOP]),
                OperationView::Read(3),
            ],
            Command::GetDeviceErrors => seq![
                OperationView::TransferInPlace(seq![0x17u8, NOP, NOP, NOP]),
            ],
            Command::ReadRegister { addr, len } => seq![
                OperationView::Write(seq![0x1Du8]),
                OperationView::Write(be16(addr)),
                OperationView::Read(len),
            ],
            Command::ReadBuffer { offset, len } => seq![
                OperationView::Write(seq![0x1Eu8, offset, NOP]),
                OperationView::Read(len),
            ],
            Command::SetStandby { standby } => seq![
                OperationView::Write(seq![0x80u8, standby.code]),
            ],
            Command::SetRx { timeout } => seq![
                OperationView::Write(seq![0x82u8] + timeout.bytes@),
            ],
            Command::SetTx { timeout } => seq![
                OperationView::TransferInPlace(seq![0x83u8] + timeout.bytes@),
            ],
            Command::SetRfFrequency { rf_freq } => opcode_then(0x86, be32(rf_freq)),
            Command::Calibrate { param } => seq![OperationView::Write(seq![0x89u8, param.bits])],
            Command::SetPacketType { packet_type } => seq![
                OperationView::Write(seq![0x8Au8, packet_type.code]),
            ],
            Command::SetModParams { mod_params } => opcode_then(0x8B, mod_params.bytes@),
            Command::SetPacketParams { packet_params } => opcode_then(0x8C, packet_params.bytes@),
            Command::SetTxParams { tx_params } => opcode_then(0x8E, tx_params.bytes@),
            Command::SetBufferBaseAddress { tx, rx } => seq![
                OperationView::Write(seq![0x8Fu8, tx, rx]),
            ],
            Command::SetPaConfig { pa_config } => opcode_then(0x95, pa_config.bytes@),
            Command::SetDio3AsTcxoCtrl { voltage, delay } => seq![
                OperationView::Write(seq![0x97u8, voltage.code]),
                OperationView::Write(delay.bytes@),
            ],
            Command::CalibrateImage { freq } => opcode_then(0x98, freq.band@),
            Command::SetDio2AsRfSwitchCtrl { enable } => seq![
                OperationView::Write(
                    seq![
                        0x9Du8,
                        if enable {
                            1
                        } else {
                            0
                        },
                    ],
                ),
            ],
            Command::GetStatus => seq![OperationView::TransferInPlace(seq![0xC0u8, NOP])],
            Command::SetFs => seq![OperationView::Write(seq![0xC1u8])],
        }
    }

    /// The error that a failed transaction is reported as: a failed transfer for the
    /// commands that take bytes in, and for two of those that only send; a failed
    /// write for the others.
    pub open spec fn fault(self) -> SpiFault {
        match self {
            Command::GetStatus
            | Command::GetStats
            | Command::GetIrqStatus
            | Command::GetRxBufferStatus
            | Command::GetPacketStatus
            | Command::GetDeviceErrors
            | Command::ReadRegister { .. }
            | Command::ReadBuffer { .. }
            | Command::SetDioIrqParams { .. }
            | Command::SetTx { .. }
            | Command::SetRx { .. } => SpiFault::Transfer,
            _ => SpiFault::Write,
        }
    }

    /// The step that gives the command to the modem.
    pub open spec fn step(self) -> StepView {
        StepView::Spi { ops: self.ops(), fault: self.fault() }
    }

    /// The byte that names the command.
    pub open spec fn opcode(self) -> u8 {
        match self {
            Command::ClearIrqStatus { .. } => 0x02,
            Command::ClearDeviceErrors => 0x07,
            Command::SetDioIrqParams { .. } => 0x08,
            Command::WriteRegister { .. } => 0x0D,
            Command::WriteBuffer { .. } => 0x0E,
            Command::GetStats => 0x10,
            Command::GetIrqStatus => 0x12,
            Command::GetRxBufferStatus => 0x13,
            Command::GetPacketStatus => 0x14,
            Command::GetDeviceErrors => 0x17,
            Command::ReadRegister { .. } => 0x1D,
            Command::ReadBuffer { .. } => 0x1E,
            Command::SetStandby { .. } => 0x80,
            Command::SetRx { .. } => 0x82,
            Command::SetTx { .. } => 0x83,
            Command::SetRfFrequency { .. } => 0x86,
            Command::Calibrate { .. } => 0x89,
            Command::SetPacketType { .. } => 0x8A,
            Command::SetModParams { .. } => 0x8B,
            Command::SetPacketParams { .. } => 0x8C,
            Command::SetTxParams { .. } => 0x8E,
            Command::SetBufferBaseAddress { .. } => 0x8F,
            Command::SetPaConfig { .. } => 0x95,
            Command::SetDio3AsTcxoCtrl { .. } => 0x97,
            Command::CalibrateImage { .. } => 0x98,
            Command::SetDio2AsRfSwitchCtrl { .. } => 0x9D,
            Command::GetStatus => 0xC0,
            Command::SetFs => 0xC1,
        }
    }

    /// The bytes that follow the opcode.
    pub open spec fn operands(self) -> Seq<u8> {
        match self {
            Command::ClearIrqStatus { mask } => be16(mask.bits),
            Command::ClearDeviceErrors => seq![NOP, NOP],
            Command::SetDioIrqParams { irq, dio1, dio2, dio3 } => be16(irq.bits) + be16(dio1.bits)
                + be16(dio2.bits) + be16(dio3.bits),
            Command::WriteRegister { addr, data } => be16(addr) + data,
            Command::WriteBuffer { offset, data } => seq![offset] + data,
            Command::GetStats => seq![NOP, NOP, NOP, NOP, NOP, NOP, NOP],
            Command::GetIrqStatus => Seq::empty(),
            Command::GetRxBufferStatus => seq![NOP, NOP, NOP],
            Command::GetPacketStatus => seq![NOP],
            Command::GetDeviceErrors => seq![NOP, NOP, NOP],
            Command::ReadRegister { addr, .. } => be16(addr),
            Command::ReadBuffer { offset, .. } => seq![offset, NOP],
            Command::SetStandby { standby } => seq![standby.code],
            Command::SetRx { timeout } => timeout.bytes@,
            Command::SetTx { timeout } => timeout.bytes@,
            Command::SetRfFrequency { rf_freq } => be32(rf_freq),
            Command::Calibrate { param } => seq![param.bits],
            Command::SetPacketType { packet_type } => seq![packet_type.code],
            Command::SetModParams { mod_params } => mod_params.bytes@,
            Command::SetPacketParams { packet_params } => packet_params.bytes@,
            Command::SetTxParams { tx_params } => tx_params.bytes@,
            Command::SetBufferBaseAddress { tx, rx } => seq![tx, rx],
            Command::SetPaConfig { pa_config } => pa_config.bytes@,
            Command::SetDio3AsTcxoCtrl { voltage, delay } => seq![voltage.code] + delay.bytes@,
            Command::CalibrateImage { freq } => freq.band@,
            Command::SetDio2AsRfSwitchCtrl { enable } => seq![
                if enable {
                    1u8
                } else {
                    0u8
                },
            ],
            Command::GetStatus => seq![NOP],
            Command::SetFs => Seq::empty(),
        }
    }

    /// The bytes that the modem sees of the command.
    pub open spec fn frame(self) -> Seq<u8> {
        sent(self.ops())
    }
}

/// Gives the modem a moment to raise the busy pin, and waits for it to fall.
pub open spec fn wait_on_busy_plan() -> Seq<StepView> {
    seq![
        StepView::Spi {
            ops: seq![OperationView::DelayNs(BUSY_DELAY_NS)],
            fault: SpiFault::Transfer,
        },
        StepView::BusyLow,
    ]
}

/// Holds the reset pin low for a while.
pub open spec fn reset_plan() -> Seq<StepView> {
    seq![
        StepView::Nrst(Level::Low),
        StepView::Spi {
            ops: seq![OperationView::DelayNs(RESET_DELAY_NS)],
            fault: SpiFault::Write,
        },
        StepView::Nrst(Level::High),
    ]
}

/// A command, and a wait for the modem to have carried it out.
pub open spec fn settled(command: Command) -> Seq<StepView> {
    seq![command.step()] + wait_on_busy_plan()
}

/// Sets the LoRa sync word.
pub open spec fn set_sync_word(sync_word: u16) -> Command {
    Command::WriteRegister { addr: LORA_SYNC_WORD_MSB, data: be16(sync_word) }
}

/// The plan of an initialization.
pub open spec fn init_plan(conf: Config) -> Seq<StepView> {
    reset_plan() + wait_on_busy_plan()
        + settled(Command::SetStandby { standby: StandbyConfig { code: STBY_RC } })
        + settled(Command::SetPacketType { packet_type: conf.packet_type })
        + settled(Command::SetRfFrequency { rf_freq: conf.rf_freq })
        + match conf.tcxo_opts {
            Some((voltage, delay)) => settled(Command::SetDio3AsTcxoCtrl { voltage, delay }),
            None => Seq::empty(),
        }
        + settled(Command::Calibrate { param: conf.calib_param })
        + settled(Command::CalibrateImage { freq: conf.image_freq })
        + settled(Command::SetPaConfig { pa_config: conf.pa_config })
        + settled(Command::SetTxParams { tx_params: conf.tx_params })
        + settled(Command::SetBufferBaseAddress { tx: 0x00, rx: 0x00 })
        + settled(Command::SetModParams { mod_params: conf.mod_params })
        + match conf.packet_params {
            Some(packet_params) => settled(Command::SetPacketParams { packet_params }),
            None => Seq::empty(),
        }
        + settled(
            Command::SetDioIrqParams {
                irq: conf.dio1_irq_mask,
                dio1: conf.dio1_irq_mask,
                dio2: conf.dio2_irq_mask,
                dio3: conf.dio3_irq_mask,
            },
        )
        + settled(Command::SetDio2AsRfSwitchCtrl { enable: true })
        + settled(set_sync_word(conf.sync_word))
}

/// The parameters of a message of `len` bytes. One byte of the length is sent.
pub open spec fn message_params(
    len: nat,
    preamble_len: u16,
    crc_type: LoRaCrcType,
) -> LoRaPacketParams {
    LoRaPacketParams {
        preamble_len,
        header_type: 0,
        payload_len: (len % 256) as u8,
        crc_type,
        invert_iq: 0,
    }
}

/// The plan of sending a message: store it, describe it, send it, wait until it is
/// out, and clear the interrupts.
pub open spec fn write_bytes_plan(
    data: Seq<u8>,
    timeout: RxTxTimeout,
    preamble_len: u16,
    crc_type: LoRaCrcType,
) -> Seq<StepView> {
    seq![
        Command::WriteBuffer { offset: 0x00, data }.step(),
        Command::SetPacketParams {
            packet_params: PacketParams::from_spec(
                message_params(data.len(), preamble_len, crc_type),
            ),
        }.step(),
        Command::SetTx { timeout }.step(),
    ] + wait_on_busy_plan() + seq![
        StepView::Dio1High,
        Command::ClearIrqStatus { mask: IrqMask { bits: IRQ_ALL } }.step(),
    ]
}

} // verus!
