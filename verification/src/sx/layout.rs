//! What each command looks like to the modem, byte for byte.
use vstd::prelude::*;

use super::bus::{Level, OperationView, SpiFault, StepView};
use super::command::{reset_plan, set_sync_word, settled, wait_on_busy_plan, Command};
use crate::op::{
    CalibImageFreq, CalibParam, IrqMask, ModParams, PaConfig, PacketParams, PacketType, RxTxTimeout,
    StandbyConfig, TcxoDelay, TcxoVoltage, TxParams,
};

verus! {

/// Clearing interrupts sends 0x02 and the set, the high byte first.
pub proof fn law_clear_irq_status(mask: IrqMask)
    ensures
        (Command::ClearIrqStatus { mask }).step() matches StepView::Spi { ops, fault } && {
            &&& fault == SpiFault::Write
            &&& ops.len() == 2
            &&& ops[0] == OperationView::Write(seq![0x02u8])
            &&& (ops[1] matches OperationView::Write(w) && w.len() == 2
                && w[0] * 256 + w[1] == mask.bits)
        },
{
}

/// Clearing the device errors sends 0x07 and two zeros.
pub proof fn law_clear_device_errors()
    ensures
        (Command::ClearDeviceErrors).step() matches StepView::Spi { ops, fault } && {
            &&& fault == SpiFault::Write
            &&& ops.len() == 1
            &&& ops[0] == OperationView::Write(seq![0x07u8, 0x00u8, 0x00u8])
        },
{
}

/// Configuring the interrupts sends 0x08 and the four sets, each with the high byte first.
/// A failure is reported as a failed transfer.
pub proof fn law_set_dio_irq_params(irq: IrqMask, dio1: IrqMask, dio2: IrqMask, dio3: IrqMask)
    ensures
        (Command::SetDioIrqParams { irq, dio1, dio2, dio3 }).step()
            matches StepView::Spi { ops, fault } && {
            &&& fault == SpiFault::Transfer
            &&& ops.len() == 5
            &&& ops[0] == OperationView::Write(seq![0x08u8])
            &&& (ops[1] matches OperationView::Write(w) && w.len() == 2
                && w[0] * 256 + w[1] == irq.bits)
            &&& (ops[2] matches OperationView::Write(w) && w.len() == 2
                && w[0] * 256 + w[1] == dio1.bits)
            &&& (ops[3] matches OperationView::Write(w) && w.len() == 2
                && w[0] * 256 + w[1] == dio2.bits)
            &&& (ops[4] matches OperationView::Write(w) && w.len() == 2
                && w[0] * 256 + w[1] == dio3.bits)
        },
{
}

/// Writing registers sends 0x0D, the address with the high byte first, and the data.
pub proof fn law_write_register(addr: u16, data: Seq<u8>)
    ensures
        (Command::WriteRegister { addr, data }).step() matches StepView::Spi { ops, fault } && {
            &&& fault == SpiFault::Write
            &&& ops.len() == 3
            &&& ops[0] == OperationView::Write(seq![0x0Du8])
            &&& (ops[1] matches OperationView::Write(w) && w.len() == 2
                && w[0] * 256 + w[1] == addr)
            &&& ops[2] == OperationView::Write(data)
        },
{
}

/// Writing the buffer sends 0x0E, the offset, and the data.
pub proof fn law_write_buffer(offset: u8, data: Seq<u8>)
    ensures
        (Command::WriteBuffer { offset, data }).step() matches StepView::Spi { ops, fault } && {
            &&& fault == SpiFault::Write
            &&& ops.len() == 2
            &&& ops[0] == OperationView::Write(seq![0x0Eu8, offset])
            &&& ops[1] == OperationView::Write(data)
        },
{
}

/// Asking for the packet counters sends 0x10 and seven zeros, and takes in eight bytes.
pub proof fn law_get_stats()
    ensures
        (Command::GetStats).step() matches StepView::Spi { ops, fault } && {
            &&& fault == SpiFault::Transfer
            &&& ops.len() == 1
            &&& ops[0]
                == OperationView::TransferInPlace(
                seq![0x10u8, 0x00u8, 0x00u8, 0x00u8, 0x00u8, 0x00u8, 0x00u8, 0x00u8],
            )
        },
{
}

/// Asking for the pending interrupts sends 0x12, and reads three bytes.
pub proof fn law_get_irq_status()
    ensures
        (Command::GetIrqStatus).step() matches StepView::Spi { ops, fault } && {
            &&& fault == SpiFault::Transfer
            &&& ops.len() == 2
            &&& ops[0] == OperationView::Write(seq![0x12u8])
            &&& ops[1] == OperationView::Read(3)
        },
{
}

/// Asking for the place of a packet sends 0x13 and three zeros, and takes in four bytes.
pub proof fn law_get_rx_buffer_status()
    ensures
        (Command::GetRxBufferStatus).step() matches StepView::Spi { ops, fault } && {
            &&& fault == SpiFault::Transfer
            &&& ops.len() == 1
            &&& ops[0] == OperationView::TransferInPlace(seq![0x13u8, 0x00u8, 0x00u8, 0x00u8])
        },
{
}

/// Asking for what was measured of a packet sends 0x14 and a zero, and reads three bytes.
pub proof fn law_get_packet_status()
    ensures
        (Command::GetPacketStatus).step() matches StepView::Spi { ops, fault } && {
            &&& fault == SpiFault::Transfer
            &&& ops.len() == 2
            &&& ops[0] == OperationView::Write(seq![0x14u8, 0x00u8])
            &&& ops[1] == OperationView::Read(3)
        },
{
}

/// Asking for the device errors sends 0x17 and three zeros, and takes in four bytes.
pub proof fn law_get_device_errors()
    ensures
        (Command::GetDeviceErrors).step() matches StepView::Spi { ops, fault } && {
            &&& fault == SpiFault::Transfer
            &&& ops.len() == 1
            &&& ops[0] == OperationView::TransferInPlace(seq![0x17u8, 0x00u8, 0x00u8, 0x00u8])
        },
{
}

/// Reading registers sends 0x1D and the address with the high byte first, and reads as many
/// bytes as asked for.
pub proof fn law_read_register(addr: u16, len: usize)
    ensures
        (Command::ReadRegister { addr, len }).step() matches StepView::Spi { ops, fault } && {
            &&& fault == SpiFault::Transfer
            &&& ops.len() == 3
            &&& ops[0] == OperationView::Write(seq![0x1Du8])
            &&& (ops[1] matches OperationView::Write(w) && w.len() == 2
                && w[0] * 256 + w[1] == addr)
            &&& ops[2] == OperationView::Read(len)
        },
{
}

/// Reading the buffer sends 0x1E, the offset and a zero, and reads as many bytes as asked
/// for.
pub proof fn law_read_buffer(offset: u8, len: usize)
    ensures
        (Command::ReadBuffer { offset, len }).step() matches StepView::Spi { ops, fault } && {
            &&& fault == SpiFault::Transfer
            &&& ops.len() == 2
            &&& ops[0] == OperationView::Write(seq![0x1Eu8, offset, 0x00u8])
            &&& ops[1] == OperationView::Read(len)
        },
{
}

/// Going to standby sends 0x80 and the mode.
pub proof fn law_set_standby(standby: StandbyConfig)
    ensures
        (Command::SetStandby { standby }).step() matches StepView::Spi { ops, fault } && {
            &&& fault == SpiFault::Write
            &&& ops.len() == 1
            &&& ops[0] == OperationView::Write(seq![0x80u8, standby.code])
        },
{
}

/// Receiving sends 0x82 and the timeout. A failure is reported as a failed transfer.
pub proof fn law_set_rx(timeout: RxTxTimeout)
    ensures
        (Command::SetRx { timeout }).step() matches StepView::Spi { ops, fault } && {
            &&& fault == SpiFault::Transfer
            &&& ops.len() == 1
            &&& (ops[0] matches OperationView::Write(w) && w.len() == 4 && w[0] == 0x82
                && w[1] == timeout.bytes[0] && w[2] == timeout.bytes[1] && w[3] == timeout.bytes[2])
        },
{
}

/// Transmitting sends 0x83 and the timeout, and takes in four bytes.
pub proof fn law_set_tx(timeout: RxTxTimeout)
    ensures
        (Command::SetTx { timeout }).step() matches StepView::Spi { ops, fault } && {
            &&& fault == SpiFault::Transfer
            &&& ops.len() == 1
            &&& (ops[0] matches OperationView::TransferInPlace(w) && w.len() == 4 && w[0] == 0x83
                && w[1] == timeout.bytes[0] && w[2] == timeout.bytes[1] && w[3] == timeout.bytes[2])
        },
{
}

/// Tuning sends 0x86 and four bytes whose value is the frequency.
pub proof fn law_set_rf_frequency(rf_freq: u32)
    ensures
        (Command::SetRfFrequency { rf_freq }).step() matches StepView::Spi { ops, fault } && {
            &&& fault == SpiFault::Write
            &&& ops.len() == 2
            &&& ops[0] == OperationView::Write(seq![0x86u8])
            &&& (ops[1] matches OperationView::Write(w) && w.len() == 4
                && w[0] * 0x1000000 + w[1] * 0x10000 + w[2] * 0x100 + w[3] == rf_freq)
        },
{
}

/// Calibrating sends 0x89 and the blocks.
pub proof fn law_calibrate(param: CalibParam)
    ensures
        (Command::Calibrate { param }).step() matches StepView::Spi { ops, fault } && {
            &&& fault == SpiFault::Write
            &&& ops.len() == 1
            &&& ops[0] == OperationView::Write(seq![0x89u8, param.bits])
        },
{
}

/// Setting the packet type sends 0x8A and the type.
pub proof fn law_set_packet_type(packet_type: PacketType)
    ensures
        (Command::SetPacketType { packet_type }).step() matches StepView::Spi { ops, fault } && {
            &&& fault == SpiFault::Write
            &&& ops.len() == 1
            &&& ops[0] == OperationView::Write(seq![0x8Au8, packet_type.code])
        },
{
}

/// Setting the modulation sends 0x8B and its eight bytes.
pub proof fn law_set_mod_params(mod_params: ModParams)
    ensures
        (Command::SetModParams { mod_params }).step() matches StepView::Spi { ops, fault } && {
            &&& fault == SpiFault::Write
            &&& ops.len() == 2
            &&& ops[0] == OperationView::Write(seq![0x8Bu8])
            &&& (ops[1] matches OperationView::Write(w) && w.len() == 8
                && (forall|i: int| 0 <= i < 8 ==> w[i] == #[trigger] mod_params.bytes[i]))
        },
{
}

/// Setting the packet parameters sends 0x8C and their nine bytes.
pub proof fn law_set_packet_params(packet_params: PacketParams)
    ensures
        (Command::SetPacketParams { packet_params }).step() matches StepView::Spi { ops, fault }
            && {
            &&& fault == SpiFault::Write
            &&& ops.len() == 2
            &&& ops[0] == OperationView::Write(seq![0x8Cu8])
            &&& (ops[1] matches OperationView::Write(w) && w.len() == 9
                && (forall|i: int| 0 <= i < 9 ==> w[i] == #[trigger] packet_params.bytes[i]))
        },
{
}

/// Setting power and ramp time sends 0x8E and their two bytes.
pub proof fn law_set_tx_params(tx_params: TxParams)
    ensures
        (Command::SetTxParams { tx_params }).step() matches StepView::Spi { ops, fault } && {
            &&& fault == SpiFault::Write
            &&& ops.len() == 2
            &&& ops[0] == OperationView::Write(seq![0x8Eu8])
            &&& (ops[1] matches OperationView::Write(w) && w.len() == 2
                && (forall|i: int| 0 <= i < 2 ==> w[i] == #[trigger] tx_params.bytes[i]))
        },
{
}

/// Setting the base addresses sends 0x8F, the one for sending and the one for receiving.
pub proof fn law_set_buffer_base_address(tx: u8, rx: u8)
    ensures
        (Command::SetBufferBaseAddress { tx, rx }).step() matches StepView::Spi { ops, fault } && {
            &&& fault == SpiFault::Write
            &&& ops.len() == 1
            &&& ops[0] == OperationView::Write(seq![0x8Fu8, tx, rx])
        },
{
}

/// Configuring the power amplifier sends 0x95 and the four bytes.
pub proof fn law_set_pa_config(pa_config: PaConfig)
    ensures
        (Command::SetPaConfig { pa_config }).step() matches StepView::Spi { ops, fault } && {
            &&& fault == SpiFault::Write
            &&& ops.len() == 2
            &&& ops[0] == OperationView::Write(seq![0x95u8])
            &&& (ops[1] matches OperationView::Write(w) && w.len() == 4
                && (forall|i: int| 0 <= i < 4 ==> w[i] == #[trigger] pa_config.bytes[i]))
        },
{
}

/// Feeding a TCXO sends 0x97, the voltage, and the three bytes of the delay.
pub proof fn law_set_dio3_as_tcxo_ctrl(voltage: TcxoVoltage, delay: TcxoDelay)
    ensures
        (Command::SetDio3AsTcxoCtrl { voltage, delay }).step() matches StepView::Spi { ops, fault }
            && {
            &&& fault == SpiFault::Write
            &&& ops.len() == 2
            &&& ops[0] == OperationView::Write(seq![0x97u8, voltage.code])
            &&& (ops[1] matches OperationView::Write(w) && w.len() == 3
                && (forall|i: int| 0 <= i < 3 ==> w[i] == #[trigger] delay.bytes[i]))
        },
{
}

/// Calibrating the image sends 0x98 and the two ends of the band.
pub proof fn law_calibrate_image(freq: CalibImageFreq)
    ensures
        (Command::CalibrateImage { freq }).step() matches StepView::Spi { ops, fault } && {
            &&& fault == SpiFault::Write
            &&& ops.len() == 2
            &&& ops[0] == OperationView::Write(seq![0x98u8])
            &&& (ops[1] matches OperationView::Write(w) && w.len() == 2
                && (forall|i: int| 0 <= i < 2 ==> w[i] == #[trigger] freq.band[i]))
        },
{
}

/// Handing the RF switch to DIO2 sends 0x9D and 1, taking it back 0x9D and 0.
pub proof fn law_set_dio2_as_rf_switch_ctrl(enable: bool)
    ensures
        (Command::SetDio2AsRfSwitchCtrl { enable }).step() matches StepView::Spi { ops, fault } && {
            &&& fault == SpiFault::Write
            &&& ops.len() == 1
            &&& enable ==> ops[0] == OperationView::Write(seq![0x9Du8, 0x01u8])
            &&& !enable ==> ops[0] == OperationView::Write(seq![0x9Du8, 0x00u8])
        },
{
}

/// Asking for the status sends 0xC0 and a zero, and takes in two bytes.
pub proof fn law_get_status()
    ensures
        (Command::GetStatus).step() matches StepView::Spi { ops, fault } && {
            &&& fault == SpiFault::Transfer
            &&& ops.len() == 1
            &&& ops[0] == OperationView::TransferInPlace(seq![0xC0u8, 0x00u8])
        },
{
}

/// Going to frequency synthesis sends 0xC1.
pub proof fn law_set_fs()
    ensures
        (Command::SetFs).step() matches StepView::Spi { ops, fault } && {
            &&& fault == SpiFault::Write
            &&& ops.len() == 1
            &&& ops[0] == OperationView::Write(seq![0xC1u8])
        },
{
}

/// Setting the sync word writes its high byte to register 0x0740 and its low byte to the
/// one after it.
pub proof fn law_set_sync_word(sync_word: u16)
    ensures
        set_sync_word(sync_word).step() matches StepView::Spi { ops, fault } && {
            &&& fault == SpiFault::Write
            &&& ops.len() == 3
            &&& ops[0] == OperationView::Write(seq![0x0Du8])
            &&& ops[1] == OperationView::Write(seq![0x07u8, 0x40u8])
            &&& (ops[2] matches OperationView::Write(w) && w.len() == 2 && w[0] * 256 + w[1]
                == sync_word)
        },
{
    let addr = crate::endian::be16(0x0740);
    assert(addr =~= seq![0x07u8, 0x40u8]);
}

/// A wait for the modem lets 1 us pass, which can fail as a transfer, and then waits for
/// the busy pin to be low.
pub proof fn law_wait_on_busy()
    ensures
        wait_on_busy_plan().len() == 2,
        wait_on_busy_plan()[0] matches StepView::Spi { ops, fault } && fault
            == SpiFault::Transfer && ops == seq![OperationView::DelayNs(1000)],
        wait_on_busy_plan()[1] == StepView::BusyLow,
{
}

/// A reset drives the pin low, lets 200 us pass, which can fail as a write, and drives
/// the pin high.
pub proof fn law_reset()
    ensures
        reset_plan().len() == 3,
        reset_plan()[0] == StepView::Nrst(Level::Low),
        reset_plan()[1] matches StepView::Spi { ops, fault } && fault == SpiFault::Write && ops
            == seq![OperationView::DelayNs(200_000)],
        reset_plan()[2] == StepView::Nrst(Level::High),
{
}

/// To settle a command is to give it to the modem and then to wait on busy.
pub proof fn law_settled(command: Command)
    ensures
        settled(command).len() == 3,
        settled(command)[0] == command.step(),
        settled(command)[1] == wait_on_busy_plan()[0],
        settled(command)[2] == StepView::BusyLow,
{
}

} // verus!
