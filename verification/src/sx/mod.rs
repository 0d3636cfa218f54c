//! The driver.
pub mod bus;
pub mod call;
pub mod command;
pub mod err;
pub mod laws;
pub mod layout;
pub mod replies;
pub mod running;
pub mod transfer;

use vstd::prelude::*;

use crate::conf::Config;
use crate::endian::{u16_to_be_bytes, u32_to_be_bytes};
use crate::op::{
    CalibImageFreq, CalibParam, DeviceErrors, IrqMask, IrqStatus, LoRaCrcType, LoRaPacketParams,
    ModParams, PaConfig, PacketParams, PacketStatus, PacketType, RxBufferStatus, RxTxTimeout,
    StandbyConfig, Stats, Status, TcxoDelay, TcxoVoltage, TxParams,
};
use crate::reg::Register;
use bus::{ops_view, taken, Level, Operation, OperationView, SpiFault, Step, StepView};
use call::{Call, Finish, Response};
use command::{
    init_plan, reset_plan, set_sync_word, wait_on_busy_plan, write_bytes_plan, Command,
    BUSY_DELAY_NS, NOP, RESET_DELAY_NS,
};

verus! {

/// The reset, busy, antenna and DIO1 pins.
pub type Pins<TNRST, TBUSY, TANT, TDIO1> = (TNRST, TBUSY, TANT, TDIO1);

/// A Semtech SX1261/62 LoRa modem, with the bus and the pins it hangs on.
///
/// A method that talks to the modem returns a call, which is carried out on the bus
/// and the pins. The one that switches the antenna returns the level for its pin.
pub struct SX126x<TSPI, TNRST, TBUSY, TANT, TDIO1> {
    pub spi: TSPI,
    pub nrst_pin: TNRST,
    pub busy_pin: TBUSY,
    pub ant_pin: TANT,
    pub dio1_pin: TDIO1,
}

/// Sends `bytes`.
fn write(bytes: &[u8]) -> (op: Operation)
    ensures
        op@ == OperationView::Write(bytes@),
{
    Operation::Write(vstd::slice::slice_to_vec(bytes))
}

/// A command that is sent in one piece and only has to go through.
fn send(bytes: Vec<u8>) -> (call: Call<()>)
    ensures
        call.plan() == seq![
            StepView::Spi { ops: seq![OperationView::Write(bytes@)], fault: SpiFault::Write },
        ],
        call.finish() == Finish::Value(()),
{
    let ops = vec![Operation::Write(bytes)];
    assert(ops_view(ops@) =~= seq![OperationView::Write(bytes@)]);
    Call::spi(ops, SpiFault::Write, Finish::Value(()))
}

/// A command that is sent as an opcode and its operands, and only has to go through.
fn send_after(head: Vec<u8>, operands: &[u8]) -> (call: Call<()>)
    ensures
        call.plan() == seq![
            StepView::Spi {
                ops: seq![OperationView::Write(head@), OperationView::Write(operands@)],
                fault: SpiFault::Write,
            },
        ],
        call.finish() == Finish::Value(()),
{
    let ops = vec![Operation::Write(head), write(operands)];
    assert(ops_view(ops@) =~= seq![
        OperationView::Write(head@),
        OperationView::Write(operands@),
    ]);
    Call::spi(ops, SpiFault::Write, Finish::Value(()))
}

/// A command that takes in a byte for each one it sends.
fn exchange<T: Response>(bytes: Vec<u8>, finish: Finish<T>) -> (call: Call<T>)
    requires
        finish is Reply ==> T::accepts(bytes@.len()),
    ensures
        call.plan() == seq![
            StepView::Spi {
                ops: seq![OperationView::TransferInPlace(bytes@)],
                fault: SpiFault::Transfer,
            },
        ],
        call.finish() == finish,
{
    let ops = vec![Operation::TransferInPlace(bytes)];
    assert(ops_view(ops@) =~= seq![OperationView::TransferInPlace(bytes@)]);
    proof {
        reveal_with_fuel(taken, 2);
    }
    Call::spi(ops, SpiFault::Transfer, finish)
}

impl<TSPI, TNRST, TBUSY, TANT, TDIO1> SX126x<TSPI, TNRST, TBUSY, TANT, TDIO1> {
    /// Create a new SX126x
    pub fn new(spi: TSPI, pins: Pins<TNRST, TBUSY, TANT, TDIO1>) -> (radio: Self)
        ensures
            radio.spi == spi,
            (radio.nrst_pin, radio.busy_pin, radio.ant_pin, radio.dio1_pin) == pins,
    {
        let (nrst_pin, busy_pin, ant_pin, dio1_pin) = pins;
        SX126x { spi, nrst_pin, busy_pin, ant_pin, dio1_pin }
    }

    /// Wait for the busy pin to go low
    pub fn wait_on_busy(&self) -> (call: Call<()>)
        ensures
            call.plan() == wait_on_busy_plan(),
            call.finish() == Finish::Value(()),
    {
        let ops = vec![Operation::DelayNs(BUSY_DELAY_NS)];
        assert(ops_view(ops@) =~= seq![OperationView::DelayNs(BUSY_DELAY_NS)]);
        Call::<()>::spi(ops, SpiFault::Transfer, Finish::Value(())).chain(
            Call::single(Step::BusyLow, Finish::Value(())),
        )
    }

    /// Wait for the dio1 pin to go high
    fn wait_on_dio1(&self) -> (call: Call<()>)
        ensures
            call.plan() == seq![StepView::Dio1High],
            call.finish() == Finish::Value(()),
    {
        Call::single(Step::Dio1High, Finish::Value(()))
    }

    /// Set the LoRa Sync word
    /// Use 0x3444 for public networks like TTN
    /// Use 0x1424 for private networks
    pub fn set_sync_word(&self, sync_word: u16) -> (call: Call<()>)
        ensures
            call.plan() == seq![set_sync_word(sync_word).step()],
            call.finish() == Finish::Value(()),
    {
        self.write_register(Register::lora_sync_word_msb(), &u16_to_be_bytes(sync_word))
    }

    /// Set the modem packet type, which can be either GFSK or LoRa
    /// Note: GFSK is not fully supported by this crate at the moment
    pub fn set_packet_type(&self, packet_type: PacketType) -> (call: Call<()>)
        ensures
            call.plan() == seq![Command::SetPacketType { packet_type }.step()],
            call.finish() == Finish::Value(()),
    {
        send(vec![0x8A, packet_type.code])
    }

    /// Put the modem in standby mode
    pub fn set_standby(&self, standby_config: StandbyConfig) -> (call: Call<()>)
        ensures
            call.plan() == seq![Command::SetStandby { standby: standby_config }.step()],
            call.finish() == Finish::Value(()),
    {
        send(vec![0x80, standby_config.code])
    }

    /// Get the current status of the modem
    pub fn get_status(&self) -> (call: Call<Status>)
        ensures
            call.plan() == seq![Command::GetStatus.step()],
            call.finish() is Reply,
    {
        exchange(vec![0xC0, NOP], Finish::Reply)
    }

    /// Put the modem in frequency synthesis mode
    pub fn set_fs(&self) -> (call: Call<()>)
        ensures
            call.plan() == seq![Command::SetFs.step()],
            call.finish() == Finish::Value(()),
    {
        let call = send(vec![0xC1]);
        assert(call.plan() =~~= seq![Command::SetFs.step()]);
        call
    }

    /// Get the modem's packet counters
    pub fn get_stats(&self) -> (call: Call<Stats>)
        ensures
            call.plan() == seq![Command::GetStats.step()],
            call.finish() is Reply,
    {
        exchange(vec![0x10, NOP, NOP, NOP, NOP, NOP, NOP, NOP], Finish::Reply)
    }

    /// Calibrate image
    pub fn calibrate_image(&self, freq: CalibImageFreq) -> (call: Call<()>)
        ensures
            call.plan() == seq![Command::CalibrateImage { freq }.step()],
            call.finish() == Finish::Value(()),
    {
        let call = send_after(vec![0x98], &freq.band);
        assert(call.plan() =~~= seq![Command::CalibrateImage { freq }.step()]);
        call
    }

    /// Calibrate modem
    pub fn calibrate(&self, calib_param: CalibParam) -> (call: Call<()>)
        ensures
            call.plan() == seq![Command::Calibrate { param: calib_param }.step()],
            call.finish() == Finish::Value(()),
    {
        send(vec![0x89, calib_param.bits])
    }

    /// Write data into a register
    pub fn write_register(&self, register: Register, data: &[u8]) -> (call: Call<()>)
        ensures
            call.plan() == seq![
                Command::WriteRegister { addr: register.addr, data: data@ }.step(),
            ],
            call.finish() == Finish::Value(()),
    {
        let start_addr = u16_to_be_bytes(register.addr);
        let ops = vec![Operation::Write(vec![0x0D]), Operation::Write(start_addr), write(data)];
        let call = Call::spi(ops, SpiFault::Write, Finish::Value(()));
        assert(call.plan() =~~= seq![
            Command::WriteRegister { addr: register.addr, data: data@ }.step(),
        ]);
        call
    }

    /// The transaction that reads `len` bytes from a register
    fn register_read<T: Response>(
        &self,
        start_addr: u16,
        len: usize,
        finish: Finish<T>,
    ) -> (call: Call<T>)
        requires
            finish is Reply ==> T::accepts(len as nat),
        ensures
            call.plan() == seq![Command::ReadRegister { addr: start_addr, len }.step()],
            call.finish() == finish,
    {
        let start_addr_bytes = u16_to_be_bytes(start_addr);
        let ops = vec![
            Operation::Write(vec![0x1D]),
            Operation::Write(start_addr_bytes),
            Operation::Read(len),
        ];
        proof {
            reveal_with_fuel(taken, 4);
        }
        let call = Call::spi(ops, SpiFault::Transfer, finish);
        assert(call.plan() =~~= seq![Command::ReadRegister { addr: start_addr, len }.step()]);
        call
    }

    /// Read data from a register. The answer is the `len` bytes read, of which there
    /// must be some.
    pub fn read_register(&self, start_addr: u16, len: usize) -> (call: Call<Vec<u8>>)
        requires
            len > 0,
        ensures
            call.plan() == seq![Command::ReadRegister { addr: start_addr, len }.step()],
            call.finish() is Reply,
    {
        self.register_read(start_addr, len, Finish::Reply)
    }

    /// Begin to read data from a register, and read none
    pub fn address_register(&self, start_addr: u16) -> (call: Call<()>)
        ensures
            call.plan() == seq![Command::ReadRegister { addr: start_addr, len: 0 }.step()],
            call.finish() == Finish::Value(()),
    {
        self.register_read(start_addr, 0, Finish::Value(()))
    }

    /// Write data into the buffer at the defined offset
    pub fn write_buffer(&self, offset: u8, data: &[u8]) -> (call: Call<()>)
        ensures
            call.plan() == seq![Command::WriteBuffer { offset, data: data@ }.step()],
            call.finish() == Finish::Value(()),
    {
        send_after(vec![0x0E, offset], data)
    }

    /// Read data from the buffer from the defined offset. The answer is the `len` bytes
    /// read.
    pub fn read_buffer(&self, offset: u8, len: usize) -> (call: Call<Vec<u8>>)
        ensures
            call.plan() == seq![Command::ReadBuffer { offset, len }.step()],
            call.finish() is Reply,
    {
        let ops = vec![Operation::Write(vec![0x1E, offset, NOP]), Operation::Read(len)];
        let call = Call::spi(ops, SpiFault::Transfer, Finish::Reply);
        assert(call.plan() =~~= seq![Command::ReadBuffer { offset, len }.step()]);
        call
    }

    /// Configure the dio2 pin as RF control switch
    pub fn set_dio2_as_rf_switch_ctrl(&self, enable: bool) -> (call: Call<()>)
        ensures
            call.plan() == seq![Command::SetDio2AsRfSwitchCtrl { enable }.step()],
            call.finish() == Finish::Value(()),
    {
        let flag: u8 = if enable { 1 } else { 0 };
        send(vec![0x9D, flag])
    }

    /// Get what the modem measured of the last packet
    pub fn get_packet_status(&self) -> (call: Call<PacketStatus>)
        ensures
            call.plan() == seq![Command::GetPacketStatus.step()],
            call.finish() is Reply,
    {
        let ops = vec![Operation::Write(vec![0x14, NOP]), Operation::Read(3)];
        proof {
            reveal_with_fuel(taken, 3);
        }
        let call = Call::spi(ops, SpiFault::Transfer, Finish::Reply);
        assert(call.plan() =~~= seq![Command::GetPacketStatus.step()]);
        call
    }

    /// Configure the dio3 pin as TCXO control switch
    pub fn set_dio3_as_tcxo_ctrl(
        &self,
        tcxo_voltage: TcxoVoltage,
        tcxo_delay: TcxoDelay,
    ) -> (call: Call<()>)
        ensures
            call.plan() == seq![
                Command::SetDio3AsTcxoCtrl { voltage: tcxo_voltage, delay: tcxo_delay }.step(),
            ],
            call.finish() == Finish::Value(()),
    {
        send_after(vec![0x97, tcxo_voltage.code], &tcxo_delay.bytes)
    }

    /// Clear device error register
    pub fn clear_device_errors(&self) -> (call: Call<()>)
        ensures
            call.plan() == seq![Command::ClearDeviceErrors.step()],
            call.finish() == Finish::Value(()),
    {
        send(vec![0x07, NOP, NOP])
    }

    /// Get current device errors
    pub fn get_device_errors(&self) -> (call: Call<DeviceErrors>)
        ensures
            call.plan() == seq![Command::GetDeviceErrors.step()],
            call.finish() is Reply,
    {
        exchange(vec![0x17, NOP, NOP, NOP], Finish::Reply)
    }

    /// Reset the device by pulling nrst low for a while
    pub fn reset(&self) -> (call: Call<()>)
        ensures
            call.plan() == reset_plan(),
            call.finish() == Finish::Value(()),
    {
        let ops = vec![Operation::DelayNs(RESET_DELAY_NS)];
        // The pin should be held low for typically 100 us for the reset to happen
        let call = Call::<()>::single(Step::Nrst(Level::Low), Finish::Value(())).chain(
            Call::<()>::spi(ops, SpiFault::Write, Finish::Value(())),
        ).chain(Call::single(Step::Nrst(Level::High), Finish::Value(())));
        assert(call.plan() =~~= reset_plan());
        call
    }

    /// Enable antenna. The answer is the level to drive the antenna pin to.
    pub fn set_ant_enabled(&self, enabled: bool) -> (level: Level)
        ensures
            level == if enabled {
                Level::High
            } else {
                Level::Low
            },
    {
        if enabled {
            Level::High
        } else {
            Level::Low
        }
    }

    /// Configure IRQ
    pub fn set_dio_irq_params(
        &self,
        irq_mask: IrqMask,
        dio1_mask: IrqMask,
        dio2_mask: IrqMask,
        dio3_mask: IrqMask,
    ) -> (call: Call<()>)
        ensures
            call.plan() == seq![
                Command::SetDioIrqParams {
                    irq: irq_mask,
                    dio1: dio1_mask,
                    dio2: dio2_mask,
                    dio3: dio3_mask,
                }.step(),
            ],
            call.finish() == Finish::Value(()),
    {
        let irq = u16_to_be_bytes(irq_mask.bits);
        let dio1 = u16_to_be_bytes(dio1_mask.bits);
        let dio2 = u16_to_be_bytes(dio2_mask.bits);
        let dio3 = u16_to_be_bytes(dio3_mask.bits);
        let ops = vec![
            Operation::Write(vec![0x08]),
            Operation::Write(irq),
            Operation::Write(dio1),
            Operation::Write(dio2),
            Operation::Write(dio3),
        ];
        let call = Call::spi(ops, SpiFault::Transfer, Finish::Value(()));
        assert(call.plan() =~~= seq![
            Command::SetDioIrqParams {
                irq: irq_mask,
                dio1: dio1_mask,
                dio2: dio2_mask,
                dio3: dio3_mask,
            }.step(),
        ]);
        call
    }

    /// Get the current IRQ status
    pub fn get_irq_status(&self) -> (call: Call<IrqStatus>)
        ensures
            call.plan() == seq![Command::GetIrqStatus.step()],
            call.finish() is Reply,
    {
        let ops = vec![Operation::Write(vec![0x12]), Operation::Read(3)];
        proof {
            reveal_with_fuel(taken, 3);
        }
        let call = Call::spi(ops, SpiFault::Transfer, Finish::Reply);
        assert(call.plan() =~~= seq![Command::GetIrqStatus.step()]);
        call
    }

    /// Clear the IRQ status
    pub fn clear_irq_status(&self, mask: IrqMask) -> (call: Call<()>)
        ensures
            call.plan() == seq![Command::ClearIrqStatus { mask }.step()],
            call.finish() == Finish::Value(()),
    {
        let call = send_after(vec![0x02], &u16_to_be_bytes(mask.bits));
        assert(call.plan() =~~= seq![Command::ClearIrqStatus { mask }.step()]);
        call
    }

    /// Put the device in TX mode. It will start sending the data written in the buffer,
    /// starting at the configured offset. The status in the answer is the middle byte of
    /// the timeout.
    pub fn set_tx(&self, timeout: RxTxTimeout) -> (call: Call<Status>)
        ensures
            call.plan() == seq![Command::SetTx { timeout }.step()],
            call.finish() == Finish::Value(Status { raw: timeout.bytes[1] }),
    {
        let buf = vec![0x83, timeout.bytes[0], timeout.bytes[1], timeout.bytes[2]];
        let call = exchange(buf, Finish::Value(Status::from(timeout.bytes[1])));
        assert(call.plan() =~~= seq![Command::SetTx { timeout }.step()]);
        call
    }

    /// Put the device in RX mode. The status in the answer is the first byte of the
    /// timeout.
    pub fn set_rx(&self, timeout: RxTxTimeout) -> (call: Call<Status>)
        ensures
            call.plan() == seq![Command::SetRx { timeout }.step()],
            call.finish() == Finish::Value(Status { raw: timeout.bytes[0] }),
    {
        let buf = vec![0x82, timeout.bytes[0], timeout.bytes[1], timeout.bytes[2]];
        let ops = vec![Operation::Write(buf)];
        let finish = Finish::Value(Status::from(timeout.bytes[0]));
        let call = Call::spi(ops, SpiFault::Transfer, finish);
        assert(call.plan() =~~= seq![Command::SetRx { timeout }.step()]);
        call
    }

    /// Set packet parameters
    pub fn set_packet_params(&self, params: PacketParams) -> (call: Call<()>)
        ensures
            call.plan() == seq![Command::SetPacketParams { packet_params: params }.step()],
            call.finish() == Finish::Value(()),
    {
        let call = send_after(vec![0x8C], &params.bytes);
        assert(call.plan() =~~= seq![Command::SetPacketParams { packet_params: params }.step()]);
        call
    }

    /// Set modulation parameters
    pub fn set_mod_params(&self, params: ModParams) -> (call: Call<()>)
        ensures
            call.plan() == seq![Command::SetModParams { mod_params: params }.step()],
            call.finish() == Finish::Value(()),
    {
        let call = send_after(vec![0x8B], &params.bytes);
        assert(call.plan() =~~= seq![Command::SetModParams { mod_params: params }.step()]);
        call
    }

    /// Set TX parameters
    pub fn set_tx_params(&self, params: TxParams) -> (call: Call<()>)
        ensures
            call.plan() == seq![Command::SetTxParams { tx_params: params }.step()],
            call.finish() == Finish::Value(()),
    {
        let call = send_after(vec![0x8E], &params.bytes);
        assert(call.plan() =~~= seq![Command::SetTxParams { tx_params: params }.step()]);
        call
    }

    /// Set RF frequency. This writes the passed rf_freq directly to the modem, in steps
    /// of the XTAL frequency over 2^25.
    pub fn set_rf_frequency(&self, rf_freq: u32) -> (call: Call<()>)
        ensures
            call.plan() == seq![Command::SetRfFrequency { rf_freq }.step()],
            call.finish() == Finish::Value(()),
    {
        let call = send_after(vec![0x86], &u32_to_be_bytes(rf_freq));
        assert(call.plan() =~~= seq![Command::SetRfFrequency { rf_freq }.step()]);
        call
    }

    /// Set Power Amplifier configuration
    pub fn set_pa_config(&self, pa_config: PaConfig) -> (call: Call<()>)
        ensures
            call.plan() == seq![Command::SetPaConfig { pa_config }.step()],
            call.finish() == Finish::Value(()),
    {
        let call = send_after(vec![0x95], &pa_config.bytes);
        assert(call.plan() =~~= seq![Command::SetPaConfig { pa_config }.step()]);
        call
    }

    /// Configure the base addresses in the buffer
    pub fn set_buffer_base_address(&self, tx_base_addr: u8, rx_base_addr: u8) -> (call: Call<()>)
        ensures
            call.plan() == seq![
                Command::SetBufferBaseAddress { tx: tx_base_addr, rx: rx_base_addr }.step(),
            ],
            call.finish() == Finish::Value(()),
    {
        send(vec![0x8F, tx_base_addr, rx_base_addr])
    }

    /// Get Rx buffer status, containing the length of the last received packet
    /// and the address of the first byte received.
    pub fn get_rx_buffer_status(&self) -> (call: Call<RxBufferStatus>)
        ensures
            call.plan() == seq![Command::GetRxBufferStatus.step()],
            call.finish() is Reply,
    {
        exchange(vec![0x13, NOP, NOP, NOP], Finish::Reply)
    }

    /// The call, and a wait for the modem to have carried it out
    fn settle(&self, call: Call<()>) -> (waited: Call<()>)
        ensures
            waited.plan() == call.plan() + wait_on_busy_plan(),
            waited.finish() == Finish::Value(()),
    {
        call.chain(self.wait_on_busy())
    }

    /// Initialize and configure the SX126x using the provided Config
    pub fn init(&self, conf: Config) -> (call: Call<()>)
        ensures
            call.plan() == init_plan(conf),
            call.finish() == Finish::Value(()),
    {
        // Reset the sx
        let mut call = self.settle(self.reset());

        // 1. If not in STDBY_RC mode, then go to this mode
        call = call.chain(self.settle(self.set_standby(StandbyConfig::stby_rc())));

        // 2. Define the protocol (LoRa or FSK)
        call = call.chain(self.settle(self.set_packet_type(conf.packet_type)));

        // 3. Define the RF frequency
        call = call.chain(self.settle(self.set_rf_frequency(conf.rf_freq)));

        if let Some((tcxo_voltage, tcxo_delay)) = conf.tcxo_opts {
            call = call.chain(self.settle(self.set_dio3_as_tcxo_ctrl(tcxo_voltage, tcxo_delay)));
        }

        // Calibrate
        call = call.chain(self.settle(self.calibrate(conf.calib_param)));
        call = call.chain(self.settle(self.calibrate_image(conf.image_freq)));

        // 4. Define the Power Amplifier configuration
        call = call.chain(self.settle(self.set_pa_config(conf.pa_config)));

        // 5. Define output power and ramping time
        call = call.chain(self.settle(self.set_tx_params(conf.tx_params)));

        // 6. Define where the data payload will be stored
        call = call.chain(self.settle(self.set_buffer_base_address(0x00, 0x00)));

        // 7. Sending the payload to the data buffer is left to write_bytes

        // 8. Define the modulation parameter according to the chosen protocol
        call = call.chain(self.settle(self.set_mod_params(conf.mod_params)));

        // 9. Define the frame format to be used
        if let Some(packet_params) = conf.packet_params {
            call = call.chain(self.settle(self.set_packet_params(packet_params)));
        }

        // 10. Configure DIO and IRQ
        call = call.chain(
            self.settle(
                self.set_dio_irq_params(
                    conf.dio1_irq_mask,
                    conf.dio1_irq_mask,
                    conf.dio2_irq_mask,
                    conf.dio3_irq_mask,
                ),
            ),
        );
        call = call.chain(self.settle(self.set_dio2_as_rf_switch_ctrl(true)));

        // 11. Define Sync Word value
        call = call.chain(self.settle(self.set_sync_word(conf.sync_word)));

        // The rest of the steps are done by the user
        call
    }

    /// High level method to send a message. This method writes the data in the buffer,
    /// puts the device in TX mode, and waits until the device
    /// is done sending the data or a timeout occurs.
    /// Please note that this method updates the packet params
    pub fn write_bytes(
        &self,
        data: &[u8],
        timeout: RxTxTimeout,
        preamble_len: u16,
        crc_type: LoRaCrcType,
    ) -> (call: Call<Status>)
        ensures
            call.plan() == write_bytes_plan(data@, timeout, preamble_len, crc_type),
            call.finish() == Finish::Value(Status { raw: timeout.bytes[1] }),
    {
        let params = PacketParams::from(
            LoRaPacketParams::default().set_preamble_len(preamble_len).set_payload_len(
                (data.len() % 256) as u8,
            ).set_crc_type(crc_type),
        );
        // Write data to buffer, set packet params, set tx mode, wait for the busy line to
        // go low, wait on dio1 going high, clear IRQ
        let call = self.write_buffer(0x00, data).chain(self.set_packet_params(params)).chain(
            self.set_tx(timeout),
        ).followed_by(self.wait_on_busy()).followed_by(self.wait_on_dio1()).followed_by(
            self.clear_irq_status(IrqMask::all()),
        );
        assert(call.plan() =~= write_bytes_plan(data@, timeout, preamble_len, crc_type));
        call
    }
}

} // verus!
