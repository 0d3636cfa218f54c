//! What the commands carry and what they answer.
//!
//! The driver does not look into an operand: it sends it. So an operand is held
//! here as what the modem takes for it, one code, one word or one block of bytes,
//! and an answer as what the modem gave.
use vstd::prelude::*;
use vstd::std_specs::convert::FromSpec;

verus! {

/// The modem's packet type, by its code.
#[derive(Clone, Copy, Debug, PartialEq, Eq)]
pub struct PacketType {
    pub code: u8,
}

/// A standby mode, by its code.
#[derive(Clone, Copy, Debug, PartialEq, Eq)]
pub struct StandbyConfig {
    pub code: u8,
}

/// The code of the standby mode that runs on the RC oscillator.
pub const STBY_RC: u8 = 0x00;

impl StandbyConfig {
    /// Standby on the RC oscillator.
    pub fn stby_rc() -> (config: Self)
        ensures
            config == (StandbyConfig { code: STBY_RC }),
    {
        StandbyConfig { code: STBY_RC }
    }
}

/// The two ends of a frequency band whose image is calibrated.
#[derive(Clone, Copy, Debug, PartialEq, Eq)]
pub struct CalibImageFreq {
    pub band: [u8; 2],
}

/// The blocks to calibrate, one bit each.
#[derive(Clone, Copy, Debug, PartialEq, Eq)]
pub struct CalibParam {
    pub bits: u8,
}

/// The voltage that DIO3 feeds the TCXO with, by its code.
#[derive(Clone, Copy, Debug, PartialEq, Eq)]
pub struct TcxoVoltage {
    pub code: u8,
}

/// How long the TCXO takes to settle.
#[derive(Clone, Copy, Debug, PartialEq, Eq)]
pub struct TcxoDelay {
    pub bytes: [u8; 3],
}

/// When an RX or TX operation gives up.
#[derive(Clone, Copy, Debug, PartialEq, Eq)]
pub struct RxTxTimeout {
    pub bytes: [u8; 3],
}

/// A set of interrupts, one bit each.
#[derive(Clone, Copy, Debug, PartialEq, Eq)]
pub struct IrqMask {
    pub bits: u16,
}

/// The bits of the set of all interrupts.
pub const IRQ_ALL: u16 = 0xFFFF;

impl IrqMask {
    /// The set of all interrupts.
    pub fn all() -> (mask: Self)
        ensures
            mask == (IrqMask { bits: IRQ_ALL }),
    {
        IrqMask { bits: IRQ_ALL }
    }
}

/// The parameter block of a packet.
#[derive(Clone, Copy, Debug, PartialEq, Eq)]
pub struct PacketParams {
    pub bytes: [u8; 9],
}

/// The parameter block of a modulation.
#[derive(Clone, Copy, Debug, PartialEq, Eq)]
pub struct ModParams {
    pub bytes: [u8; 8],
}

/// Output power and ramp time.
#[derive(Clone, Copy, Debug, PartialEq, Eq)]
pub struct TxParams {
    pub bytes: [u8; 2],
}

/// The configuration of the power amplifier.
#[derive(Clone, Copy, Debug, PartialEq, Eq)]
pub struct PaConfig {
    pub bytes: [u8; 4],
}

/// Whether LoRa packets carry a checksum, by its code.
#[derive(Clone, Copy, Debug, PartialEq, Eq)]
pub struct LoRaCrcType {
    pub code: u8,
}

/// The parameters of a LoRa packet, field by field.
#[derive(Clone, Copy, Debug, PartialEq, Eq)]
pub struct LoRaPacketParams {
    pub preamble_len: u16,
    /// 0 for a header that gives the length, 1 for packets of a fixed length.
    pub header_type: u8,
    pub payload_len: u8,
    pub crc_type: LoRaCrcType,
    /// 0 for the standard I and Q signals, 1 for inverted ones.
    pub invert_iq: u8,
}

impl Default for LoRaPacketParams {
    /// A packet with a header, an empty payload, no checksum and standard signals.
    fn default() -> (params: Self)
        ensures
            params == (LoRaPacketParams {
                preamble_len: 8,
                header_type: 0,
                payload_len: 0,
                crc_type: LoRaCrcType { code: 0 },
                invert_iq: 0,
            }),
    {
        LoRaPacketParams {
            preamble_len: 8,
            header_type: 0,
            payload_len: 0,
            crc_type: LoRaCrcType { code: 0 },
            invert_iq: 0,
        }
    }
}

impl LoRaPacketParams {
    /// These parameters with another preamble length.
    pub fn set_preamble_len(self, preamble_len: u16) -> (params: Self)
        ensures
            params == (LoRaPacketParams { preamble_len, ..self }),
    {
        LoRaPacketParams { preamble_len, ..self }
    }

    /// These parameters with another payload length.
    pub fn set_payload_len(self, payload_len: u8) -> (params: Self)
        ensures
            params == (LoRaPacketParams { payload_len, ..self }),
    {
        LoRaPacketParams { payload_len, ..self }
    }

    /// These parameters with another checksum type.
    pub fn set_crc_type(self, crc_type: LoRaCrcType) -> (params: Self)
        ensures
            params == (LoRaPacketParams { crc_type, ..self }),
    {
        LoRaPacketParams { crc_type, ..self }
    }
}

impl vstd::std_specs::convert::FromSpecImpl<LoRaPacketParams> for PacketParams {
    open spec fn obeys_from_spec() -> bool {
        true
    }

    open spec fn from_spec(params: LoRaPacketParams) -> Self {
        PacketParams {
            bytes: [
                (params.preamble_len / 256) as u8,
                (params.preamble_len % 256) as u8,
                params.header_type,
                params.payload_len,
                params.crc_type.code,
                params.invert_iq,
                0,
                0,
                0,
            ],
        }
    }
}

impl From<LoRaPacketParams> for PacketParams {
    fn from(params: LoRaPacketParams) -> (block: Self) {
        PacketParams {
            bytes: [
                (params.preamble_len / 256) as u8,
                (params.preamble_len % 256) as u8,
                params.header_type,
                params.payload_len,
                params.crc_type.code,
                params.invert_iq,
                0,
                0,
                0,
            ],
        }
    }
}

/// The parameter block of a LoRa packet holds its fields in order, the preamble length as
/// two bytes of which the first counts 256, and ends in three zeros.
pub proof fn law_lora_packet_block(params: LoRaPacketParams)
    ensures
        ({
            let block = PacketParams::from_spec(params).bytes;
            &&& block[0] * 256 + block[1] == params.preamble_len
            &&& block[2] == params.header_type
            &&& block[3] == params.payload_len
            &&& block[4] == params.crc_type.code
            &&& block[5] == params.invert_iq
            &&& block[6] == 0
            &&& block[7] == 0
            &&& block[8] == 0
        }),
{
}

/// What the modem gave is held as it came.
pub proof fn law_answers_hold_what_came(
    byte: u8,
    word: u16,
    two: [u8; 2],
    three: [u8; 3],
    seven: [u8; 7],
)
    ensures
        Status::from_spec(byte).raw == byte,
        DeviceErrors::from_spec(word).bits == word,
        IrqStatus::from_spec(word).bits == word,
        RxBufferStatus::from_spec(two).payload_len == two[0],
        RxBufferStatus::from_spec(two).start_addr == two[1],
        forall|i: int| 0 <= i < 3 ==> #[trigger] PacketStatus::from_spec(three).raw[i] == three[i],
        forall|i: int| 0 <= i < 7 ==> #[trigger] Stats::from_spec(seven).raw[i] == seven[i],
{
}

/// The modem's status byte.
#[derive(Clone, Copy, Debug, PartialEq, Eq)]
pub struct Status {
    pub raw: u8,
}

impl vstd::std_specs::convert::FromSpecImpl<u8> for Status {
    open spec fn obeys_from_spec() -> bool {
        true
    }

    open spec fn from_spec(raw: u8) -> Self {
        Status { raw }
    }
}

impl From<u8> for Status {
    fn from(raw: u8) -> (status: Self) {
        Status { raw }
    }
}

/// The modem's packet counters.
#[derive(Clone, Copy, Debug, PartialEq, Eq)]
pub struct Stats {
    pub raw: [u8; 7],
}

impl vstd::std_specs::convert::FromSpecImpl<[u8; 7]> for Stats {
    open spec fn obeys_from_spec() -> bool {
        true
    }

    open spec fn from_spec(raw: [u8; 7]) -> Self {
        Stats { raw }
    }
}

impl From<[u8; 7]> for Stats {
    fn from(raw: [u8; 7]) -> (stats: Self) {
        Stats { raw }
    }
}

/// What the modem measured of the last packet.
#[derive(Clone, Copy, Debug, PartialEq, Eq)]
pub struct PacketStatus {
    pub raw: [u8; 3],
}

impl vstd::std_specs::convert::FromSpecImpl<[u8; 3]> for PacketStatus {
    open spec fn obeys_from_spec() -> bool {
        true
    }

    open spec fn from_spec(raw: [u8; 3]) -> Self {
        PacketStatus { raw }
    }
}

impl From<[u8; 3]> for PacketStatus {
    fn from(raw: [u8; 3]) -> (status: Self) {
        PacketStatus { raw }
    }
}

/// The errors that the device recorded, one bit each.
#[derive(Clone, Copy, Debug, PartialEq, Eq)]
pub struct DeviceErrors {
    pub bits: u16,
}

impl vstd::std_specs::convert::FromSpecImpl<u16> for DeviceErrors {
    open spec fn obeys_from_spec() -> bool {
        true
    }

    open spec fn from_spec(bits: u16) -> Self {
        DeviceErrors { bits }
    }
}

impl From<u16> for DeviceErrors {
    fn from(bits: u16) -> (errors: Self) {
        DeviceErrors { bits }
    }
}

/// The interrupts that are pending, one bit each.
#[derive(Clone, Copy, Debug, PartialEq, Eq)]
pub struct IrqStatus {
    pub bits: u16,
}

impl vstd::std_specs::convert::FromSpecImpl<u16> for IrqStatus {
    open spec fn obeys_from_spec() -> bool {
        true
    }

    open spec fn from_spec(bits: u16) -> Self {
        IrqStatus { bits }
    }
}

impl From<u16> for IrqStatus {
    fn from(bits: u16) -> (status: Self) {
        IrqStatus { bits }
    }
}

/// Where the last received packet lies in the buffer.
#[derive(Clone, Copy, Debug, PartialEq, Eq)]
pub struct RxBufferStatus {
    /// The length of the packet.
    pub payload_len: u8,
    /// The address of the first byte received.
    pub start_addr: u8,
}

impl vstd::std_specs::convert::FromSpecImpl<[u8; 2]> for RxBufferStatus {
    open spec fn obeys_from_spec() -> bool {
        true
    }

    open spec fn from_spec(raw: [u8; 2]) -> Self {
        RxBufferStatus { payload_len: raw[0], start_addr: raw[1] }
    }
}

impl From<[u8; 2]> for RxBufferStatus {
    fn from(raw: [u8; 2]) -> (status: Self) {
        RxBufferStatus { payload_len: raw[0], start_addr: raw[1] }
    }
}

} // verus!
