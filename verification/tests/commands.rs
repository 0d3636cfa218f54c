use sx126x::op::{
    CalibImageFreq, CalibParam, DeviceErrors, IrqMask, IrqStatus, LoRaCrcType, LoRaPacketParams,
    ModParams, PaConfig, PacketParams, PacketStatus, PacketType, RxBufferStatus, RxTxTimeout,
    StandbyConfig, Stats, Status, TcxoDelay, TcxoVoltage, TxParams,
};
use sx126x::reg::Register;
use sx126x::sx::bus::{buffers, taken_bytes, Event, Level, Operation, SpiFault, Step};
use sx126x::sx::call::{Call, Progress, Response};
use sx126x::sx::err::{SpiError, SxError};
use sx126x::sx::SX126x;

type Radio = SX126x<(), (), (), (), ()>;

fn radio() -> Radio {
    SX126x::new((), ((), (), (), ()))
}

#[derive(Debug, PartialEq)]
enum Op {
    W(Vec<u8>),
    R(usize),
    T(Vec<u8>),
    D(u32),
}

fn transaction<T: Response>(call: &Call<T>) -> (Vec<Op>, SpiFault) {
    match call.step() {
        Step::Spi { ops, fault } => (
            ops.iter()
                .map(|op| match op {
                    Operation::Write(b) => Op::W(b.clone()),
                    Operation::Read(n) => Op::R(*n),
                    Operation::TransferInPlace(b) => Op::T(b.clone()),
                    Operation::DelayNs(ns) => Op::D(*ns),
                })
                .collect(),
            *fault,
        ),
        step => panic!("not a transaction: {:?}", step),
    }
}

fn answer<T: Response>(call: Call<T>, reply: Vec<u8>) -> T {
    match call.resume::<u8, u8>(Event::Spi(Ok(reply))) {
        Progress::Done(Ok(answer)) => answer,
        _ => panic!("the call is not finished"),
    }
}

fn failure<T: Response>(call: Call<T>) -> SxError<u8, u8, u8> {
    match call.resume::<u8, u8>(Event::Spi(Err(7))) {
        Progress::Done(Err(err)) => err,
        _ => panic!("the call did not fail"),
    }
}

fn is_write(call: Call<()>) -> bool {
    matches!(failure(call), SxError::Spi(SpiError::Write(7)))
}

fn is_transfer<T: Response>(call: Call<T>) -> bool {
    matches!(failure(call), SxError::Spi(SpiError::Transfer(7)))
}

#[test]
fn new_keeps_bus_and_pins() {
    let radio = SX126x::new(1u8, (2u16, 3u32, 4u64, 'x'));
    assert_eq!(radio.spi, 1);
    assert_eq!(radio.nrst_pin, 2);
    assert_eq!(radio.busy_pin, 3);
    assert_eq!(radio.ant_pin, 4);
    assert_eq!(radio.dio1_pin, 'x');
}

#[test]
fn commands_in_one_write() {
    let r = radio();
    let cases = vec![
        (r.set_packet_type(PacketType { code: 0x01 }), vec![0x8A, 0x01]),
        (r.set_standby(StandbyConfig::stby_rc()), vec![0x80, 0x00]),
        (r.set_standby(StandbyConfig { code: 0x01 }), vec![0x80, 0x01]),
        (r.set_fs(), vec![0xC1]),
        (r.calibrate(CalibParam { bits: 0x7F }), vec![0x89, 0x7F]),
        (r.set_dio2_as_rf_switch_ctrl(true), vec![0x9D, 0x01]),
        (r.set_dio2_as_rf_switch_ctrl(false), vec![0x9D, 0x00]),
        (r.clear_device_errors(), vec![0x07, 0x00, 0x00]),
        (r.set_buffer_base_address(0x10, 0x80), vec![0x8F, 0x10, 0x80]),
    ];
    for (call, bytes) in cases {
        assert_eq!(transaction(&call), (vec![Op::W(bytes)], SpiFault::Write));
        assert!(is_write(call));
    }
}

#[test]
fn commands_in_two_writes() {
    let r = radio();
    let cases = vec![
        (
            r.calibrate_image(CalibImageFreq { band: [0xD7, 0xDB] }),
            vec![0x98],
            vec![0xD7, 0xDB],
        ),
        (r.write_buffer(0x20, &[1, 2, 3]), vec![0x0E, 0x20], vec![1, 2, 3]),
        (r.write_buffer(0x00, &[]), vec![0x0E, 0x00], vec![]),
        (
            r.set_dio3_as_tcxo_ctrl(TcxoVoltage { code: 2 }, TcxoDelay { bytes: [0, 1, 0x40] }),
            vec![0x97, 0x02],
            vec![0x00, 0x01, 0x40],
        ),
        (r.clear_irq_status(IrqMask { bits: 0x0102 }), vec![0x02], vec![0x01, 0x02]),
        (r.clear_irq_status(IrqMask::all()), vec![0x02], vec![0xFF, 0xFF]),
        (
            r.set_packet_params(PacketParams { bytes: [1, 2, 3, 4, 5, 6, 7, 8, 9] }),
            vec![0x8C],
            vec![1, 2, 3, 4, 5, 6, 7, 8, 9],
        ),
        (
            r.set_mod_params(ModParams { bytes: [8, 7, 6, 5, 4, 3, 2, 1] }),
            vec![0x8B],
            vec![8, 7, 6, 5, 4, 3, 2, 1],
        ),
        (r.set_tx_params(TxParams { bytes: [0x0E, 0x04] }), vec![0x8E], vec![0x0E, 0x04]),
        (r.set_rf_frequency(0x36400000), vec![0x86], vec![0x36, 0x40, 0x00, 0x00]),
        (r.set_rf_frequency(0x01020304), vec![0x86], vec![1, 2, 3, 4]),
        (r.set_pa_config(PaConfig { bytes: [4, 7, 0, 1] }), vec![0x95], vec![4, 7, 0, 1]),
    ];
    for (call, head, operands) in cases {
        assert_eq!(
            transaction(&call),
            (vec![Op::W(head), Op::W(operands)], SpiFault::Write)
        );
        assert!(is_write(call));
    }
}

#[test]
fn registers() {
    let r = radio();
    let call = r.write_register(Register { addr: 0x0889 }, &[0xAA, 0xBB]);
    assert_eq!(
        transaction(&call),
        (
            vec![Op::W(vec![0x0D]), Op::W(vec![0x08, 0x89]), Op::W(vec![0xAA, 0xBB])],
            SpiFault::Write
        )
    );
    assert!(is_write(call));

    let call = r.set_sync_word(0x3444);
    assert_eq!(
        transaction(&call),
        (
            vec![Op::W(vec![0x0D]), Op::W(vec![0x07, 0x40]), Op::W(vec![0x34, 0x44])],
            SpiFault::Write
        )
    );
    assert!(is_write(call));

    let call = r.read_register(0x0889, 2);
    assert_eq!(
        transaction(&call),
        (
            vec![Op::W(vec![0x1D]), Op::W(vec![0x08, 0x89]), Op::R(2)],
            SpiFault::Transfer
        )
    );
    assert_eq!(answer(call, vec![0xAA, 0xBB]), vec![0xAA, 0xBB]);
    assert!(is_transfer(r.read_register(0x0889, 2)));

    let call = r.address_register(0x0889);
    assert_eq!(
        transaction(&call),
        (
            vec![Op::W(vec![0x1D]), Op::W(vec![0x08, 0x89]), Op::R(0)],
            SpiFault::Transfer
        )
    );
    answer(call, vec![]);
    assert!(is_transfer(r.address_register(0x0889)));
}

#[test]
fn read_buffer_answers_bytes() {
    let r = radio();
    let call = r.read_buffer(0x80, 3);
    assert_eq!(
        transaction(&call),
        (vec![Op::W(vec![0x1E, 0x80, 0x00]), Op::R(3)], SpiFault::Transfer)
    );
    assert_eq!(answer(call, vec![9, 8, 7]), vec![9, 8, 7]);
    assert_eq!(answer(r.read_buffer(0, 0), vec![]), Vec::<u8>::new());
    assert!(is_transfer(r.read_buffer(0x80, 3)));
}

#[test]
fn status_is_second_byte() {
    let call = radio().get_status();
    assert_eq!(transaction(&call), (vec![Op::T(vec![0xC0, 0x00])], SpiFault::Transfer));
    assert_eq!(answer(call, vec![0x11, 0x2A]), Status { raw: 0x2A });
    assert!(is_transfer(radio().get_status()));
}

#[test]
fn stats_are_bytes_after_opcode() {
    let call = radio().get_stats();
    assert_eq!(
        transaction(&call),
        (vec![Op::T(vec![0x10, 0, 0, 0, 0, 0, 0, 0])], SpiFault::Transfer)
    );
    assert_eq!(
        answer(call, vec![0, 1, 2, 3, 4, 5, 6, 7]),
        Stats { raw: [1, 2, 3, 4, 5, 6, 7] }
    );
    assert!(is_transfer(radio().get_stats()));
}

#[test]
fn packet_status_is_three_bytes() {
    let call = radio().get_packet_status();
    assert_eq!(
        transaction(&call),
        (vec![Op::W(vec![0x14, 0x00]), Op::R(3)], SpiFault::Transfer)
    );
    assert_eq!(answer(call, vec![5, 6, 7]), PacketStatus { raw: [5, 6, 7] });
    assert!(is_transfer(radio().get_packet_status()));
}

#[test]
fn device_errors_are_low_byte_first() {
    let call = radio().get_device_errors();
    assert_eq!(transaction(&call), (vec![Op::T(vec![0x17, 0, 0, 0])], SpiFault::Transfer));
    assert_eq!(answer(call, vec![0, 0, 0x34, 0x12]), DeviceErrors { bits: 0x1234 });
    assert!(is_transfer(radio().get_device_errors()));
}

#[test]
fn irq_status_is_high_byte_first() {
    let call = radio().get_irq_status();
    assert_eq!(transaction(&call), (vec![Op::W(vec![0x12]), Op::R(3)], SpiFault::Transfer));
    assert_eq!(answer(call, vec![0xEE, 0x12, 0x34]), IrqStatus { bits: 0x1234 });
    assert!(is_transfer(radio().get_irq_status()));
}

#[test]
fn rx_buffer_status_is_length_and_address() {
    let call = radio().get_rx_buffer_status();
    assert_eq!(transaction(&call), (vec![Op::T(vec![0x13, 0, 0, 0])], SpiFault::Transfer));
    assert_eq!(
        answer(call, vec![0, 0, 12, 0x80]),
        RxBufferStatus { payload_len: 12, start_addr: 0x80 }
    );
    assert!(is_transfer(radio().get_rx_buffer_status()));
}

#[test]
fn irq_params_fail_as_transfer() {
    let r = radio();
    let make = || {
        r.set_dio_irq_params(
            IrqMask { bits: 0x0001 },
            IrqMask { bits: 0x0200 },
            IrqMask { bits: 0x0304 },
            IrqMask { bits: 0 },
        )
    };
    let writes = vec![
        Op::W(vec![0x08]),
        Op::W(vec![0x00, 0x01]),
        Op::W(vec![0x02, 0x00]),
        Op::W(vec![0x03, 0x04]),
        Op::W(vec![0x00, 0x00]),
    ];
    assert_eq!(transaction(&make()), (writes, SpiFault::Transfer));
    assert!(is_transfer(make()));
}

#[test]
fn tx_answers_middle_byte_of_timeout() {
    let timeout = RxTxTimeout { bytes: [0x01, 0x02, 0x03] };
    let call = radio().set_tx(timeout);
    assert_eq!(transaction(&call), (vec![Op::T(vec![0x83, 1, 2, 3])], SpiFault::Transfer));
    assert_eq!(answer(call, vec![9, 9, 9, 9]), Status { raw: 0x02 });
    assert!(is_transfer(radio().set_tx(timeout)));
}

#[test]
fn rx_answers_first_byte_of_timeout() {
    let timeout = RxTxTimeout { bytes: [0x01, 0x02, 0x03] };
    let call = radio().set_rx(timeout);
    assert_eq!(transaction(&call), (vec![Op::W(vec![0x82, 1, 2, 3])], SpiFault::Transfer));
    assert_eq!(answer(call, vec![]), Status { raw: 0x01 });
    assert!(is_transfer(radio().set_rx(timeout)));
}

#[test]
fn antenna_levels() {
    assert_eq!(radio().set_ant_enabled(true), Level::High);
    assert_eq!(radio().set_ant_enabled(false), Level::Low);
}

#[test]
fn lora_packet_params_as_a_block() {
    let params = LoRaPacketParams::default()
        .set_preamble_len(0x0123)
        .set_payload_len(5)
        .set_crc_type(LoRaCrcType { code: 1 });
    assert_eq!(
        PacketParams::from(params),
        PacketParams { bytes: [0x01, 0x23, 0, 5, 1, 0, 0, 0, 0] }
    );
    assert_eq!(
        PacketParams::from(LoRaPacketParams::default()),
        PacketParams { bytes: [0, 8, 0, 0, 0, 0, 0, 0, 0] }
    );
}

#[test]
fn frames_differ() {
    let r = radio();
    let frames: Vec<Vec<u8>> = vec![
        transaction(&r.set_rf_frequency(1)).0,
        transaction(&r.set_rf_frequency(256)).0,
        transaction(&r.set_fs()).0,
        transaction(&r.read_register(1, 1)).0,
        transaction(&r.write_register(Register { addr: 1 }, &[])).0,
    ]
    .into_iter()
    .map(|ops| {
        ops.into_iter()
            .flat_map(|op| match op {
                Op::W(b) | Op::T(b) => b,
                _ => vec![],
            })
            .collect()
    })
    .collect();
    for (i, a) in frames.iter().enumerate() {
        for (j, b) in frames.iter().enumerate() {
            assert_eq!(i == j, a == b);
        }
    }
    assert_eq!(frames[3][1..3], frames[4][1..3]);
}

#[test]
fn interrupts_are_read_as_they_are_cleared() {
    let (ops, _) = transaction(&radio().clear_irq_status(IrqMask { bits: 0x0201 }));
    let mut reply = vec![0x55];
    match &ops[1] {
        Op::W(word) => reply.extend(word),
        op => panic!("not a write: {:?}", op),
    }
    assert_eq!(answer(radio().get_irq_status(), reply), IrqStatus { bits: 0x0201 });
}

#[test]
fn buffers_hold_what_is_sent_and_give_what_is_taken_in() {
    let ops = vec![
        Operation::Write(vec![1, 2]),
        Operation::Read(3),
        Operation::DelayNs(5),
        Operation::TransferInPlace(vec![7, 8]),
        Operation::Read(0),
    ];
    let mut bufs = buffers(&ops);
    assert_eq!(bufs, vec![vec![1, 2], vec![0, 0, 0], vec![], vec![7, 8], vec![]]);
    bufs[1] = vec![11, 12, 13];
    bufs[3] = vec![14, 15];
    assert_eq!(taken_bytes(&ops, &bufs), vec![11, 12, 13, 14, 15]);
    assert_eq!(taken_bytes(&vec![], &buffers(&vec![])), Vec::<u8>::new());
}
