use sx126x::conf::Config;
use sx126x::op::{
    CalibImageFreq, CalibParam, IrqMask, LoRaCrcType, ModParams, PaConfig, PacketParams, PacketType,
    RxTxTimeout, Status, TcxoDelay, TcxoVoltage, TxParams,
};
use sx126x::sx::bus::{Event, Level, Operation, Step};
use sx126x::sx::call::{Call, Progress, Response};
use sx126x::sx::err::{PinError, SpiError, SxError};
use sx126x::sx::SX126x;

type Radio = SX126x<(), (), (), (), ()>;

fn radio() -> Radio {
    SX126x::new((), ((), (), (), ()))
}

#[derive(Clone, Debug, PartialEq)]
enum Seen {
    Sent(Vec<u8>),
    Delay(u32),
    Nrst(Level),
    Busy,
    Dio1,
}

fn seen(step: &Step) -> Seen {
    match step {
        Step::Spi { ops, .. } => {
            let mut bytes = vec![];
            for op in ops {
                match op {
                    Operation::Write(b) | Operation::TransferInPlace(b) => bytes.extend(b),
                    Operation::DelayNs(ns) => return Seen::Delay(*ns),
                    Operation::Read(_) => {}
                }
            }
            Seen::Sent(bytes)
        }
        Step::Nrst(level) => Seen::Nrst(*level),
        Step::BusyLow => Seen::Busy,
        Step::Dio1High => Seen::Dio1,
    }
}

/// What a step gives where everything goes well and the pins are polled.
fn good(step: &Step) -> Event<u8, char> {
    match step {
        Step::Spi { ops, .. } => {
            let taken = ops
                .iter()
                .map(|op| match op {
                    Operation::Read(n) => *n,
                    Operation::TransferInPlace(b) => b.len(),
                    _ => 0,
                })
                .sum();
            Event::Spi(Ok(vec![0xA5; taken]))
        }
        Step::Nrst(_) => Event::Driven(Ok(())),
        _ => Event::Polled(Ok(false)),
    }
}

/// Carries out a call. `event` is asked for the event of each step, by its number.
fn run<T: Response>(
    mut call: Call<T>,
    event: impl Fn(usize, &Step) -> Event<u8, char>,
) -> (Vec<Seen>, Result<T, SxError<u8, char, char>>) {
    let mut trace = vec![];
    loop {
        trace.push(seen(call.step()));
        let event = event(trace.len() - 1, call.step());
        match call.resume(event) {
            Progress::Pending(next) => call = next,
            Progress::Done(result) => return (trace, result),
        }
    }
}

fn config() -> Config {
    Config {
        packet_type: PacketType { code: 1 },
        sync_word: 0x1424,
        calib_param: CalibParam { bits: 0x7F },
        mod_params: ModParams { bytes: [7, 4, 1, 0, 0, 0, 0, 0] },
        pa_config: PaConfig { bytes: [4, 7, 0, 1] },
        packet_params: Some(PacketParams { bytes: [0, 8, 0, 0, 1, 0, 0, 0, 0] }),
        tx_params: TxParams { bytes: [14, 4] },
        dio1_irq_mask: IrqMask { bits: 0x0201 },
        dio2_irq_mask: IrqMask { bits: 0x0002 },
        dio3_irq_mask: IrqMask { bits: 0x0004 },
        rf_freq: 0x36400000,
        image_freq: CalibImageFreq { band: [0xD7, 0xDB] },
        tcxo_opts: Some((TcxoVoltage { code: 2 }, TcxoDelay { bytes: [0, 1, 0x40] })),
    }
}

fn commands() -> Vec<Vec<u8>> {
    vec![
        vec![0x80, 0x00],
        vec![0x8A, 0x01],
        vec![0x86, 0x36, 0x40, 0x00, 0x00],
        vec![0x97, 0x02, 0x00, 0x01, 0x40],
        vec![0x89, 0x7F],
        vec![0x98, 0xD7, 0xDB],
        vec![0x95, 4, 7, 0, 1],
        vec![0x8E, 14, 4],
        vec![0x8F, 0, 0],
        vec![0x8B, 7, 4, 1, 0, 0, 0, 0, 0],
        vec![0x8C, 0, 8, 0, 0, 1, 0, 0, 0, 0],
        vec![0x08, 0x02, 0x01, 0x02, 0x01, 0x00, 0x02, 0x00, 0x04],
        vec![0x9D, 0x01],
        vec![0x0D, 0x07, 0x40, 0x14, 0x24],
    ]
}

fn init_trace(commands: Vec<Vec<u8>>) -> Vec<Seen> {
    let mut trace = vec![
        Seen::Nrst(Level::Low),
        Seen::Delay(200_000),
        Seen::Nrst(Level::High),
        Seen::Delay(1000),
        Seen::Busy,
    ];
    for bytes in commands {
        trace.extend([Seen::Sent(bytes), Seen::Delay(1000), Seen::Busy]);
    }
    trace
}

#[test]
fn init_sends_every_command_and_waits_after_each() {
    let (trace, result) = run(radio().init(config()), |_, step| good(step));
    assert_eq!(trace, init_trace(commands()));
    assert!(matches!(result, Ok(())));
}

#[test]
fn init_leaves_out_what_is_not_configured() {
    let conf = Config { tcxo_opts: None, packet_params: None, ..config() };
    let (trace, result) = run(radio().init(conf), |_, step| good(step));
    let sent = commands()
        .into_iter()
        .filter(|bytes| bytes[0] != 0x97 && bytes[0] != 0x8C)
        .collect();
    assert_eq!(trace, init_trace(sent));
    assert!(matches!(result, Ok(())));
}

#[test]
fn init_stops_at_the_first_error() {
    let full = init_trace(commands());
    for at in 0..full.len() {
        let (trace, result) = run(radio().init(config()), |i, step| {
            if i < at {
                return good(step);
            }
            match step {
                Step::Spi { .. } => Event::Spi(Err(9)),
                Step::Nrst(_) => Event::Driven(Err('p')),
                _ => Event::Awaited(Err('w')),
            }
        });
        assert_eq!(trace, full[..at + 1].to_vec());
        match &full[at] {
            // The delay of a reset is reported as a failed write, that of a wait as a
            // failed transfer.
            Seen::Delay(200_000) => {
                assert!(matches!(result, Err(SxError::Spi(SpiError::Write(9)))))
            }
            Seen::Delay(_) => assert!(matches!(result, Err(SxError::Spi(SpiError::Transfer(9))))),
            Seen::Sent(bytes) if bytes[0] == 0x08 => {
                assert!(matches!(result, Err(SxError::Spi(SpiError::Transfer(9)))))
            }
            Seen::Sent(_) => assert!(matches!(result, Err(SxError::Spi(SpiError::Write(9))))),
            Seen::Nrst(_) => assert!(matches!(result, Err(SxError::Pin(PinError::Output('p'))))),
            _ => assert!(matches!(result, Err(SxError::Pin(PinError::Input('w'))))),
        }
    }
}

#[test]
fn reset_is_a_pulse() {
    let (trace, result) = run(radio().reset(), |_, step| good(step));
    assert_eq!(
        trace,
        vec![Seen::Nrst(Level::Low), Seen::Delay(200_000), Seen::Nrst(Level::High)]
    );
    assert!(matches!(result, Ok(())));
}

#[test]
fn busy_is_polled_until_it_falls() {
    let (trace, result) = run(radio().wait_on_busy(), |i, step| match step {
        Step::BusyLow => Event::Polled(Ok(i < 4)),
        _ => good(step),
    });
    assert_eq!(
        trace,
        vec![Seen::Delay(1000), Seen::Busy, Seen::Busy, Seen::Busy, Seen::Busy]
    );
    assert!(matches!(result, Ok(())));
}

#[test]
fn polling_a_broken_pin_ends_the_wait() {
    let (trace, result) = run(radio().wait_on_busy(), |_, step| match step {
        Step::BusyLow => Event::Polled(Err('b')),
        _ => good(step),
    });
    assert_eq!(trace, vec![Seen::Delay(1000), Seen::Busy]);
    assert!(matches!(result, Ok(())));
}

#[test]
fn watching_a_pin_ends_the_wait_or_the_call() {
    let (trace, result) = run(radio().wait_on_busy(), |_, step| match step {
        Step::BusyLow => Event::Awaited(Ok(())),
        _ => good(step),
    });
    assert_eq!(trace, vec![Seen::Delay(1000), Seen::Busy]);
    assert!(matches!(result, Ok(())));

    let (_, result) = run(radio().wait_on_busy(), |_, step| match step {
        Step::BusyLow => Event::Awaited(Err('b')),
        _ => good(step),
    });
    assert!(matches!(result, Err(SxError::Pin(PinError::Input('b')))));
}

fn message_trace(data: &[u8], len: u8) -> Vec<Seen> {
    let mut stored = vec![0x0E, 0x00];
    stored.extend(data);
    vec![
        Seen::Sent(stored),
        Seen::Sent(vec![0x8C, 0x01, 0x02, 0x00, len, 0x01, 0x00, 0x00, 0x00, 0x00]),
        Seen::Sent(vec![0x83, 0x0A, 0x0B, 0x0C]),
        Seen::Delay(1000),
        Seen::Busy,
        Seen::Dio1,
        Seen::Sent(vec![0x02, 0xFF, 0xFF]),
    ]
}

fn message(data: &[u8]) -> Call<Status> {
    radio().write_bytes(
        data,
        RxTxTimeout { bytes: [0x0A, 0x0B, 0x0C] },
        0x0102,
        LoRaCrcType { code: 1 },
    )
}

#[test]
fn message_is_stored_described_sent_and_acknowledged() {
    let (trace, result) = run(message(b"hello"), |_, step| good(step));
    assert_eq!(trace, message_trace(b"hello", 5));
    assert!(matches!(result, Ok(Status { raw: 0x0B })));
}

#[test]
fn empty_message() {
    let (trace, result) = run(message(b""), |_, step| good(step));
    assert_eq!(trace, message_trace(b"", 0));
    assert!(matches!(result, Ok(Status { raw: 0x0B })));
}

#[test]
fn length_of_a_long_message_is_cut_to_a_byte() {
    for (len, told) in [(255, 255u8), (256, 0), (300, 44)] {
        let data = vec![0x55; len];
        let (trace, _) = run(message(&data), |_, step| good(step));
        assert_eq!(trace, message_trace(&data, told));
    }
}

#[test]
fn message_waits_for_dio1() {
    let (trace, result) = run(message(b"x"), |i, step| match step {
        Step::Dio1High => Event::Polled(Ok(i < 7)),
        _ => good(step),
    });
    let mut expected = message_trace(b"x", 1);
    expected.insert(5, Seen::Dio1);
    expected.insert(5, Seen::Dio1);
    assert_eq!(trace, expected);
    assert!(matches!(result, Ok(Status { raw: 0x0B })));
}

#[test]
fn message_fails_with_its_first_error() {
    let full = message_trace(b"abc", 3);
    for at in 0..full.len() {
        let (trace, result) = run(message(b"abc"), |i, step| {
            if i < at {
                return good(step);
            }
            match step {
                Step::Spi { .. } => Event::Spi(Err(3)),
                _ => Event::Awaited(Err('e')),
            }
        });
        assert_eq!(trace, full[..at + 1].to_vec());
        match at {
            2 | 3 => assert!(matches!(result, Err(SxError::Spi(SpiError::Transfer(3))))),
            4 | 5 => assert!(matches!(result, Err(SxError::Pin(PinError::Input('e'))))),
            _ => assert!(matches!(result, Err(SxError::Spi(SpiError::Write(3))))),
        }
    }
}

#[test]
fn polling_repeats_nothing_but_the_waits() {
    let waits = |seen: &Seen| *seen == Seen::Busy || *seen == Seen::Dio1;
    let (trace, result) = run(message(b"abc"), |i, step| match step {
        Step::BusyLow => Event::Polled(Ok(i < 20)),
        Step::Dio1High => Event::Polled(Ok(i < 40)),
        _ => good(step),
    });
    assert!(trace.len() > 40);
    assert!(matches!(result, Ok(Status { raw: 0x0B })));
    let done: Vec<Seen> = trace.into_iter().filter(|seen| !waits(seen)).collect();
    let plan: Vec<Seen> =
        message_trace(b"abc", 3).into_iter().filter(|seen| !waits(seen)).collect();
    assert_eq!(done, plan);
}
