# sx126x

A driver for the Semtech SX1261 and SX1262 LoRa modems, written in
[Verus](https://github.com/verus-lang/verus).

The library in `src/` decides; it performs no input or output. A method of
`sx::SX126x` that talks to the modem returns a `Call`. A call hands out one step at a
time (an SPI transaction, a level of the reset pin, a wait for a pin), takes in what
performing the step gave, and ends in the method's result or in the first error.
`set_ant_enabled` returns the level to drive the antenna pin to.

| where | what |
| --- | --- |
| `src/sx/mod.rs` | the methods of the driver |
| `src/sx/command.rs` | the modem's commands as transactions, and the plans of `init`, `reset`, `write_bytes` and the waits |
| `src/sx/bus.rs` | steps, events, and how a call goes on after an event |
| `src/sx/call.rs` | calls, and how the modem's answers are read |
| `src/sx/err.rs` | errors |
| `src/sx/laws.rs` | what holds of all calls and of calls taken together |
| `src/op.rs`, `src/reg.rs`, `src/conf.rs` | operands, answers, registers, configuration |
| `src/endian.rs` | byte orders |
| `app/` | the driver on `embedded-hal` and `embedded-hal-async` |
| `tests/` | tests of the library |
