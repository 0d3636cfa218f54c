//! What a call answers, given the bytes that its last step took in.
use vstd::prelude::*;

use super::bus::{taken, Event};
use super::call::{Call, Finish, Response};
use super::command::Command;
use crate::op::{DeviceErrors, IrqStatus, PacketStatus, RxBufferStatus, Stats, Status};

verus! {

/// A command without an answer goes through whatever was taken in.
pub proof fn law_nothing_is_read(answer: (), reply: Seq<u8>)
    ensures
        <() as Response>::accepts(reply.len()),
        answer.says(reply),
{
}

/// Bytes that were read are answered as they are: all of them, in order, however many.
pub proof fn law_bytes_are_read(answer: Vec<u8>, reply: Seq<u8>)
    ensures
        <Vec<u8> as Response>::accepts(reply.len()),
        answer.says(reply) <==> answer@.len() == reply.len() && forall|i: int|
            0 <= i < reply.len() ==> #[trigger] answer@[i] == reply[i],
{
    if answer@.len() == reply.len() && forall|i: int|
        0 <= i < reply.len() ==> #[trigger] answer@[i] == reply[i] {
        assert(answer@ =~= reply);
    }
}

/// The status is the second of two bytes.
pub proof fn law_status_is_read(status: Status, reply: Seq<u8>)
    ensures
        <Status as Response>::accepts(reply.len()) <==> reply.len() == 2,
        reply.len() == 2 ==> (status.says(reply) <==> status.raw == reply[1]),
{
}

/// The counters are the last seven of eight bytes.
pub proof fn law_stats_are_read(stats: Stats, reply: Seq<u8>)
    ensures
        <Stats as Response>::accepts(reply.len()) <==> reply.len() == 8,
        reply.len() == 8 ==> (stats.says(reply) <==> forall|i: int|
            0 <= i < 7 ==> #[trigger] stats.raw[i] == reply[i + 1]),
{
    if reply.len() == 8 {
        if stats.says(reply) {
            assert forall|i: int| 0 <= i < 7 implies #[trigger] stats.raw[i] == reply[i + 1] by {
                assert(stats.raw@[i] == reply.skip(1)[i]);
            }
        }
        if forall|i: int| 0 <= i < 7 ==> #[trigger] stats.raw[i] == reply[i + 1] {
            assert forall|i: int| 0 <= i < 7 implies stats.raw@[i] == reply.skip(1)[i] by {
                assert(stats.raw[i] == reply[i + 1]);
            }
            assert(stats.raw@ =~= reply.skip(1));
        }
    }
}

/// The measurements of a packet are the three bytes.
pub proof fn law_packet_status_is_read(status: PacketStatus, reply: Seq<u8>)
    ensures
        <PacketStatus as Response>::accepts(reply.len()) <==> reply.len() == 3,
        reply.len() == 3 ==> (status.says(reply) <==> status.raw[0] == reply[0] && status.raw[1]
            == reply[1] && status.raw[2] == reply[2]),
{
    if reply.len() == 3 && status.raw[0] == reply[0] && status.raw[1] == reply[1] && status.raw[2]
        == reply[2] {
        assert(status.raw@ =~= reply);
    }
}

/// The device errors are the last two of four bytes, of which the last one counts 256.
pub proof fn law_device_errors_are_read(errors: DeviceErrors, reply: Seq<u8>)
    ensures
        <DeviceErrors as Response>::accepts(reply.len()) <==> reply.len() == 4,
        reply.len() == 4 ==> (errors.says(reply) <==> errors.bits == reply[2] + reply[3] * 256),
{
}

/// The interrupts are the last two of three bytes, of which the last one counts 1.
pub proof fn law_irq_status_is_read(status: IrqStatus, reply: Seq<u8>)
    ensures
        <IrqStatus as Response>::accepts(reply.len()) <==> reply.len() == 3,
        reply.len() == 3 ==> (status.says(reply) <==> status.bits == reply[1] * 256 + reply[2]),
{
}

/// Where the last packet lies is in the last two of four bytes: first its length, then
/// its address.
pub proof fn law_rx_buffer_status_is_read(status: RxBufferStatus, reply: Seq<u8>)
    ensures
        <RxBufferStatus as Response>::accepts(reply.len()) <==> reply.len() == 4,
        reply.len() == 4 ==> (status.says(reply) <==> status.payload_len == reply[2]
            && status.start_addr == reply[3]),
{
}

/// The bytes that an event brings are those that its transaction took in, and none
/// where there was no transaction or where it failed.
pub proof fn law_event_reply<TSPIERR, TPINERR>(
    bytes: Vec<u8>,
    spi_err: TSPIERR,
    driven: Result<(), TPINERR>,
    polled: Result<bool, TPINERR>,
)
    ensures
        Event::<TSPIERR, TPINERR>::Spi(Ok(bytes)).reply() == bytes@,
        Event::<TSPIERR, TPINERR>::Spi(Err(spi_err)).reply().len() == 0,
        Event::<TSPIERR, TPINERR>::Driven(driven).reply().len() == 0,
        Event::<TSPIERR, TPINERR>::Polled(polled).reply().len() == 0,
        Event::<TSPIERR, TPINERR>::Awaited(driven).reply().len() == 0,
{
}

/// A call answers the value it was made with, or what the reply says.
pub proof fn law_answer<T: Response>(call: Call<T>, answer: T, reply: Seq<u8>)
    ensures
        call.finish() matches Finish::Value(value) ==> (call.answers(answer, reply) <==> answer
            == value),
        call.finish() is Reply ==> (call.answers(answer, reply) <==> answer.says(reply)),
{
}

/// Reading the buffer answers as many bytes as were asked for, and byte for byte what
/// the transaction read.
pub proof fn law_read_buffer_answer<TSPIERR, TPINERR>(
    call: Call<Vec<u8>>,
    offset: u8,
    len: usize,
    event: Event<TSPIERR, TPINERR>,
    bytes: Vec<u8>,
    answer: Vec<u8>,
)
    requires
        call.plan() == seq![(Command::ReadBuffer { offset, len }).step()],
        call.finish() is Reply,
        event == Event::<TSPIERR, TPINERR>::Spi(Ok(bytes)),
        call.plan()[0].can_give(event),
        call.answers(answer, event.reply()),
    ensures
        answer@.len() == len,
        forall|i: int| 0 <= i < len ==> #[trigger] answer@[i] == bytes@[i],
{
    reveal_with_fuel(taken, 4);
}

/// Reading registers answers as many bytes as were asked for, and byte for byte what
/// the transaction read.
pub proof fn law_read_register_answer<TSPIERR, TPINERR>(
    call: Call<Vec<u8>>,
    addr: u16,
    len: usize,
    event: Event<TSPIERR, TPINERR>,
    bytes: Vec<u8>,
    answer: Vec<u8>,
)
    requires
        call.plan() == seq![(Command::ReadRegister { addr, len }).step()],
        call.finish() is Reply,
        event == Event::<TSPIERR, TPINERR>::Spi(Ok(bytes)),
        call.plan()[0].can_give(event),
        call.answers(answer, event.reply()),
    ensures
        answer@.len() == len,
        forall|i: int| 0 <= i < len ==> #[trigger] answer@[i] == bytes@[i],
{
    reveal_with_fuel(taken, 5);
}

} // verus!
