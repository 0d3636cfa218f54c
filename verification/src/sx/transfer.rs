//! What a transaction sends and takes in.
use vstd::prelude::*;

use super::bus::{
    bufs_view, fit, gathered, ops_view, sent, taken, Level, Operation, OperationView, SpiFault,
    Step, StepView,
};

verus! {

/// An operation and its view hold the same bytes or the same number.
pub proof fn law_operation_view(bytes: Vec<u8>, len: usize, ns: u32)
    ensures
        Operation::Write(bytes)@ == OperationView::Write(bytes@),
        Operation::Read(len)@ == OperationView::Read(len),
        Operation::TransferInPlace(bytes)@ == OperationView::TransferInPlace(bytes@),
        Operation::DelayNs(ns)@ == OperationView::DelayNs(ns),
{
}

/// A step and its view are the same thing to do, a transaction operation by operation.
pub proof fn law_step_view(ops: Vec<Operation>, fault: SpiFault, level: Level)
    ensures
        (Step::Spi { ops, fault })@ matches StepView::Spi { ops: views, fault: reported } && {
            &&& reported == fault
            &&& views.len() == ops@.len()
            &&& forall|i: int| 0 <= i < ops@.len() ==> #[trigger] views[i] == ops@[i]@
        },
        Step::Nrst(level)@ == StepView::Nrst(level),
        Step::BusyLow@ == StepView::BusyLow,
        Step::Dio1High@ == StepView::Dio1High,
{
}

/// The views of a list are those of its items, in order.
pub proof fn law_list_views(ops: Seq<Operation>, bufs: Seq<Vec<u8>>)
    ensures
        ops_view(ops).len() == ops.len(),
        forall|i: int| 0 <= i < ops.len() ==> #[trigger] ops_view(ops)[i] == ops[i]@,
        bufs_view(bufs).len() == bufs.len(),
        forall|i: int| 0 <= i < bufs.len() ==> #[trigger] bufs_view(bufs)[i] == bufs[i]@,
{
}

/// Writing and transferring send their bytes; reading and waiting send none.
pub proof fn law_operation_sends(bytes: Seq<u8>, len: usize, ns: u32)
    ensures
        OperationView::Write(bytes).sent() == bytes,
        OperationView::TransferInPlace(bytes).sent() == bytes,
        OperationView::Read(len).sent().len() == 0,
        OperationView::DelayNs(ns).sent().len() == 0,
{
}

/// Reading takes in as many bytes as it asks for, and transferring as many as it sends;
/// writing and waiting take in none.
pub proof fn law_operation_takes(bytes: Seq<u8>, len: usize, ns: u32)
    ensures
        OperationView::Read(len).taken() == len,
        OperationView::Read(len).takes(),
        OperationView::TransferInPlace(bytes).taken() == bytes.len(),
        OperationView::TransferInPlace(bytes).takes(),
        OperationView::Write(bytes).taken() == 0,
        !OperationView::Write(bytes).takes(),
        OperationView::DelayNs(ns).taken() == 0,
        !OperationView::DelayNs(ns).takes(),
{
}

/// The buffer of an operation begins with what it sends. One that is only filled begins
/// with as many zeros as bytes will be taken in.
pub proof fn law_operation_buffer(bytes: Seq<u8>, len: usize, ns: u32)
    ensures
        OperationView::Write(bytes).buffer() == bytes,
        OperationView::TransferInPlace(bytes).buffer() == bytes,
        OperationView::Read(len).buffer().len() == len,
        forall|i: int| 0 <= i < len ==> #[trigger] OperationView::Read(len).buffer()[i] == 0,
        OperationView::DelayNs(ns).buffer().len() == 0,
{
}

/// Buffers fit a transaction if there is one for each operation, as long as what the
/// operation reads, or as what it transfers.
pub proof fn law_fit(ops: Seq<OperationView>, bufs: Seq<Seq<u8>>)
    ensures
        fit(ops, bufs) <==> {
            &&& bufs.len() == ops.len()
            &&& forall|i: int|
                0 <= i < ops.len() ==> match #[trigger] ops[i] {
                    OperationView::Read(len) => bufs[i].len() == len,
                    OperationView::TransferInPlace(bytes) => bufs[i].len() == bytes.len(),
                    _ => true,
                }
        },
{
    if fit(ops, bufs) {
        assert forall|i: int| 0 <= i < ops.len() implies match #[trigger] ops[i] {
            OperationView::Read(len) => bufs[i].len() == len,
            OperationView::TransferInPlace(bytes) => bufs[i].len() == bytes.len(),
            _ => true,
        } by {
            assert(ops[i].takes() ==> bufs[i].len() == ops[i].taken());
        }
    }
}

/// A transaction without operations sends nothing. One more operation, last, sends its
/// bytes last.
pub proof fn law_sent(ops: Seq<OperationView>, op: OperationView)
    ensures
        sent(Seq::empty()).len() == 0,
        sent(ops.push(op)) == sent(ops) + match op {
            OperationView::Write(bytes) => bytes,
            OperationView::TransferInPlace(bytes) => bytes,
            _ => Seq::empty(),
        },
    decreases ops.len(),
{
    reveal_with_fuel(sent, 2);
    if ops.len() == 0 {
        assert(ops.push(op).drop_first() =~= ops);
        assert(sent(ops.push(op)) =~= op.sent());
    } else {
        assert(ops.push(op).drop_first() =~= ops.drop_first().push(op));
        law_sent(ops.drop_first(), op);
        assert(sent(ops.push(op)) =~= sent(ops) + op.sent());
    }
}

/// A transaction without operations takes nothing in. One more operation, last, adds the
/// bytes that it reads or transfers.
pub proof fn law_taken(ops: Seq<OperationView>, op: OperationView)
    ensures
        taken(Seq::empty()) == 0,
        taken(ops.push(op)) == taken(ops) + match op {
            OperationView::Read(len) => len as nat,
            OperationView::TransferInPlace(bytes) => bytes.len(),
            _ => 0,
        },
    decreases ops.len(),
{
    reveal_with_fuel(taken, 2);
    if ops.len() == 0 {
        assert(ops.push(op).drop_first() =~= ops);
    } else {
        assert(ops.push(op).drop_first() =~= ops.drop_first().push(op));
        law_taken(ops.drop_first(), op);
    }
}

/// One more operation, last, adds its whole buffer to what is gathered if it reads or
/// transfers, and nothing if it does not.
pub proof fn law_gathered(
    ops: Seq<OperationView>,
    bufs: Seq<Seq<u8>>,
    op: OperationView,
    buf: Seq<u8>,
)
    requires
        bufs.len() == ops.len(),
    ensures
        gathered(Seq::empty(), Seq::empty()).len() == 0,
        gathered(ops.push(op), bufs.push(buf)) == gathered(ops, bufs) + match op {
            OperationView::Read(_) => buf,
            OperationView::TransferInPlace(_) => buf,
            _ => Seq::empty(),
        },
    decreases ops.len(),
{
    reveal_with_fuel(gathered, 2);
    let more = if op.takes() {
        buf
    } else {
        Seq::empty()
    };
    if ops.len() == 0 {
        assert(ops.push(op).drop_first() =~= ops);
        assert(bufs.push(buf).drop_first() =~= bufs);
        assert(gathered(ops.push(op), bufs.push(buf)) =~= more);
        assert(gathered(ops, bufs) + more =~= more);
    } else {
        assert(ops.push(op).drop_first() =~= ops.drop_first().push(op));
        assert(bufs.push(buf).drop_first() =~= bufs.drop_first().push(buf));
        law_gathered(ops.drop_first(), bufs.drop_first(), op, buf);
        assert(gathered(ops.push(op), bufs.push(buf)) =~= gathered(ops, bufs) + more);
    }
}

/// What a read takes in behind a command is its own buffer, byte for byte.
pub proof fn law_read_is_gathered(
    writes: Seq<OperationView>,
    bufs: Seq<Seq<u8>>,
    len: usize,
    buf: Seq<u8>,
)
    requires
        bufs.len() == writes.len(),
        forall|i: int| 0 <= i < writes.len() ==> #[trigger] writes[i] is Write,
    ensures
        taken(writes.push(OperationView::Read(len))) == len,
        gathered(writes.push(OperationView::Read(len)), bufs.push(buf)) == buf,
{
    law_taken(writes, OperationView::Read(len));
    law_gathered(writes, bufs, OperationView::Read(len), buf);
    lemma_writes_take_nothing(writes, bufs);
    assert(Seq::<u8>::empty() + buf =~= buf);
}

proof fn lemma_writes_take_nothing(writes: Seq<OperationView>, bufs: Seq<Seq<u8>>)
    requires
        bufs.len() == writes.len(),
        forall|i: int| 0 <= i < writes.len() ==> #[trigger] writes[i] is Write,
    ensures
        taken(writes) == 0,
        gathered(writes, bufs) == Seq::<u8>::empty(),
    decreases writes.len(),
{
    if writes.len() > 0 {
        lemma_writes_take_nothing(writes.drop_first(), bufs.drop_first());
    }
}

} // verus!
