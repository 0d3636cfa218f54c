//! The steps a driver call is made of, and what performing one can give.
use vstd::prelude::*;

use super::err::{PinError, SpiError, SxError};

verus! {

/// One operation of an SPI transaction.
#[derive(Debug)]
pub enum Operation {
    /// Send these bytes.
    Write(Vec<u8>),
    /// Take in this many bytes.
    Read(usize),
    /// Send these bytes, and take in as many.
    TransferInPlace(Vec<u8>),
    /// Let this many nanoseconds pass.
    DelayNs(u32),
}

/// An [`Operation`], with its bytes as a sequence.
#[verifier::ext_equal]
pub enum OperationView {
    Write(Seq<u8>),
    Read(usize),
    TransferInPlace(Seq<u8>),
    DelayNs(u32),
}

impl View for Operation {
    type V = OperationView;

    open spec fn view(&self) -> OperationView {
        match self {
            Operation::Write(bytes) => OperationView::Write(bytes@),
            Operation::Read(len) => OperationView::Read(*len),
            Operation::TransferInPlace(bytes) => OperationView::TransferInPlace(bytes@),
            Operation::DelayNs(ns) => OperationView::DelayNs(*ns),
        }
    }
}

impl OperationView {
    /// The bytes the operation sends.
    pub open spec fn sent(self) -> Seq<u8> {
        match self {
            OperationView::Write(bytes) => bytes,
            OperationView::TransferInPlace(bytes) => bytes,
            _ => Seq::empty(),
        }
    }

    /// How many bytes the operation takes in.
    pub open spec fn taken(self) -> nat {
        match self {
            OperationView::Read(len) => len as nat,
            OperationView::TransferInPlace(bytes) => bytes.len(),
            _ => 0,
        }
    }

    /// The operation takes bytes in.
    pub open spec fn takes(self) -> bool {
        self is Read || self is TransferInPlace
    }

    /// What the buffer of the operation holds beforehand: the bytes it sends, or zeros
    /// where bytes are only taken in.
    pub open spec fn buffer(self) -> Seq<u8> {
        match self {
            OperationView::Read(len) => Seq::new(len as nat, |i: int| 0u8),
            _ => self.sent(),
        }
    }
}

/// The views of `ops`.
pub open spec fn ops_view(ops: Seq<Operation>) -> Seq<OperationView> {
    Seq::new(ops.len(), |i: int| ops[i]@)
}

/// The bytes that a transaction sends, one operation after the other.
pub open spec fn sent(ops: Seq<OperationView>) -> Seq<u8>
    decreases ops.len(),
{
    if ops.len() == 0 {
        Seq::empty()
    } else {
        ops[0].sent() + sent(ops.drop_first())
    }
}

/// How many bytes a transaction takes in.
pub open spec fn taken(ops: Seq<OperationView>) -> nat
    decreases ops.len(),
{
    if ops.len() == 0 {
        0
    } else {
        ops[0].taken() + taken(ops.drop_first())
    }
}

/// The contents of `bufs`.
pub open spec fn bufs_view(bufs: Seq<Vec<u8>>) -> Seq<Seq<u8>> {
    Seq::new(bufs.len(), |i: int| bufs[i]@)
}

/// Each operation that takes bytes in has a buffer of that length.
pub open spec fn fit(ops: Seq<OperationView>, bufs: Seq<Seq<u8>>) -> bool {
    &&& bufs.len() == ops.len()
    &&& forall|i: int|
        0 <= i < ops.len() && (#[trigger] ops[i]).takes() ==> bufs[i].len() == ops[i].taken()
}

/// The buffers of the operations that take bytes in, one after the other.
pub open spec fn gathered(ops: Seq<OperationView>, bufs: Seq<Seq<u8>>) -> Seq<u8>
    decreases ops.len(),
{
    if ops.len() == 0 {
        Seq::empty()
    } else {
        (if ops[0].takes() {
            bufs[0]
        } else {
            Seq::empty()
        }) + gathered(ops.drop_first(), bufs.drop_first())
    }
}

/// The bytes gathered from buffers that fit are as many as the transaction takes in.
pub proof fn law_gathered_len(ops: Seq<OperationView>, bufs: Seq<Seq<u8>>)
    requires
        fit(ops, bufs),
    ensures
        gathered(ops, bufs).len() == taken(ops),
    decreases ops.len(),
{
    if ops.len() > 0 {
        assert(fit(ops.drop_first(), bufs.drop_first())) by {
            assert forall|i: int|
                0 <= i < ops.drop_first().len() && (
                #[trigger] ops.drop_first()[i]).takes() implies bufs.drop_first()[i].len()
                == ops.drop_first()[i].taken() by {
                assert(ops[i + 1].takes());
            }
        }
        law_gathered_len(ops.drop_first(), bufs.drop_first());
    }
}

/// Makes a buffer for each operation, to perform it on.
pub fn buffers(ops: &Vec<Operation>) -> (bufs: Vec<Vec<u8>>)
    ensures
        bufs@.len() == ops@.len(),
        forall|i: int| 0 <= i < ops@.len() ==> #[trigger] bufs@[i]@ == ops@[i]@.buffer(),
        fit(ops_view(ops@), bufs_view(bufs@)),
{
    let mut bufs: Vec<Vec<u8>> = Vec::new();
    let mut i: usize = 0;
    while i < ops.len()
        invariant
            i <= ops@.len(),
            bufs@.len() == i,
            forall|j: int| 0 <= j < i ==> #[trigger] bufs@[j]@ == ops@[j]@.buffer(),
        decreases ops@.len() - i,
    {
        let buf: Vec<u8> = match &ops[i] {
            Operation::Write(bytes) => vstd::slice::slice_to_vec(bytes),
            Operation::Read(len) => vec![0u8; *len],
            Operation::TransferInPlace(bytes) => vstd::slice::slice_to_vec(bytes),
            Operation::DelayNs(_) => Vec::new(),
        };
        assert(buf@ =~= ops@[i as int]@.buffer());
        bufs.push(buf);
        i = i + 1;
    }
    bufs
}

/// Gathers what the operations took in from the buffers that they were performed on.
pub fn taken_bytes(ops: &Vec<Operation>, bufs: &Vec<Vec<u8>>) -> (reply: Vec<u8>)
    requires
        fit(ops_view(ops@), bufs_view(bufs@)),
    ensures
        reply@ == gathered(ops_view(ops@), bufs_view(bufs@)),
        reply@.len() == taken(ops_view(ops@)),
{
    let ghost all_ops = ops_view(ops@);
    let ghost all_bufs = bufs_view(bufs@);
    let mut reply: Vec<u8> = Vec::new();
    let mut i: usize = 0;
    assert(all_ops.skip(0) =~= all_ops);
    assert(all_bufs.skip(0) =~= all_bufs);
    while i < ops.len()
        invariant
            i <= ops@.len(),
            bufs@.len() == ops@.len(),
            all_ops == ops_view(ops@),
            all_bufs == bufs_view(bufs@),
            reply@ + gathered(all_ops.skip(i as int), all_bufs.skip(i as int)) == gathered(
                all_ops,
                all_bufs,
            ),
        decreases ops@.len() - i,
    {
        let ghost before = reply@;
        assert(all_ops.skip(i as int).drop_first() =~= all_ops.skip(i + 1));
        assert(all_bufs.skip(i as int).drop_first() =~= all_bufs.skip(i + 1));
        match &ops[i] {
            Operation::Read(_) | Operation::TransferInPlace(_) => {
                let mut buf: Vec<u8> = vstd::slice::slice_to_vec(&bufs[i]);
                reply.append(&mut buf);
            },
            _ => {},
        }
        assert(reply@ + gathered(all_ops.skip(i + 1), all_bufs.skip(i + 1)) =~= before + gathered(
            all_ops.skip(i as int),
            all_bufs.skip(i as int),
        ));
        i = i + 1;
    }
    proof {
        law_gathered_len(all_ops, all_bufs);
    }
    reply
}

/// Which error a failed transaction is reported as.
#[derive(Clone, Copy, Debug, PartialEq, Eq)]
pub enum SpiFault {
    Write,
    Transfer,
}

impl SpiFault {
    /// The bus's own error, reported as this fault.
    pub open spec fn wrapping<TSPIERR>(self, err: TSPIERR) -> SpiError<TSPIERR> {
        match self {
            SpiFault::Write => SpiError::Write(err),
            SpiFault::Transfer => SpiError::Transfer(err),
        }
    }

    /// Reports the bus's own error as this fault.
    pub(crate) fn wrap<TSPIERR>(self, err: TSPIERR) -> (spi_err: SpiError<TSPIERR>)
        ensures
            spi_err == self.wrapping(err),
    {
        match self {
            SpiFault::Write => SpiError::Write(err),
            SpiFault::Transfer => SpiError::Transfer(err),
        }
    }
}

/// The level of a pin.
#[derive(Clone, Copy, Debug, PartialEq, Eq)]
pub enum Level {
    Low,
    High,
}

/// One thing to do to the modem.
#[derive(Debug)]
pub enum Step {
    /// Perform an SPI transaction.
    Spi { ops: Vec<Operation>, fault: SpiFault },
    /// Drive the reset pin.
    Nrst(Level),
    /// Wait for the busy pin to go low.
    BusyLow,
    /// Wait for the DIO1 pin to go high.
    Dio1High,
}

/// A [`Step`], with its operations as a sequence.
#[verifier::ext_equal]
pub enum StepView {
    Spi { ops: Seq<OperationView>, fault: SpiFault },
    Nrst(Level),
    BusyLow,
    Dio1High,
}

impl View for Step {
    type V = StepView;

    open spec fn view(&self) -> StepView {
        match self {
            Step::Spi { ops, fault } => StepView::Spi { ops: ops_view(ops@), fault: *fault },
            Step::Nrst(level) => StepView::Nrst(*level),
            Step::BusyLow => StepView::BusyLow,
            Step::Dio1High => StepView::Dio1High,
        }
    }
}

/// What performing a step gave.
#[derive(Debug)]
pub enum Event<TSPIERR, TPINERR> {
    /// The transaction went through, and took in these bytes; or it failed.
    Spi(Result<Vec<u8>, TSPIERR>),
    /// The pin was driven, or could not be.
    Driven(Result<(), TPINERR>),
    /// The pin that is waited on was read once: whether it still has to change.
    Polled(Result<bool, TPINERR>),
    /// The pin that is waited on has changed, or could not be watched.
    Awaited(Result<(), TPINERR>),
}

/// How a call goes on after a step.
pub enum Verdict<TSPIERR, TPINERR> {
    /// The step is performed once more.
    Repeat,
    /// The next step is performed, if there is one.
    Advance,
    /// The call ends in this error.
    Fail(SxError<TSPIERR, TPINERR, TPINERR>),
}

impl<TSPIERR, TPINERR> Event<TSPIERR, TPINERR> {
    /// The bytes that a transaction took in.
    pub open spec fn reply(self) -> Seq<u8> {
        match self {
            Event::Spi(Ok(reply)) => reply@,
            _ => Seq::empty(),
        }
    }
}

impl StepView {
    /// The step is a wait for a pin.
    pub open spec fn waits(self) -> bool {
        self is BusyLow || self is Dio1High
    }

    /// `event` is something that performing the step can give. A transaction that
    /// went through has filled its buffers.
    pub open spec fn can_give<TSPIERR, TPINERR>(self, event: Event<TSPIERR, TPINERR>) -> bool {
        match event {
            Event::Spi(result) => self matches StepView::Spi { ops, .. } && (result matches Ok(
                reply,
            ) ==> reply@.len() == taken(ops)),
            Event::Driven(_) => self is Nrst,
            Event::Polled(_) => self.waits(),
            Event::Awaited(_) => self.waits(),
        }
    }

    /// How a call goes on after the step gave `event`.
    ///
    /// A transaction and a driven pin must succeed. A pin that is polled is read
    /// until it has changed, and one that cannot be read is waited on no longer. A
    /// pin that is watched must be watched successfully.
    pub open spec fn verdict<TSPIERR, TPINERR>(self, event: Event<TSPIERR, TPINERR>) -> Verdict<
        TSPIERR,
        TPINERR,
    > {
        match event {
            Event::Spi(Ok(_)) => Verdict::Advance,
            Event::Spi(Err(err)) => Verdict::Fail(SxError::Spi(self->fault.wrapping(err))),
            Event::Driven(Ok(_)) => Verdict::Advance,
            Event::Driven(Err(err)) => Verdict::Fail(SxError::Pin(PinError::Output(err))),
            Event::Polled(Ok(true)) => Verdict::Repeat,
            Event::Polled(_) => Verdict::Advance,
            Event::Awaited(Ok(_)) => Verdict::Advance,
            Event::Awaited(Err(err)) => Verdict::Fail(SxError::Pin(PinError::Input(err))),
        }
    }
}

impl Step {
    /// Decides how the call goes on after this step gave `event`.
    pub(crate) fn judge<TSPIERR, TPINERR>(&self, event: Event<TSPIERR, TPINERR>) -> (verdict: Verdict<
        TSPIERR,
        TPINERR,
    >)
        requires
            self@.can_give(event),
        ensures
            verdict == self@.verdict(event),
    {
        match event {
            Event::Spi(Ok(_)) => Verdict::Advance,
            Event::Spi(Err(err)) => match self {
                Step::Spi { fault, .. } => Verdict::Fail(SxError::from(fault.wrap(err))),
                // No other step performs a transaction.
                _ => Verdict::Advance,
            },
            Event::Driven(Ok(_)) => Verdict::Advance,
            Event::Driven(Err(err)) => Verdict::Fail(SxError::from(PinError::Output(err))),
            Event::Polled(Ok(true)) => Verdict::Repeat,
            Event::Polled(_) => Verdict::Advance,
            Event::Awaited(Ok(_)) => Verdict::Advance,
            Event::Awaited(Err(err)) => Verdict::Fail(SxError::from(PinError::Input(err))),
        }
    }
}

/// Where a call stands.
pub enum Outcome<TSPIERR, TPINERR> {
    /// These steps are left. The first of them is to be performed.
    Running(Seq<StepView>),
    /// Every step has been performed.
    Finished,
    /// A step failed.
    Failed(SxError<TSPIERR, TPINERR, TPINERR>),
}

/// Where a call stands that had `plan` left, after its first step gave `event`.
pub open spec fn advance<TSPIERR, TPINERR>(
    plan: Seq<StepView>,
    event: Event<TSPIERR, TPINERR>,
) -> Outcome<TSPIERR, TPINERR> {
    match plan[0].verdict(event) {
        Verdict::Repeat => Outcome::Running(plan),
        Verdict::Advance => if plan.len() == 1 {
            Outcome::Finished
        } else {
            Outcome::Running(plan.drop_first())
        },
        Verdict::Fail(err) => Outcome::Failed(err),
    }
}

/// Where a call stands that had `plan` left, after `events`.
pub open spec fn run<TSPIERR, TPINERR>(
    plan: Seq<StepView>,
    events: Seq<Event<TSPIERR, TPINERR>>,
) -> Outcome<TSPIERR, TPINERR>
    decreases events.len(),
{
    if events.len() == 0 {
        Outcome::Running(plan)
    } else {
        match advance(plan, events[0]) {
            Outcome::Running(left) => run(left, events.drop_first()),
            outcome => outcome,
        }
    }
}

/// Each of `events` is one that the step at hand can give, from a call with `plan` left
/// until the call is over.
pub open spec fn possible<TSPIERR, TPINERR>(
    plan: Seq<StepView>,
    events: Seq<Event<TSPIERR, TPINERR>>,
) -> bool
    decreases events.len(),
{
    events.len() > 0 ==> plan[0].can_give(events[0]) && match advance(plan, events[0]) {
        Outcome::Running(left) => possible(left, events.drop_first()),
        _ => true,
    }
}

/// The steps that a call with `plan` left performs to get `events`, in order.
pub open spec fn performed<TSPIERR, TPINERR>(
    plan: Seq<StepView>,
    events: Seq<Event<TSPIERR, TPINERR>>,
) -> Seq<StepView>
    decreases events.len(),
{
    if events.len() == 0 {
        Seq::empty()
    } else {
        match advance(plan, events[0]) {
            Outcome::Running(left) => seq![plan[0]] + performed(left, events.drop_first()),
            _ => seq![plan[0]],
        }
    }
}

} // verus!
