//! Driver calls: what is left to do, and what the call will answer.
use vstd::prelude::*;

use super::bus::{
    advance, ops_view, taken, Event, Operation, Outcome, SpiFault, Step, StepView, Verdict,
};
use super::err::SxError;
use crate::endian::{join16, u16_from_be_bytes, u16_from_le_bytes};
use crate::op::{DeviceErrors, IrqStatus, PacketStatus, RxBufferStatus, Stats, Status};

verus! {

/// What a call can answer.
pub trait Response: Sized {
    /// The answer can be read from a reply of this length.
    spec fn accepts(len: nat) -> bool;

    /// The answer is what `reply` says.
    spec fn says(&self, reply: Seq<u8>) -> bool;

    /// Reads the answer from the bytes that the last transaction took in.
    fn parse(reply: Vec<u8>) -> (answer: Self)
        requires
            Self::accepts(reply@.len()),
        ensures
            answer.says(reply@),
    ;
}

/// A command that only has to go through.
impl Response for () {
    open spec fn accepts(len: nat) -> bool {
        true
    }

    open spec fn says(&self, reply: Seq<u8>) -> bool {
        true
    }

    fn parse(reply: Vec<u8>) -> (answer: ()) {
    }
}

/// The bytes read.
impl Response for Vec<u8> {
    open spec fn accepts(len: nat) -> bool {
        true
    }

    open spec fn says(&self, reply: Seq<u8>) -> bool {
        self@ == reply
    }

    fn parse(reply: Vec<u8>) -> (answer: Vec<u8>)
        ensures
            answer@.len() == reply@.len(),
            forall|i: int| 0 <= i < reply@.len() ==> #[trigger] answer@[i] == reply@[i],
    {
        reply
    }
}

/// The byte that comes back while the byte after the opcode is sent.
impl Response for Status {
    open spec fn accepts(len: nat) -> bool {
        len == 2
    }

    open spec fn says(&self, reply: Seq<u8>) -> bool {
        self.raw == reply[1]
    }

    fn parse(reply: Vec<u8>) -> (answer: Status)
        ensures
            answer.raw == reply@[1],
    {
        Status::from(reply[1])
    }
}

/// The seven bytes that come back after the opcode.
impl Response for Stats {
    open spec fn accepts(len: nat) -> bool {
        len == 8
    }

    open spec fn says(&self, reply: Seq<u8>) -> bool {
        self.raw@ =~= reply.skip(1)
    }

    fn parse(reply: Vec<u8>) -> (answer: Stats)
        ensures
            forall|i: int| 0 <= i < 7 ==> #[trigger] answer.raw[i] == reply@[i + 1],
    {
        Stats::from([reply[1], reply[2], reply[3], reply[4], reply[5], reply[6], reply[7]])
    }
}

/// The three bytes read.
impl Response for PacketStatus {
    open spec fn accepts(len: nat) -> bool {
        len == 3
    }

    open spec fn says(&self, reply: Seq<u8>) -> bool {
        self.raw@ =~= reply
    }

    fn parse(reply: Vec<u8>) -> (answer: PacketStatus)
        ensures
            forall|i: int| 0 <= i < 3 ==> #[trigger] answer.raw[i] == reply@[i],
    {
        PacketStatus::from([reply[0], reply[1], reply[2]])
    }
}

/// The two bytes after the opcode and the status, the low byte first.
impl Response for DeviceErrors {
    open spec fn accepts(len: nat) -> bool {
        len == 4
    }

    open spec fn says(&self, reply: Seq<u8>) -> bool {
        self.bits == join16(reply[3], reply[2])
    }

    fn parse(reply: Vec<u8>) -> (answer: DeviceErrors)
        ensures
            answer.bits == reply@[2] + reply@[3] * 256,
    {
        DeviceErrors::from(u16_from_le_bytes([reply[2], reply[3]]))
    }
}

/// The two bytes after the status, the high byte first.
impl Response for IrqStatus {
    open spec fn accepts(len: nat) -> bool {
        len == 3
    }

    open spec fn says(&self, reply: Seq<u8>) -> bool {
        self.bits == join16(reply[1], reply[2])
    }

    fn parse(reply: Vec<u8>) -> (answer: IrqStatus)
        ensures
            answer.bits == reply@[1] * 256 + reply@[2],
    {
        IrqStatus::from(u16_from_be_bytes([reply[1], reply[2]]))
    }
}

/// The two bytes after the opcode and the status.
impl Response for RxBufferStatus {
    open spec fn accepts(len: nat) -> bool {
        len == 4
    }

    open spec fn says(&self, reply: Seq<u8>) -> bool {
        self.payload_len == reply[2] && self.start_addr == reply[3]
    }

    fn parse(reply: Vec<u8>) -> (answer: RxBufferStatus)
        ensures
            answer.payload_len == reply@[2],
            answer.start_addr == reply@[3],
    {
        RxBufferStatus::from([reply[2], reply[3]])
    }
}

/// Where a call has its answer from.
#[derive(Debug)]
pub enum Finish<T> {
    /// The answer was known from the start.
    Value(T),
    /// The answer is in the bytes that the last step takes in.
    Reply,
}

/// A driver call that is not over: the steps left, and where the answer is from.
#[derive(Debug)]
pub struct Call<T: Response> {
    /// The steps left, the last one first.
    todo: Vec<Step>,
    finish: Finish<T>,
}

/// A driver call after an event.
pub enum Progress<TSPIERR, TPINERR, T: Response> {
    /// The call goes on.
    Pending(Call<T>),
    /// The call is over.
    Done(Result<T, SxError<TSPIERR, TPINERR, TPINERR>>),
}

impl<T: Response> Call<T> {
    #[verifier::type_invariant]
    spec fn inv(self) -> bool {
        &&& self.todo@.len() > 0
        &&& self.finish is Reply ==> (self.todo@[0]@ matches StepView::Spi { ops, .. }
            && T::accepts(taken(ops)))
    }

    /// The steps left, in the order in which they are performed.
    pub closed spec fn plan(self) -> Seq<StepView> {
        Seq::new(self.todo@.len(), |i: int| self.todo@[self.todo@.len() - 1 - i]@)
    }

    /// Where the answer is from.
    pub closed spec fn finish(self) -> Finish<T> {
        self.finish
    }

    /// The call answers `answer` if its last step takes in `reply`.
    pub open spec fn answers(self, answer: T, reply: Seq<u8>) -> bool {
        match self.finish() {
            Finish::Value(value) => answer == value,
            Finish::Reply => answer.says(reply),
        }
    }

    /// A call of one step.
    pub(crate) fn single(step: Step, finish: Finish<T>) -> (call: Self)
        requires
            finish is Reply ==> (step@ matches StepView::Spi { ops, .. } && T::accepts(taken(ops))),
        ensures
            call.plan() == seq![step@],
            call.finish() == finish,
    {
        Call { todo: vec![step], finish }
    }

    /// A call of one transaction.
    pub(crate) fn spi(ops: Vec<Operation>, fault: SpiFault, finish: Finish<T>) -> (call: Self)
        requires
            finish is Reply ==> T::accepts(taken(ops_view(ops@))),
        ensures
            call.plan() == seq![StepView::Spi { ops: ops_view(ops@), fault }],
            call.finish() == finish,
    {
        Call::single(Step::Spi { ops, fault }, finish)
    }

    /// The step to perform.
    pub fn step(&self) -> (step: &Step)
        ensures
            self.plan().len() > 0,
            step@ == self.plan()[0],
    {
        proof {
            use_type_invariant(self);
        }
        &self.todo[self.todo.len() - 1]
    }

    /// Takes in what performing the step gave. The call goes on with the same step,
    /// goes on with the next one, or is over.
    pub fn resume<TSPIERR, TPINERR>(self, event: Event<TSPIERR, TPINERR>) -> (progress: Progress<
        TSPIERR,
        TPINERR,
        T,
    >)
        requires
            self.plan()[0].can_give(event),
        ensures
            match advance(self.plan(), event) {
                Outcome::Running(left) => progress matches Progress::Pending(call) && call.plan()
                    == left && call.finish() == self.finish(),
                Outcome::Finished => progress matches Progress::Done(Ok(answer)) && self.answers(
                    answer,
                    event.reply(),
                ),
                Outcome::Failed(err) => progress == Progress::<TSPIERR, TPINERR, T>::Done(Err(err)),
            },
    {
        proof {
            use_type_invariant(&self);
        }
        match event {
            Event::Spi(Ok(reply)) => self.proceed(reply),
            event => match self.step().judge(event) {
                Verdict::Repeat => Progress::Pending(self),
                Verdict::Advance => self.proceed(Vec::new()),
                Verdict::Fail(err) => Progress::Done(Err(err)),
            },
        }
    }

    /// Goes on to the next step, or answers where there is none.
    fn proceed<TSPIERR, TPINERR>(self, reply: Vec<u8>) -> (progress: Progress<TSPIERR, TPINERR, T>)
        requires
            self.plan().len() == 1 && self.finish() is Reply ==> T::accepts(reply@.len()),
        ensures
            if self.plan().len() == 1 {
                progress matches Progress::Done(Ok(answer)) && self.answers(answer, reply@)
            } else {
                progress matches Progress::Pending(call) && call.plan() == self.plan().drop_first()
                    && call.finish() == self.finish()
            },
    {
        proof {
            use_type_invariant(&self);
        }
        let mut todo = self.todo;
        let finish = self.finish;
        todo.pop();
        if todo.len() == 0 {
            match finish {
                Finish::Value(value) => Progress::Done(Ok(value)),
                Finish::Reply => Progress::Done(Ok(T::parse(reply))),
            }
        } else {
            Progress::Pending(Call { todo, finish })
        }
    }

    /// This call with the steps of `next` after its own, and with its own answer.
    pub(crate) fn followed_by(self, next: Call<()>) -> (call: Self)
        requires
            self.finish() is Value,
        ensures
            call.plan() == self.plan() + next.plan(),
            call.finish() == self.finish(),
    {
        proof {
            use_type_invariant(&next);
        }
        let mut todo = next.todo;
        let mut first = self.todo;
        todo.append(&mut first);
        Call { todo, finish: self.finish }
    }
}

impl Call<()> {
    /// The steps of this call and then those of `next`, with the answer of `next`.
    pub(crate) fn chain<T: Response>(self, next: Call<T>) -> (call: Call<T>)
        ensures
            call.plan() == self.plan() + next.plan(),
            call.finish() == next.finish(),
    {
        proof {
            use_type_invariant(&next);
        }
        let mut todo = next.todo;
        let mut first = self.todo;
        todo.append(&mut first);
        Call { todo, finish: next.finish }
    }
}

} // verus!
