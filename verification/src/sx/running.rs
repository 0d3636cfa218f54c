//! How a call goes on after each event.
use vstd::prelude::*;

use super::bus::{advance, taken, Event, Level, OperationView, Outcome, SpiFault, StepView};
use super::err::{PinError, SpiError, SxError};

verus! {

/// Each kind of step gives its own kind of event: a transaction fails, or brings as many
/// bytes as it takes in; the reset pin is driven; a pin that is waited on is polled or
/// watched.
pub proof fn law_events_of_steps<TSPIERR, TPINERR>(
    ops: Seq<OperationView>,
    fault: SpiFault,
    level: Level,
    reply: Vec<u8>,
    spi_err: TSPIERR,
    driven: Result<(), TPINERR>,
    polled: Result<bool, TPINERR>,
)
    ensures
        ({
            let spi = StepView::Spi { ops, fault };
            let received = Event::<TSPIERR, TPINERR>::Spi(Ok(reply));
            let broken = Event::<TSPIERR, TPINERR>::Spi(Err(spi_err));
            let driven = Event::<TSPIERR, TPINERR>::Driven(driven);
            let polled = Event::<TSPIERR, TPINERR>::Polled(polled);
            &&& spi.can_give(received) <==> reply@.len() == taken(ops)
            &&& spi.can_give(broken)
            &&& !spi.can_give(driven)
            &&& !spi.can_give(polled)
            &&& !StepView::Nrst(level).can_give(received)
            &&& !StepView::Nrst(level).can_give(broken)
            &&& StepView::Nrst(level).can_give(driven)
            &&& !StepView::Nrst(level).can_give(polled)
            &&& !StepView::BusyLow.can_give(received)
            &&& !StepView::BusyLow.can_give(broken)
            &&& !StepView::BusyLow.can_give(driven)
            &&& StepView::BusyLow.can_give(polled)
            &&& !StepView::Dio1High.can_give(received)
            &&& !StepView::Dio1High.can_give(broken)
            &&& !StepView::Dio1High.can_give(driven)
            &&& StepView::Dio1High.can_give(polled)
        }),
{
}

/// A pin can be watched where it can be polled.
pub proof fn law_watching_is_waiting<TSPIERR, TPINERR>(
    step: StepView,
    watched: Result<(), TPINERR>,
    polled: Result<bool, TPINERR>,
)
    ensures
        step.can_give(Event::<TSPIERR, TPINERR>::Awaited(watched)) <==> step.can_give(
            Event::<TSPIERR, TPINERR>::Polled(polled),
        ),
        step.waits() <==> step == StepView::BusyLow || step == StepView::Dio1High,
{
}

/// Where a call stands after an event. A failed transaction, a pin that cannot be driven
/// and one that cannot be watched end the call, in an error that holds the one they gave.
/// A pin that still has to change is polled again. After anything else the next step is
/// due, and after the last one the call is finished.
pub proof fn law_after_an_event<TSPIERR, TPINERR>(
    plan: Seq<StepView>,
    event: Event<TSPIERR, TPINERR>,
)
    requires
        plan.len() > 0,
        plan[0].can_give(event),
    ensures
        match event {
            Event::Spi(Err(err)) => {
                &&& (plan[0]->fault == SpiFault::Write ==> advance(plan, event) == Outcome::<
                    TSPIERR,
                    TPINERR,
                >::Failed(SxError::Spi(SpiError::Write(err))))
                &&& (plan[0]->fault == SpiFault::Transfer ==> advance(plan, event) == Outcome::<
                    TSPIERR,
                    TPINERR,
                >::Failed(SxError::Spi(SpiError::Transfer(err))))
            },
            Event::Driven(Err(err)) => advance(plan, event) == Outcome::<TSPIERR, TPINERR>::Failed(
                SxError::Pin(PinError::Output(err)),
            ),
            Event::Awaited(Err(err)) => advance(plan, event) == Outcome::<TSPIERR, TPINERR>::Failed(
                SxError::Pin(PinError::Input(err)),
            ),
            Event::Polled(Ok(true)) => advance(plan, event) == Outcome::<TSPIERR, TPINERR>::Running(
                plan,
            ),
            _ => if plan.len() == 1 {
                advance(plan, event) is Finished
            } else {
                advance(plan, event) matches Outcome::Running(left) && left.len() == plan.len() - 1
                    && forall|i: int| 0 <= i < left.len() ==> #[trigger] left[i] == plan[i + 1]
            },
        },
{
}

} // verus!
