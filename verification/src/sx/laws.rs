//! What holds of every call, and of calls taken together.
use vstd::prelude::*;

use super::bus::{
    advance, performed, possible, run, sent, taken, Event, Level, OperationView, Outcome, SpiFault,
    StepView, Verdict,
};
use super::call::Response;
use super::command::{
    init_plan, message_params, reset_plan, set_sync_word, settled, wait_on_busy_plan,
    write_bytes_plan, Command,
};
use super::err::SxError;
use super::layout::law_set_sync_word;
use crate::conf::Config;
use crate::endian::{be16, join16, law_be16_round_trip, law_be32_injective};
use crate::op::{
    IrqMask, IrqStatus, LoRaCrcType, PacketParams, RxTxTimeout, StandbyConfig, IRQ_ALL, STBY_RC,
};
use vstd::std_specs::convert::FromSpec;

verus! {

/// The steps of `plan` that are over after `events`, in the order in which they
/// were performed.
pub open spec fn passed<TSPIERR, TPINERR>(
    plan: Seq<StepView>,
    events: Seq<Event<TSPIERR, TPINERR>>,
) -> Seq<StepView>
    decreases events.len(),
{
    if events.len() == 0 {
        Seq::empty()
    } else {
        let now = if plan[0].verdict(events[0]) is Advance {
            seq![plan[0]]
        } else {
            Seq::empty()
        };
        match advance(plan, events[0]) {
            Outcome::Running(left) => now + passed(left, events.drop_first()),
            _ => now,
        }
    }
}

/// A call passes its steps in the order of its plan, and leaves none out: what is
/// over and what is left make up the plan. A call that is finished has passed every
/// step; one that failed has passed those before the step that failed.
pub proof fn law_steps_in_order<TSPIERR, TPINERR>(
    plan: Seq<StepView>,
    events: Seq<Event<TSPIERR, TPINERR>>,
)
    requires
        plan.len() > 0,
    ensures
        match run(plan, events) {
            Outcome::Running(left) => left.len() > 0 && passed(plan, events) + left == plan,
            Outcome::Finished => passed(plan, events) == plan,
            Outcome::Failed(_) => passed(plan, events).len() < plan.len() && passed(plan, events)
                == plan.take(passed(plan, events).len() as int),
        },
    decreases events.len(),
{
    if events.len() > 0 {
        match advance(plan, events[0]) {
            Outcome::Running(left) => {
                law_steps_in_order(left, events.drop_first());
                let rest = passed(left, events.drop_first());
                if plan[0].verdict(events[0]) is Advance {
                    assert(plan =~= seq![plan[0]] + left);
                    match run(plan, events) {
                        Outcome::Failed(_) => {
                            assert(passed(plan, events) =~= plan.take(rest.len() as int + 1));
                        },
                        Outcome::Running(last) => {
                            assert(passed(plan, events) + last =~= plan);
                        },
                        Outcome::Finished => {},
                    }
                } else {
                    assert(passed(plan, events) =~= rest);
                }
            },
            _ => {
                assert(plan.len() == 1 ==> plan =~= seq![plan[0]]);
            },
        }
    }
}

/// The steps of `steps` that are no waits, in order.
pub open spec fn without_waits(steps: Seq<StepView>) -> Seq<StepView>
    decreases steps.len(),
{
    if steps.len() == 0 {
        Seq::empty()
    } else {
        (if steps[0].waits() {
            Seq::empty()
        } else {
            seq![steps[0]]
        }) + without_waits(steps.drop_first())
    }
}

/// A call performs its transactions, and drives its pins, in the order of its plan and
/// once each, however often it polls a pin. A call that is finished has performed all of
/// them, one that goes on will perform the others, and one that failed has performed
/// the first of them.
pub proof fn law_each_step_is_performed_once<TSPIERR, TPINERR>(
    plan: Seq<StepView>,
    events: Seq<Event<TSPIERR, TPINERR>>,
)
    requires
        plan.len() > 0,
        possible(plan, events),
    ensures
        match run(plan, events) {
            Outcome::Running(left) => without_waits(performed(plan, events)) + without_waits(left)
                == without_waits(plan),
            Outcome::Finished => without_waits(performed(plan, events)) == without_waits(plan),
            Outcome::Failed(_) => without_waits(performed(plan, events)).is_prefix_of(
                without_waits(plan),
            ),
        },
    decreases events.len(),
{
    if events.len() == 0 {
        assert(without_waits(performed(plan, events)) + without_waits(plan) =~= without_waits(
            plan,
        ));
    } else {
        let all = performed(plan, events);
        let first = if plan[0].waits() {
            Seq::empty()
        } else {
            seq![plan[0]]
        };
        match advance(plan, events[0]) {
            Outcome::Running(left) => {
                law_each_step_is_performed_once(left, events.drop_first());
                let rest = performed(left, events.drop_first());
                assert(all.drop_first() =~= rest);
                assert(without_waits(all) == first + without_waits(rest));
                if plan[0].verdict(events[0]) is Repeat {
                    assert(without_waits(all) =~= without_waits(rest));
                } else {
                    assert(without_waits(plan) == first + without_waits(left));
                    match run(plan, events) {
                        Outcome::Running(last) => {
                            assert(without_waits(all) + without_waits(last) =~= without_waits(plan));
                        },
                        Outcome::Finished => {},
                        Outcome::Failed(_) => {
                            let n = without_waits(rest).len() as int;
                            assert(without_waits(rest) =~= without_waits(left).subrange(0, n));
                            assert(without_waits(all) =~= without_waits(plan).subrange(
                                0,
                                first.len() + n,
                            ));
                        },
                    }
                }
            },
            _ => {
                reveal_with_fuel(without_waits, 2);
                assert(without_waits(all) =~= first);
                assert(without_waits(plan).subrange(0, first.len() as int) =~= first);
            },
        }
    }
}

/// A call performs one step for each event, until it is over.
pub proof fn law_one_step_per_event<TSPIERR, TPINERR>(
    plan: Seq<StepView>,
    events: Seq<Event<TSPIERR, TPINERR>>,
)
    requires
        run(plan, events) is Running,
    ensures
        performed(plan, events).len() == events.len(),
    decreases events.len(),
{
    if events.len() > 0 {
        law_one_step_per_event(advance(plan, events[0])->Running_0, events.drop_first());
    }
}

/// A call that is over stays as it is, and performs nothing more.
pub proof fn law_over_is_over<TSPIERR, TPINERR>(
    plan: Seq<StepView>,
    events: Seq<Event<TSPIERR, TPINERR>>,
    later: Seq<Event<TSPIERR, TPINERR>>,
)
    requires
        !(run(plan, events) is Running),
    ensures
        run(plan, events + later) == run(plan, events),
        performed(plan, events + later) == performed(plan, events),
    decreases events.len(),
{
    if events.len() > 0 {
        assert((events + later)[0] == events[0]);
        if let Outcome::Running(left) = advance(plan, events[0]) {
            law_over_is_over(left, events.drop_first(), later);
            assert((events + later).drop_first() =~= events.drop_first() + later);
        }
    }
}

/// A call fails with the error of the last step it performed.
pub proof fn law_failure_is_of_last_step<TSPIERR, TPINERR>(
    plan: Seq<StepView>,
    events: Seq<Event<TSPIERR, TPINERR>>,
    err: SxError<TSPIERR, TPINERR, TPINERR>,
)
    requires
        run(plan, events) == Outcome::<TSPIERR, TPINERR>::Failed(err),
    ensures
        0 < performed(plan, events).len() <= events.len(),
        performed(plan, events).last().verdict(events[performed(plan, events).len() - 1])
            == Verdict::<TSPIERR, TPINERR>::Fail(err),
    decreases events.len(),
{
    if let Outcome::Running(left) = advance(plan, events[0]) {
        law_failure_is_of_last_step(left, events.drop_first(), err);
        let rest = performed(left, events.drop_first());
        assert(performed(plan, events) =~= seq![plan[0]] + rest);
        assert(performed(plan, events).last() == rest.last());
        assert(events.drop_first()[rest.len() - 1] == events[rest.len() as int]);
    }
}

/// A call fails only where the bus or a pin did.
pub proof fn law_errors_are_of_bus_and_pins<TSPIERR, TPINERR>(
    plan: Seq<StepView>,
    events: Seq<Event<TSPIERR, TPINERR>>,
    err: SxError<TSPIERR, TPINERR, TPINERR>,
)
    requires
        run(plan, events) == Outcome::<TSPIERR, TPINERR>::Failed(err),
    ensures
        err is Spi || err is Pin,
{
    law_failure_is_of_last_step(plan, events, err);
}

/// A call that does not drive the reset pin never ends in a failed pin output: it fails
/// of the bus, or of a pin that it watches.
pub proof fn law_output_errors_are_of_driven_pins<TSPIERR, TPINERR>(
    plan: Seq<StepView>,
    events: Seq<Event<TSPIERR, TPINERR>>,
    err: SxError<TSPIERR, TPINERR, TPINERR>,
)
    requires
        plan.len() > 0,
        forall|i: int| 0 <= i < plan.len() ==> !(#[trigger] plan[i] is Nrst),
        possible(plan, events),
        run(plan, events) == Outcome::<TSPIERR, TPINERR>::Failed(err),
    ensures
        err is Spi || (err matches SxError::Pin(pin_err) && pin_err is Input),
    decreases events.len(),
{
    if let Outcome::Running(left) = advance(plan, events[0]) {
        law_output_errors_are_of_driven_pins(left, events.drop_first(), err);
    }
}

/// Sending a message never ends in a failed pin output.
pub proof fn law_message_drives_no_pin<TSPIERR, TPINERR>(
    data: Seq<u8>,
    timeout: RxTxTimeout,
    preamble_len: u16,
    crc_type: LoRaCrcType,
    events: Seq<Event<TSPIERR, TPINERR>>,
    err: SxError<TSPIERR, TPINERR, TPINERR>,
)
    requires
        possible(write_bytes_plan(data, timeout, preamble_len, crc_type), events),
        run(write_bytes_plan(data, timeout, preamble_len, crc_type), events) == Outcome::<
            TSPIERR,
            TPINERR,
        >::Failed(err),
    ensures
        err is Spi || (err matches SxError::Pin(pin_err) && pin_err is Input),
{
    law_output_errors_are_of_driven_pins(
        write_bytes_plan(data, timeout, preamble_len, crc_type),
        events,
        err,
    );
}

/// Where the pins are polled, and driven without an error, a call fails only where
/// the bus did.
pub proof fn law_polling_calls_fail_of_the_bus<TSPIERR, TPINERR>(
    plan: Seq<StepView>,
    events: Seq<Event<TSPIERR, TPINERR>>,
    err: SxError<TSPIERR, TPINERR, TPINERR>,
)
    requires
        run(plan, events) == Outcome::<TSPIERR, TPINERR>::Failed(err),
        forall|i: int|
            0 <= i < events.len() ==> (#[trigger] events[i] is Spi || events[i] is Polled
                || events[i] == Event::<TSPIERR, TPINERR>::Driven(Ok(()))),
    ensures
        err is Spi,
{
    law_failure_is_of_last_step(plan, events, err);
}

/// Calls that follow one another are carried out one after the other: the second is
/// begun when the first is finished, and never if it failed.
pub proof fn law_chain<TSPIERR, TPINERR>(
    first: Seq<StepView>,
    second: Seq<StepView>,
    events: Seq<Event<TSPIERR, TPINERR>>,
    later: Seq<Event<TSPIERR, TPINERR>>,
)
    requires
        first.len() > 0,
        second.len() > 0,
    ensures
        match run(first, events) {
            Outcome::Running(left) => run(first + second, events) == Outcome::<
                TSPIERR,
                TPINERR,
            >::Running(left + second) && performed(first + second, events) == performed(
                first,
                events,
            ),
            Outcome::Finished => performed(first, events).len() == events.len() ==> {
                &&& run(first + second, events + later) == run(second, later)
                &&& performed(first + second, events + later) == performed(first, events)
                    + performed(second, later)
            },
            Outcome::Failed(err) => run(first + second, events) == Outcome::<
                TSPIERR,
                TPINERR,
            >::Failed(err) && performed(first + second, events) == performed(first, events),
        },
    decreases events.len(),
{
    let both = first + second;
    if events.len() > 0 {
        assert(both[0] == first[0]);
        assert((events + later)[0] == events[0]);
        assert((events + later).drop_first() =~= events.drop_first() + later);
        assert(both.drop_first() =~= first.drop_first() + second);
        match advance(first, events[0]) {
            Outcome::Running(left) => {
                law_chain(left, second, events.drop_first(), later);
                assert(advance(both, events[0]) == Outcome::<TSPIERR, TPINERR>::Running(
                    left + second,
                ));
                assert(performed(first, events) =~= seq![first[0]] + performed(
                    left,
                    events.drop_first(),
                ));
                assert(performed(both, events + later) =~= seq![first[0]] + performed(
                    left + second,
                    events.drop_first() + later,
                ));
                if run(first, events) is Finished && performed(first, events).len()
                    == events.len() {
                    assert(performed(both, events + later) =~= performed(first, events) + performed(
                        second,
                        later,
                    ));
                }
            },
            Outcome::Finished => {
                assert(first.drop_first() + second =~= second);
                if events.len() == 1 {
                    assert(events.drop_first() + later =~= later);
                }
            },
            Outcome::Failed(_) => {},
        }
    }
}

/// However often a pin is read before it has changed, the call stands where it
/// stood.
pub proof fn law_polling_changes_nothing<TSPIERR, TPINERR>(
    plan: Seq<StepView>,
    polls: Seq<Event<TSPIERR, TPINERR>>,
    later: Seq<Event<TSPIERR, TPINERR>>,
)
    requires
        forall|i: int|
            0 <= i < polls.len() ==> #[trigger] polls[i] == Event::<TSPIERR, TPINERR>::Polled(
                Ok(true),
            ),
    ensures
        run(plan, polls + later) == run(plan, later),
    decreases polls.len(),
{
    if polls.len() > 0 {
        assert((polls + later)[0] == polls[0]);
        assert((polls + later).drop_first() =~= polls.drop_first() + later);
        law_polling_changes_nothing(plan, polls.drop_first(), later);
    } else {
        assert(polls + later =~= later);
    }
}

/// A call goes on from a pin that was polled until it changed as it does from one
/// that was watched.
pub proof fn law_polling_agrees_with_watching<TSPIERR, TPINERR>(
    plan: Seq<StepView>,
    later: Seq<Event<TSPIERR, TPINERR>>,
)
    ensures
        run(plan, seq![Event::<TSPIERR, TPINERR>::Polled(Ok(false))] + later) == run(
            plan,
            seq![Event::<TSPIERR, TPINERR>::Awaited(Ok(()))] + later,
        ),
{
    let polled = seq![Event::<TSPIERR, TPINERR>::Polled(Ok(false))] + later;
    let awaited = seq![Event::<TSPIERR, TPINERR>::Awaited(Ok(()))] + later;
    assert(polled.drop_first() =~= later);
    assert(awaited.drop_first() =~= later);
}

/// The step gives the modem a command.
pub open spec fn commands(step: StepView) -> bool {
    step matches StepView::Spi { ops, .. } && sent(ops).len() > 0
}

/// After each command of `plan` the modem is waited for.
pub open spec fn settles(plan: Seq<StepView>) -> bool {
    forall|i: int|
        0 <= i < plan.len() && commands(#[trigger] plan[i]) ==> i + 2 < plan.len() && plan.subrange(
            i + 1,
            i + 3,
        ) == wait_on_busy_plan()
}

proof fn lemma_settles_joined(first: Seq<StepView>, second: Seq<StepView>)
    requires
        settles(first),
        settles(second),
    ensures
        settles(first + second),
{
    let both = first + second;
    assert forall|i: int| 0 <= i < both.len() && commands(#[trigger] both[i]) implies i + 2
        < both.len() && both.subrange(i + 1, i + 3) == wait_on_busy_plan() by {
        if i < first.len() {
            assert(both[i] == first[i]);
            assert(both.subrange(i + 1, i + 3) =~= first.subrange(i + 1, i + 3));
        } else {
            let j = i - first.len();
            assert(both[i] == second[j]);
            assert(both.subrange(i + 1, i + 3) =~= second.subrange(j + 1, j + 3));
        }
    }
}

proof fn lemma_waiting_settles()
    ensures
        settles(wait_on_busy_plan()),
        settles(reset_plan()),
        settles(Seq::empty()),
{
    reveal_with_fuel(sent, 2);
}

proof fn lemma_settled_settles(command: Command)
    ensures
        settles(settled(command)),
{
    reveal_with_fuel(sent, 2);
    let plan = settled(command);
    assert(plan.subrange(1, 3) =~= wait_on_busy_plan());
    assert forall|i: int| 0 <= i < plan.len() && commands(#[trigger] plan[i]) implies i == 0 by {}
}

/// An initialization resets the modem and waits for it, and waits for it again after
/// each command.
pub proof fn law_init_settles(conf: Config)
    ensures
        init_plan(conf).take(5) == reset_plan() + wait_on_busy_plan(),
        settles(init_plan(conf)),
{
    lemma_waiting_settles();
    assert forall|c: Command| settles(#[trigger] settled(c)) by {
        lemma_settled_settles(c);
    }
    assert forall|a: Seq<StepView>, b: Seq<StepView>| settles(a) && settles(b) implies settles(
        #[trigger] (a + b),
    ) by {
        lemma_settles_joined(a, b);
    }
    assert(init_plan(conf).take(5) =~= reset_plan() + wait_on_busy_plan());
}

/// From the fourth step on, of any three the first two are a wait for the modem.
spec fn spaced(plan: Seq<StepView>) -> bool {
    &&& plan.len() % 3 == 2
    &&& forall|i: int|
        3 <= i < plan.len() && i % 3 == 0 ==> #[trigger] plan[i] == wait_on_busy_plan()[0]
    &&& forall|i: int|
        3 <= i < plan.len() && i % 3 == 1 ==> #[trigger] plan[i] == wait_on_busy_plan()[1]
}

proof fn lemma_one_more(plan: Seq<StepView>, command: Command) -> (more: Seq<StepView>)
    ensures
        more == plan + settled(command),
        more.len() == plan.len() + 3,
        more[plan.len() as int] == command.step(),
        forall|i: int| 0 <= i < plan.len() ==> #[trigger] more[i] == plan[i],
        spaced(plan) ==> spaced(more),
{
    let more = plan + settled(command);
    if spaced(plan) {
        assert forall|i: int| 3 <= i < more.len() && i % 3 == 0 implies #[trigger] more[i]
            == wait_on_busy_plan()[0] by {
            assert(i < plan.len() ==> more[i] == plan[i]);
        }
        assert forall|i: int| 3 <= i < more.len() && i % 3 == 1 implies #[trigger] more[i]
            == wait_on_busy_plan()[1] by {
            assert(i < plan.len() ==> more[i] == plan[i]);
        }
    }
    more
}

proof fn lemma_none_more(plan: Seq<StepView>) -> (same: Seq<StepView>)
    ensures
        same == plan + Seq::<StepView>::empty(),
        same == plan,
{
    assert(plan + Seq::<StepView>::empty() =~= plan);
    plan
}

/// What an initialization does, step by step. Every command is followed by a delay of
/// 1 us and a wait for the busy pin. The TCXO is configured if, and only if, there are
/// options for it, and the packet parameters are sent if, and only if, there are some,
/// whatever the rest of the configuration is.
pub proof fn law_init_step_by_step(conf: Config)
    ensures
        ({
            let plan = init_plan(conf);
            let t: int = if conf.tcxo_opts is Some {
                3
            } else {
                0
            };
            let p: int = if conf.packet_params is Some {
                3
            } else {
                0
            };
            &&& plan.len() == 41 + t + p
            &&& plan[0] == StepView::Nrst(Level::Low)
            &&& (plan[1] matches StepView::Spi { ops, fault } && fault == SpiFault::Write && ops
                == seq![OperationView::DelayNs(200_000)])
            &&& plan[2] == StepView::Nrst(Level::High)
            &&& (forall|i: int|
                3 <= i < plan.len() && i % 3 == 0 ==> (#[trigger] plan[i] matches StepView::Spi {
                    ops,
                    fault,
                } && fault == SpiFault::Transfer && ops == seq![OperationView::DelayNs(1000)]))
            &&& (forall|i: int|
                3 <= i < plan.len() && i % 3 == 1 ==> #[trigger] plan[i] == StepView::BusyLow)
            &&& plan[5] == (Command::SetStandby { standby: StandbyConfig { code: 0x00 } }).step()
            &&& plan[8] == (Command::SetPacketType { packet_type: conf.packet_type }).step()
            &&& plan[11] == (Command::SetRfFrequency { rf_freq: conf.rf_freq }).step()
            &&& (conf.tcxo_opts matches Some((voltage, delay)) ==> plan[14]
                == (Command::SetDio3AsTcxoCtrl { voltage, delay }).step())
            &&& plan[t + 14] == (Command::Calibrate { param: conf.calib_param }).step()
            &&& plan[t + 17] == (Command::CalibrateImage { freq: conf.image_freq }).step()
            &&& plan[t + 20] == (Command::SetPaConfig { pa_config: conf.pa_config }).step()
            &&& plan[t + 23] == (Command::SetTxParams { tx_params: conf.tx_params }).step()
            &&& plan[t + 26] == (Command::SetBufferBaseAddress { tx: 0x00, rx: 0x00 }).step()
            &&& plan[t + 29] == (Command::SetModParams { mod_params: conf.mod_params }).step()
            &&& (conf.packet_params matches Some(packet_params) ==> plan[t + 32]
                == (Command::SetPacketParams { packet_params }).step())
            &&& plan[t + p + 32] == (Command::SetDioIrqParams {
                irq: conf.dio1_irq_mask,
                dio1: conf.dio1_irq_mask,
                dio2: conf.dio2_irq_mask,
                dio3: conf.dio3_irq_mask,
            }).step()
            &&& plan[t + p + 35] == (Command::SetDio2AsRfSwitchCtrl { enable: true }).step()
            &&& (plan[t + p + 38] matches StepView::Spi { ops, fault } && {
                &&& fault == SpiFault::Write
                &&& ops.len() == 3
                &&& ops[0] == OperationView::Write(seq![0x0Du8])
                &&& ops[1] == OperationView::Write(seq![0x07u8, 0x40u8])
                &&& (ops[2] matches OperationView::Write(w) && w.len() == 2 && w[0] * 256 + w[1]
                    == conf.sync_word)
            })
        }),
{
    let plan = reset_plan() + wait_on_busy_plan();
    assert(spaced(plan));
    let plan = lemma_one_more(
        plan,
        Command::SetStandby { standby: StandbyConfig { code: STBY_RC } },
    );
    let plan = lemma_one_more(plan, Command::SetPacketType { packet_type: conf.packet_type });
    let plan = lemma_one_more(plan, Command::SetRfFrequency { rf_freq: conf.rf_freq });
    let plan = match conf.tcxo_opts {
        Some((voltage, delay)) => lemma_one_more(
            plan,
            Command::SetDio3AsTcxoCtrl { voltage, delay },
        ),
        None => lemma_none_more(plan),
    };
    let plan = lemma_one_more(plan, Command::Calibrate { param: conf.calib_param });
    let plan = lemma_one_more(plan, Command::CalibrateImage { freq: conf.image_freq });
    let plan = lemma_one_more(plan, Command::SetPaConfig { pa_config: conf.pa_config });
    let plan = lemma_one_more(plan, Command::SetTxParams { tx_params: conf.tx_params });
    let plan = lemma_one_more(plan, Command::SetBufferBaseAddress { tx: 0x00, rx: 0x00 });
    let plan = lemma_one_more(plan, Command::SetModParams { mod_params: conf.mod_params });
    let plan = match conf.packet_params {
        Some(packet_params) => lemma_one_more(plan, Command::SetPacketParams { packet_params }),
        None => lemma_none_more(plan),
    };
    let plan = lemma_one_more(
        plan,
        Command::SetDioIrqParams {
            irq: conf.dio1_irq_mask,
            dio1: conf.dio1_irq_mask,
            dio2: conf.dio2_irq_mask,
            dio3: conf.dio3_irq_mask,
        },
    );
    let plan = lemma_one_more(plan, Command::SetDio2AsRfSwitchCtrl { enable: true });
    let plan = lemma_one_more(plan, set_sync_word(conf.sync_word));
    assert(plan == init_plan(conf));
    law_set_sync_word(conf.sync_word);
}

/// Two configurations with the same packet parameters both send them, however else they
/// differ, and so with the options of the TCXO. What one plan is longer than the other
/// by comes from these two alone.
pub proof fn law_init_options_are_independent(a: Config, b: Config)
    ensures
        a.packet_params is Some && a.packet_params == b.packet_params ==> ({
            let step = (Command::SetPacketParams { packet_params: a.packet_params->0 }).step();
            init_plan(a).contains(step) && init_plan(b).contains(step)
        }),
        a.tcxo_opts == b.tcxo_opts ==> (a.tcxo_opts matches Some((voltage, delay)) ==> {
            let step = (Command::SetDio3AsTcxoCtrl { voltage, delay }).step();
            init_plan(a).contains(step) && init_plan(b).contains(step)
        }),
        init_plan(a).len() - init_plan(b).len() == (if a.tcxo_opts is Some {
            3int
        } else {
            0
        }) - (if b.tcxo_opts is Some {
            3int
        } else {
            0
        }) + (if a.packet_params is Some {
            3int
        } else {
            0
        }) - (if b.packet_params is Some {
            3int
        } else {
            0
        }),
{
    law_init_step_by_step(a);
    law_init_step_by_step(b);
    let ta: int = if a.tcxo_opts is Some {
        3
    } else {
        0
    };
    let tb: int = if b.tcxo_opts is Some {
        3
    } else {
        0
    };
    assert(init_plan(a)[ta + 32] == init_plan(a)[ta + 32]);
    assert(init_plan(b)[tb + 32] == init_plan(b)[tb + 32]);
    assert(init_plan(a)[14] == init_plan(a)[14]);
    assert(init_plan(b)[14] == init_plan(b)[14]);
}

/// What sending a message does, step by step, whatever the message and the timeout are:
/// the data is stored, described and sent, and the interrupts are cleared after the modem
/// was busy no more and DIO1 had gone high.
pub proof fn law_message_step_by_step(
    data: Seq<u8>,
    timeout: RxTxTimeout,
    preamble_len: u16,
    crc_type: LoRaCrcType,
)
    ensures
        ({
            let plan = write_bytes_plan(data, timeout, preamble_len, crc_type);
            &&& plan.len() == 7
            &&& (plan[0] matches StepView::Spi { ops, fault } && fault == SpiFault::Write && ops
                == seq![OperationView::Write(seq![0x0Eu8, 0x00u8]), OperationView::Write(data)])
            &&& (plan[1] matches StepView::Spi { ops, fault } && {
                &&& fault == SpiFault::Write
                &&& ops.len() == 2
                &&& ops[0] == OperationView::Write(seq![0x8Cu8])
                &&& (ops[1] matches OperationView::Write(w) && {
                    &&& w.len() == 9
                    &&& w[0] * 256 + w[1] == preamble_len
                    &&& w[2] == 0
                    &&& w[3] == data.len() % 256
                    &&& w[4] == crc_type.code
                    &&& w[5] == 0 && w[6] == 0 && w[7] == 0 && w[8] == 0
                })
            })
            &&& (plan[2] matches StepView::Spi { ops, fault } && {
                &&& fault == SpiFault::Transfer
                &&& ops.len() == 1
                &&& (ops[0] matches OperationView::TransferInPlace(w) && w.len() == 4 && w[0]
                    == 0x83 && w[1] == timeout.bytes[0] && w[2] == timeout.bytes[1] && w[3]
                    == timeout.bytes[2])
            })
            &&& (plan[3] matches StepView::Spi { ops, fault } && fault == SpiFault::Transfer && ops
                == seq![OperationView::DelayNs(1000)])
            &&& plan[4] == StepView::BusyLow
            &&& plan[5] == StepView::Dio1High
            &&& (plan[6] matches StepView::Spi { ops, fault } && fault == SpiFault::Write && ops
                == seq![
                OperationView::Write(seq![0x02u8]),
                OperationView::Write(seq![0xFFu8, 0xFFu8]),
            ])
        }),
{
    assert(crate::endian::be16(0xFFFF) =~= seq![0xFFu8, 0xFFu8]);
}

/// A call that sends a message finishes only after it has waited for DIO1 to be high.
pub proof fn law_message_is_out<TSPIERR, TPINERR>(
    data: Seq<u8>,
    timeout: RxTxTimeout,
    preamble_len: u16,
    crc_type: LoRaCrcType,
    events: Seq<Event<TSPIERR, TPINERR>>,
)
    requires
        run(write_bytes_plan(data, timeout, preamble_len, crc_type), events) is Finished,
    ensures
        passed(write_bytes_plan(data, timeout, preamble_len, crc_type), events)[5]
            == StepView::Dio1High,
{
    law_message_step_by_step(data, timeout, preamble_len, crc_type);
    law_steps_in_order(write_bytes_plan(data, timeout, preamble_len, crc_type), events);
}

/// A reset pulls the pin low, and lets go of it no less than 100 us later.
pub proof fn law_reset_pulse()
    ensures
        reset_plan().first() == StepView::Nrst(Level::Low),
        reset_plan().last() == StepView::Nrst(Level::High),
        reset_plan()[1] matches StepView::Spi { ops, .. } && ops.len() == 1 && (
        ops[0] matches OperationView::DelayNs(ns) && ns >= 100_000),
{
}

/// A message is stored where an initialized modem sends from: at the start of the
/// buffer.
pub proof fn law_message_lies_at_tx_base(
    conf: Config,
    data: Seq<u8>,
    timeout: RxTxTimeout,
    preamble_len: u16,
    crc_type: LoRaCrcType,
)
    ensures
        init_plan(conf).contains((Command::SetBufferBaseAddress { tx: 0x00, rx: 0x00 }).step()),
        write_bytes_plan(data, timeout, preamble_len, crc_type).first() == (Command::WriteBuffer {
            offset: 0x00,
            data,
        }).step(),
{
    let i: int = 26 + if conf.tcxo_opts is Some {
        3int
    } else {
        0int
    };
    assert(init_plan(conf)[i] == (Command::SetBufferBaseAddress { tx: 0x00, rx: 0x00 }).step());
}

/// The modem is told the length of a message that fits the buffer, and its preamble
/// length and checksum type as they are.
pub proof fn law_message_is_described(len: nat, preamble_len: u16, crc_type: LoRaCrcType)
    ensures
        ({
            let block = PacketParams::from_spec(message_params(len, preamble_len, crc_type)).bytes;
            &&& len < 256 ==> block[3] == len
            &&& join16(block[0], block[1]) == preamble_len
            &&& block[4] == crc_type.code
        }),
{
    law_be16_round_trip(preamble_len);
}

/// The interrupts cleared after a message are all there are.
pub proof fn law_all_interrupts(mask: IrqMask)
    ensures
        mask.bits & IRQ_ALL == mask.bits,
{
    let bits = mask.bits;
    assert(bits & 0xFFFFu16 == bits) by (bit_vector);
}

/// However a command is split into operations, the modem sees its opcode and then its
/// operands.
pub proof fn law_frame(command: Command)
    ensures
        command.frame() == seq![command.opcode()] + command.operands(),
{
    reveal_with_fuel(sent, 6);
    assert(command.frame() =~= seq![command.opcode()] + command.operands());
}

/// The interrupts that are pending are read in the byte order in which they are
/// cleared.
pub proof fn law_interrupts_are_read_as_cleared(mask: IrqMask, status: IrqStatus, first: u8)
    requires
        status.says(seq![first] + (Command::ClearIrqStatus { mask }).operands()),
    ensures
        status.bits == mask.bits,
{
    law_be16_round_trip(mask.bits);
}

/// A register is read at the address at which it is written, and a place in the
/// buffer at the offset at which it is written.
pub proof fn law_reads_where_it_writes(addr: u16, offset: u8, data: Seq<u8>, len: usize)
    ensures
        (Command::WriteRegister { addr, data }).operands().take(2) == (Command::ReadRegister {
            addr,
            len,
        }).operands(),
        (Command::WriteBuffer { offset, data }).operands()[0] == (Command::ReadBuffer {
            offset,
            len,
        }).operands()[0],
{
    assert((be16(addr) + data).take(2) =~= be16(addr));
}

proof fn lemma_same_array<const N: usize>(a: [u8; N], b: [u8; N])
    requires
        a@ == b@,
    ensures
        a == b,
{
    assert(a =~= b);
}

proof fn lemma_same_word(x: u16, y: u16, bytes: Seq<u8>, at: int)
    requires
        0 <= at <= bytes.len() - 2,
        be16(x) == bytes.subrange(at, at + 2),
        be16(y) == bytes.subrange(at, at + 2),
    ensures
        x == y,
{
    law_be16_round_trip(x);
    law_be16_round_trip(y);
}

/// The modem can tell the commands apart: two commands that send the same bytes, and
/// take in as many, are the same command with the same operands.
pub proof fn law_frames_are_unambiguous(a: Command, b: Command)
    requires
        a.frame() == b.frame(),
        taken(a.ops()) == taken(b.ops()),
    ensures
        a == b,
{
    law_frame(a);
    law_frame(b);
    assert(a.opcode() == a.frame()[0]);
    assert(b.opcode() == b.frame()[0]);
    assert(a.operands() =~= a.frame().skip(1));
    assert(b.operands() =~= b.frame().skip(1));
    lemma_same_operands(a, b);
}

proof fn lemma_same_operands(a: Command, b: Command)
    requires
        a.opcode() == b.opcode(),
        a.operands() == b.operands(),
        taken(a.ops()) == taken(b.ops()),
    ensures
        a == b,
{
    let bytes = a.operands();
    match (a, b) {
        (Command::ClearIrqStatus { mask: x }, Command::ClearIrqStatus { mask: y }) => {
            law_be16_round_trip(x.bits);
            law_be16_round_trip(y.bits);
        },
        (
            Command::SetDioIrqParams { irq: x0, dio1: x1, dio2: x2, dio3: x3 },
            Command::SetDioIrqParams { irq: y0, dio1: y1, dio2: y2, dio3: y3 },
        ) => {
            assert(be16(x0.bits) =~= bytes.subrange(0, 2));
            assert(be16(y0.bits) =~= bytes.subrange(0, 2));
            assert(be16(x1.bits) =~= bytes.subrange(2, 4));
            assert(be16(y1.bits) =~= bytes.subrange(2, 4));
            assert(be16(x2.bits) =~= bytes.subrange(4, 6));
            assert(be16(y2.bits) =~= bytes.subrange(4, 6));
            assert(be16(x3.bits) =~= bytes.subrange(6, 8));
            assert(be16(y3.bits) =~= bytes.subrange(6, 8));
            lemma_same_word(x0.bits, y0.bits, bytes, 0);
            lemma_same_word(x1.bits, y1.bits, bytes, 2);
            lemma_same_word(x2.bits, y2.bits, bytes, 4);
            lemma_same_word(x3.bits, y3.bits, bytes, 6);
        },
        (
            Command::WriteRegister { addr: x, data: xs },
            Command::WriteRegister { addr: y, data: ys },
        ) => {
            assert(be16(x) =~= bytes.subrange(0, 2) && be16(y) =~= bytes.subrange(0, 2));
            lemma_same_word(x, y, bytes, 0);
            assert(xs =~= bytes.skip(2) && ys =~= bytes.skip(2));
        },
        (
            Command::WriteBuffer { offset: x, data: xs },
            Command::WriteBuffer { offset: y, data: ys },
        ) => {
            assert(x == bytes[0] && y == bytes[0]);
            assert(xs =~= bytes.skip(1) && ys =~= bytes.skip(1));
        },
        (Command::ReadRegister { addr: x, .. }, Command::ReadRegister { addr: y, .. }) => {
            law_be16_round_trip(x);
            law_be16_round_trip(y);
            reveal_with_fuel(taken, 4);
        },
        (Command::ReadBuffer { offset: x, .. }, Command::ReadBuffer { offset: y, .. }) => {
            assert(x == bytes[0] && y == bytes[0]);
            reveal_with_fuel(taken, 3);
        },
        (Command::SetRx { timeout: x }, Command::SetRx { timeout: y }) => {
            lemma_same_array(x.bytes, y.bytes);
        },
        (Command::SetTx { timeout: x }, Command::SetTx { timeout: y }) => {
            lemma_same_array(x.bytes, y.bytes);
        },
        (Command::SetRfFrequency { rf_freq: x }, Command::SetRfFrequency { rf_freq: y }) => {
            law_be32_injective(x, y);
        },
        (Command::SetModParams { mod_params: x }, Command::SetModParams { mod_params: y }) => {
            lemma_same_array(x.bytes, y.bytes);
        },
        (
            Command::SetPacketParams { packet_params: x },
            Command::SetPacketParams { packet_params: y },
        ) => {
            lemma_same_array(x.bytes, y.bytes);
        },
        (Command::SetTxParams { tx_params: x }, Command::SetTxParams { tx_params: y }) => {
            lemma_same_array(x.bytes, y.bytes);
        },
        (Command::SetPaConfig { pa_config: x }, Command::SetPaConfig { pa_config: y }) => {
            lemma_same_array(x.bytes, y.bytes);
        },
        (
            Command::SetDio3AsTcxoCtrl { voltage: v, delay: x },
            Command::SetDio3AsTcxoCtrl { voltage: w, delay: y },
        ) => {
            assert(v.code == bytes[0] && w.code == bytes[0]);
            assert(x.bytes@ =~= bytes.skip(1) && y.bytes@ =~= bytes.skip(1));
            lemma_same_array(x.bytes, y.bytes);
        },
        (Command::CalibrateImage { freq: x }, Command::CalibrateImage { freq: y }) => {
            lemma_same_array(x.band, y.band);
        },
        _ => {
            assert(a.operands()[0] == b.operands()[0]);
            assert(a.operands()[1] == b.operands()[1]);
        },
    }
}

} // verus!
