//! What ending a connection is for.

use crate::error::ErrorView;
use crate::exchange::{Effect, Reply, ReplyKind, Request, Signal, StepView};
use crate::handler::disconnect::{
    disconnect_out, disconnect_start, disconnect_step, step_next, step_phase, DisconnectPhase,
};
use crate::handler::HandlerView;
use crate::models::Peripheral;
use vstd::prelude::*;

verus! {

/// Nothing of a connection is held any more, and all else is as it was.
pub open spec fn over<D, N>(before: HandlerView<D, N>, after: HandlerView<D, N>) -> bool {
    &&& after.connected_dev is None
    &&& !after.connected
    &&& after.listeners.len() == 0
    &&& after.characs.len() == 0
    &&& after.listen_task is None
    &&& after.on_disconnect is Unset
    &&& after.devices == before.devices
    &&& after.adapter == before.adapter
    &&& after.event_pump == before.event_pump
    &&& after.guest == before.guest
    &&& after.connection_update_channel == before.connection_update_channel
    &&& after.scan_update_channel == before.scan_update_channel
    &&& after.scan_task == before.scan_task
    &&& after.tasks == before.tasks
    &&& after.timeouts == before.timeouts
    &&& after.write_timeout_in_ms == before.write_timeout_in_ms
    &&& after.skip_waiting_for_write_to_complete == before.skip_waiting_for_write_to_complete
    &&& after.allow_ibeacons == before.allow_ibeacons
    &&& after.signals != before.signals
}

/// The effects tell the host that a connection is over: the notification task is stopped and
/// the callback is run where there is one, the update channels are told, and those who wait are
/// woken, each once and in this order.
pub open spec fn tells_the_end<D, N>(before: HandlerView<D, N>, effects: Seq<Effect<D>>) -> bool {
    let stops: int = if before.listen_task is Some {
        1
    } else {
        0
    };
    let runs: int = if before.on_disconnect is Unset {
        0
    } else {
        1
    };
    &&& effects.len() == stops + runs + 2
    &&& stops == 1 ==> effects[0] == Effect::<D>::AbortNotify(before.listen_task->0)
    &&& runs == 1 ==> effects[stops] == Effect::RunDisconnect(before.on_disconnect)
    &&& effects[stops + runs] == Effect::<D>::ConnectionUpdate(false)
    &&& effects[stops + runs + 1] == Effect::<D>::Signal(false)
}

/// Dropping the traces of a connection leaves nothing of it and tells everybody.
pub proof fn clearing_ends_the_connection<D, N>(h: HandlerView<D, N>)
    ensures
        over(h, h.cleared()),
        tells_the_end(h, h.clear_effects()),
{
    assert(h.signals.wrapping_add(1) != h.signals);
}

/// Without a device a disconnect is refused, and nothing is asked of the backend.
pub proof fn nothing_to_disconnect_is_an_error<D, N>(h: HandlerView<D, N>)
    ensures
        disconnect_start(h) is Done <==> h.connected_dev is None,
        h.connected_dev is None ==> disconnect_start(h) == StepView::<DisconnectPhase>::Done(
            Err(ErrorView::NoDeviceConnected),
        ),
{
}

/// A disconnect of a device that is held asks the backend whether the device is connected and
/// then, whatever it answers and whatever has happened since, to disconnect that device. Until
/// then nothing changes. Whether that works or not, the disconnect goes on: it waits for the
/// end of the link, for as long as the time limit of disconnects says, if the link was up on
/// both sides, and is over at once otherwise.
pub proof fn disconnects_always_reach_the_backend<D, N>(
    h: HandlerView<D, N>,
    device: Peripheral,
    h1: HandlerView<D, N>,
    answer: Reply,
    h2: HandlerView<D, N>,
    outcome: Reply,
)
    requires
        h.connected_dev == Some(device),
        answer.spec_kind() == ReplyKind::Flag,
        outcome.spec_kind() == ReplyKind::Plain,
    ensures
        ({
            let e = Seq::<Effect<D>>::empty();
            let start = disconnect_start(h);
            let checking = step_phase(start)->0;
            let told = disconnect_step(h1, checking, answer);
            let telling = step_phase(told)->0;
            let last = disconnect_step(h2, telling, outcome);
            let end = disconnect_out(h2, e, telling, outcome);
            &&& step_next(start) is Ask && step_next(start)->Ask_0 == Request::IsConnected(device)
            &&& step_next(told) is Ask && step_next(told)->Ask_0 == Request::Disconnect(device)
            &&& disconnect_out(h1, e, checking, answer).h == h1
            &&& disconnect_out(h1, e, checking, answer).effects == e
            &&& if h.connected && answer == Reply::Flag(Ok(true)) {
                &&& step_next(last) is Ask
                &&& step_next(last)->Ask_0 == Request::AwaitSignal {
                    seen: h.signals,
                    timeout: Some(h2.timeouts.disconnect),
                }
                &&& end.h == h2
                &&& end.effects == e
            } else {
                &&& last.succeeded()
                &&& over(h2, end.h)
                &&& tells_the_end(h2, end.effects)
            }
        }),
{
    clearing_ends_the_connection(h2);
    assert(Seq::<Effect<D>>::empty() + h2.clear_effects() =~= h2.clear_effects());
}

/// The wait for the end of the link always ends well. Where the adapter has reported the end,
/// its event has done the rest; otherwise the connection is over now, and everybody is told.
pub proof fn waiting_for_the_end_ends_well<D, N>(
    h: HandlerView<D, N>,
    device: Peripheral,
    h1: HandlerView<D, N>,
    h2: HandlerView<D, N>,
    outcome: Reply,
    h3: HandlerView<D, N>,
    signal: Signal,
)
    requires
        h.connected_dev == Some(device),
        h.connected,
        outcome.spec_kind() == ReplyKind::Plain,
    ensures
        ({
            let e = Seq::<Effect<D>>::empty();
            let checking = step_phase(disconnect_start(h))->0;
            let telling = step_phase(disconnect_step(h1, checking, Reply::Flag(Ok(true))))->0;
            let waiting = step_phase(disconnect_step(h2, telling, outcome));
            let end = disconnect_out(h3, e, waiting->0, Reply::Signal(signal));
            &&& waiting is Some
            &&& disconnect_step(h3, waiting->0, Reply::Signal(signal)).succeeded()
            &&& if signal == Signal::Changed && !h3.connected {
                end.h == h3 && end.effects == e
            } else {
                over(h3, end.h) && tells_the_end(h3, end.effects)
            }
        }),
{
    clearing_ends_the_connection(h3);
    assert(Seq::<Effect<D>>::empty() + h3.clear_effects() =~= h3.clear_effects());
}

} // verus!
