//! What the host was told to do before stays to be done: every step only adds to it.

use crate::error::BackendError;
use crate::exchange::{Effect, Reply, StepView};
use crate::handler::adapter::{adapter_found, adapter_ready};
use crate::handler::connect::{
    address_scan, connect_start, connect_step, hang_up, leave_other, linked, scan_over,
    ConnectCallView, ConnectOut, ConnectPhase,
};
use crate::handler::disconnect::{disconnect_out, DisconnectPhase};
use crate::handler::link::{link_out, link_start, link_step, LinkPhase};
use crate::handler::scan::{
    discover_start, discover_step, stop_start, stop_step, DiscoverPhase, ScanOrder, StopPhase,
};
use crate::handler::services::{services_start, services_step, ServicesCallView};
use crate::handler::{HandlerView, Out};
use vstd::prelude::*;

verus! {

/// A step of a disconnect adds its effects to those that are there.
pub proof fn disconnects_add_effects<D, N>(
    h: HandlerView<D, N>,
    effects: Seq<Effect<D>>,
    phase: DisconnectPhase,
    reply: Reply,
)
    ensures
        disconnect_out(h, effects, phase, reply).effects =~= effects + disconnect_out(
            h,
            Seq::empty(),
            phase,
            reply,
        ).effects,
        disconnect_out(h, effects, phase, reply).h == disconnect_out(
            h,
            Seq::empty(),
            phase,
            reply,
        ).h,
{
}

/// A step of a connection attempt adds its effects to those that are there.
pub proof fn attempts_add_effects<D, N>(
    h: HandlerView<D, N>,
    effects: Seq<Effect<D>>,
    guest: bool,
    phase: LinkPhase,
    reply: Reply,
)
    ensures
        link_out(h, effects, guest, phase, reply).effects =~= effects + link_out(
            h,
            Seq::empty(),
            guest,
            phase,
            reply,
        ).effects,
        link_out(h, effects, guest, phase, reply).h == link_out(
            h,
            Seq::empty(),
            guest,
            phase,
            reply,
        ).h,
{
}

/// So does using an adapter.
pub proof fn adapters_add_effects<D, N>(
    h: HandlerView<D, N>,
    effects: Seq<Effect<D>>,
    found: Result<Vec<u64>, BackendError>,
)
    ensures
        adapter_ready(h, effects).effects =~= effects + adapter_ready(h, Seq::empty()).effects,
        adapter_found(h, effects, found).effects =~= effects + adapter_found(
            h,
            Seq::empty(),
            found,
        ).effects,
{
}

/// The start of a scan adds its effects to those that are there, and does the same whatever
/// these are.
pub proof fn scans_add_effects<D, N>(
    h: HandlerView<D, N>,
    effects: Seq<Effect<D>>,
    order: ScanOrder,
    allow_ibeacons: bool,
    phase: DiscoverPhase,
    reply: Reply,
)
    ensures
        ({
            let a = discover_start(h, effects, order, allow_ibeacons);
            let b = discover_start(h, Seq::empty(), order, allow_ibeacons);
            a.0.effects =~= effects + b.0.effects && a.0.h == b.0.h && a.1 == b.1
        }),
        ({
            let a = discover_step(h, effects, order, allow_ibeacons, phase, reply);
            let b = discover_step(h, Seq::empty(), order, allow_ibeacons, phase, reply);
            a.0.effects =~= effects + b.0.effects && a.0.h == b.0.h && a.1 == b.1
        }),
{
    match reply {
        Reply::Adapters(found) => {
            adapters_add_effects(h, effects, found);
        },
        _ => {},
    }
}

/// So does stopping a scan.
pub proof fn stops_add_effects<D, N>(
    h: HandlerView<D, N>,
    effects: Seq<Effect<D>>,
    phase: StopPhase,
    reply: Reply,
)
    ensures
        ({
            let a = stop_start(h, effects);
            let b = stop_start(h, Seq::empty());
            a.0.effects =~= effects + b.0.effects && a.0.h == b.0.h && a.1 == b.1
        }),
        ({
            let a = stop_step(h, effects, phase, reply);
            let b = stop_step(h, Seq::empty(), phase, reply);
            a.0.effects =~= effects + b.0.effects && a.0.h == b.0.h && a.1 == b.1
        }),
{
    match reply {
        Reply::Adapters(found) => {
            adapters_add_effects(h, effects, found);
        },
        _ => {},
    }
}

/// The two outcomes differ only in that the first has these effects ahead of its own.
pub open spec fn ahead<D, N>(
    effects: Seq<Effect<D>>,
    a: ConnectOut<D, N>,
    b: ConnectOut<D, N>,
) -> bool {
    &&& a.effects =~= effects + b.effects
    &&& a.h == b.h
    &&& a.call == b.call
    &&& a.next == b.next
}

proof fn lemma_linked_ahead<D, N>(
    h: HandlerView<D, N>,
    effects: Seq<Effect<D>>,
    more: Seq<Effect<D>>,
    call: ConnectCallView<D>,
    attempt: u8,
    step: StepView<LinkPhase>,
)
    ensures
        ahead(
            effects,
            linked(Out { h, effects: effects + more }, call, attempt, step),
            linked(Out { h, effects: more }, call, attempt, step),
        ),
{
    assert((effects + more) + h.clear_effects() =~= effects + (more + h.clear_effects()));
}

proof fn lemma_left_ahead<D, N>(
    h: HandlerView<D, N>,
    effects: Seq<Effect<D>>,
    more: Seq<Effect<D>>,
    call: ConnectCallView<D>,
)
    ensures
        ahead(
            effects,
            leave_other(Out { h, effects: effects + more }, call),
            leave_other(Out { h, effects: more }, call),
        ),
        ahead(
            effects,
            hang_up(Out { h, effects: effects + more }, call),
            hang_up(Out { h, effects: more }, call),
        ),
{
    lemma_linked_ahead(h, effects, more, call, 0, link_start(h, call.address));
}

proof fn lemma_scan_over_ahead<D, N>(
    h: HandlerView<D, N>,
    effects: Seq<Effect<D>>,
    call: ConnectCallView<D>,
)
    ensures
        ahead(
            effects,
            scan_over(Out { h, effects }, call),
            scan_over(Out { h, effects: Seq::empty() }, call),
        ),
{
    let (a, _) = stop_start(h, effects);
    let (b, _) = stop_start(h, Seq::<Effect<D>>::empty());
    stops_add_effects(h, effects, StopPhase::Stopping, Reply::Plain(Ok(())));
    assert(a.effects =~= effects + b.effects);
}

/// A call to connect adds its effects to those that are there, and does the same whatever these
/// are.
pub proof fn connects_add_effects<D, N>(
    h: HandlerView<D, N>,
    effects: Seq<Effect<D>>,
    call: ConnectCallView<D>,
    reply: Reply,
)
    ensures
        ahead(
            effects,
            connect_start(h, effects, call),
            connect_start(h, Seq::empty(), call),
        ),
        ahead(
            effects,
            connect_step(h, effects, call, reply),
            connect_step(h, Seq::empty(), call, reply),
        ),
{
    let none = Seq::<Effect<D>>::empty();
    assert(effects + none =~= effects);
    assert(ahead(effects, connect_start(h, effects, call), connect_start(h, none, call))) by {
        lemma_scan_over_ahead(h, effects, call);
        scans_add_effects(
            h,
            effects,
            address_scan(),
            call.allow_ibeacons,
            DiscoverPhase::Stopping,
            reply,
        );
    }
    let a = connect_step(h, effects, call, reply);
    let b = connect_step(h, none, call, reply);
    match call.phase {
        ConnectPhase::Discovering(phase) => {
            scans_add_effects(h, effects, call.order->0, call.allow_ibeacons, phase, reply);
            assert(ahead(effects, a, b));
        },
        ConnectPhase::Collecting => {
            lemma_scan_over_ahead(h, effects, call);
            assert(ahead(effects, a, b));
        },
        ConnectPhase::StoppingScan(phase) => {
            stops_add_effects(h, effects, phase, reply);
            let (out, step) = stop_step(h, none, phase, reply);
            let (out2, _) = stop_step(h, effects, phase, reply);
            assert(out2.effects == effects + out.effects);
            lemma_left_ahead(out.h, effects, out.effects, call);
            assert(ahead(effects, a, b));
        },
        ConnectPhase::Probing => {
            lemma_left_ahead(h, effects, none, call);
            lemma_linked_ahead(h, effects, none, call, 0, link_start(h, call.address));
            assert(ahead(effects, a, b));
        },
        ConnectPhase::HangingUp(phase) => {
            disconnects_add_effects(h, effects, phase, reply);
            let out = disconnect_out(h, none, phase, reply);
            assert(disconnect_out(h, effects, phase, reply).effects == effects + out.effects);
            lemma_linked_ahead(
                out.h,
                effects,
                out.effects,
                call,
                0,
                link_start(out.h, call.address),
            );
            assert(ahead(effects, a, b));
        },
        ConnectPhase::Linking { attempt, link } => {
            attempts_add_effects(h, effects, false, link, reply);
            let out = link_out(h, none, false, link, reply);
            assert(link_out(h, effects, false, link, reply).effects == effects + out.effects);
            lemma_linked_ahead(
                out.h,
                effects,
                out.effects,
                call,
                attempt,
                link_step(h, false, link, reply),
            );
            assert(ahead(effects, a, b));
        },
        ConnectPhase::Pausing { attempt } => {
            lemma_linked_ahead(h, effects, none, call, attempt, link_start(h, call.address));
            assert(ahead(effects, a, b));
        },
        ConnectPhase::TearingDown(phase) => {
            disconnects_add_effects(h, effects, phase, reply);
            assert(ahead(effects, a, b));
        },
        _ => {
            assert(ahead(effects, a, b));
        },
    }
}

/// So does a call for services.
pub proof fn lookups_add_effects<D, N>(
    h: HandlerView<D, N>,
    effects: Seq<Effect<D>>,
    call: ServicesCallView,
    reply: Reply,
)
    ensures
        ({
            let a = services_start(h, effects, call);
            let b = services_start(h, Seq::empty(), call);
            a.effects =~= effects + b.effects && a.h == b.h && a.call == b.call && a.next == b.next
        }),
        ({
            let a = services_step(h, effects, call, reply);
            let b = services_step(h, Seq::empty(), call, reply);
            a.effects =~= effects + b.effects && a.h == b.h && a.call == b.call && a.next == b.next
        }),
{
}

} // verus!
