//! Every call waits for the reply to what it has asked for, and for no other.

use crate::exchange::{
    Effect, NextView, OnDisconnectHandler, Reply, Request, Signal, StepView, Timed,
};
use crate::handler::connect::{
    connect_start, connect_step, hang_up, leave_other, linked, try_link, ConnectCallView,
    ConnectOut, ConnectPhase,
};
use crate::handler::disconnect::{
    disconnect_out, disconnect_start, disconnect_step, DisconnectPhase,
};
use crate::handler::link::{link_out, link_start, link_step, LinkPhase};
use crate::handler::scan::{
    discover_start, discover_step, scan_step, stop_start, stop_step, DiscoverPhase, ScanNext,
    ScanOrder, ScanReply, ScanRequest, ScanTask, StopPhase,
};
use crate::handler::services::{services_start, services_step, ServicesCallView};
use crate::handler::{HandlerView, Out};
use crate::session::{connect_call, services_call};
use vstd::prelude::*;

verus! {

/// Whether the reply can come of the request.
pub open spec fn answers(reply: Reply, request: Request) -> bool {
    match request {
        Request::FindAdapters => reply is Adapters,
        Request::StartScan => reply is Plain,
        Request::StopScan => reply is Plain,
        Request::NextDevices => reply is Devices,
        Request::Retrieve(_) => reply is Plain,
        Request::IsConnected(_) => reply is Flag,
        Request::Connect(_, _) => reply is Connected,
        Request::Disconnect(_) => reply is Plain,
        Request::AwaitSignal { .. } => reply is Signal,
        Request::Sleep(_) => reply is Plain,
        Request::ReadServices(_) => reply is Services,
        Request::DiscoverServices(_, _) => reply is Services,
        Request::ReadState => reply is State,
    }
}

/// The kind of a request is that of the replies that can come of it.
pub proof fn kinds_tell_replies_apart(request: Request, reply: Reply)
    ensures
        request.spec_kind() == reply.spec_kind() <==> answers(reply, request),
{
}

/// The call waits for any reply that can come of what it has asked for, and for no other; if it
/// has returned, it waits for nothing.
pub open spec fn waits<D, N>(r: ConnectOut<D, N>, answer: Reply) -> bool {
    &&& r.call.wf()
    &&& r.call.phase.awaits(answer.spec_kind()) <==> (r.next matches NextView::Ask(request)
        && answers(answer, request))
}

/// A call to connect waits for the reply to the first thing it asks for.
pub proof fn connects_begin_with_a_request<D, N>(
    h: HandlerView<D, N>,
    address: Seq<char>,
    on_disconnect: OnDisconnectHandler<D>,
    allow_ibeacons: bool,
    answer: Reply,
)
    ensures
        waits(
            connect_start(
                h,
                Seq::empty(),
                connect_call(address, on_disconnect, allow_ibeacons),
            ),
            answer,
        ),
{
}

proof fn lemma_linked_waits<D, N>(
    out: Out<D, N>,
    call: ConnectCallView<D>,
    attempt: u8,
    step: StepView<LinkPhase>,
    answer: Reply,
)
    requires
        attempt < 3,
        step matches StepView::Ask(p, q) ==> (p.awaits() == answer.spec_kind() <==> answers(
            answer,
            q,
        )),
    ensures
        waits(linked(out, call, attempt, step), answer),
{
}

proof fn lemma_left_waits<D, N>(out: Out<D, N>, call: ConnectCallView<D>, answer: Reply)
    ensures
        waits(leave_other(out, call), answer),
        waits(hang_up(out, call), answer),
        waits(try_link(out, call, 0), answer),
{
    lemma_linked_waits(out, call, 0, link_start(out.h, call.address), answer);
}

/// A call to connect that goes on waits for the reply to what it asks for then.
pub proof fn connects_wait_for_their_replies<D, N>(
    h: HandlerView<D, N>,
    call: ConnectCallView<D>,
    reply: Reply,
    answer: Reply,
)
    requires
        call.wf(),
        call.phase.awaits(reply.spec_kind()),
    ensures
        waits(connect_step(h, Seq::empty(), call, reply), answer),
{
    let e = Seq::<Effect<D>>::empty();
    let r = connect_step(h, e, call, reply);
    match call.phase {
        ConnectPhase::Discovering(phase) => {
            assert(waits(r, answer));
        },
        ConnectPhase::Collecting => {
            assert(waits(r, answer));
        },
        ConnectPhase::StoppingScan(phase) => {
            let (out, step) = stop_step(h, e, phase, reply);
            lemma_left_waits(out, call, answer);
            assert(waits(r, answer));
        },
        ConnectPhase::Probing => {
            lemma_left_waits(Out { h, effects: e }, call, answer);
            assert(waits(r, answer));
        },
        ConnectPhase::HangingUp(phase) => {
            lemma_left_waits(disconnect_out(h, e, phase, reply), call, answer);
            assert(waits(r, answer));
        },
        ConnectPhase::Linking { attempt, link } => {
            lemma_linked_waits(
                link_out(h, e, false, link, reply),
                call,
                attempt,
                link_step(h, false, link, reply),
                answer,
            );
            assert(waits(r, answer));
        },
        ConnectPhase::Pausing { attempt } => {
            lemma_linked_waits(
                Out { h, effects: e },
                call,
                attempt,
                link_start(h, call.address),
                answer,
            );
            assert(waits(r, answer));
        },
        _ => {
            assert(waits(r, answer));
        },
    }
}

/// Whether the reply can come of a request of a lookup: reading services always works, and
/// a wait without a time limit ends with a signal.
pub open spec fn answers_lookup(reply: Reply, request: Request) -> bool {
    match request {
        Request::ReadServices(_) => reply matches Reply::Services(Timed::Done(_)),
        Request::AwaitSignal { timeout: None, .. } => reply == Reply::Signal(Signal::Changed),
        _ => answers(reply, request),
    }
}

/// A lookup that has asked for something waits for any reply that can come of it, and for no
/// other; one that has returned waits for nothing.
pub proof fn lookups_wait_for_their_replies<D, N>(
    h: HandlerView<D, N>,
    address: Seq<char>,
    call: ServicesCallView,
    reply: Reply,
    answer: Reply,
)
    requires
        call.wf(),
        call.phase.awaits(reply),
    ensures
        ({
            let start = services_start(h, Seq::empty(), services_call(address));
            &&& start.call.wf()
            &&& start.call.phase.awaits(answer) <==> (start.next matches NextView::Ask(request)
                && answers_lookup(answer, request))
        }),
        ({
            let r = services_step(h, Seq::empty(), call, reply);
            &&& r.call.wf()
            &&& r.call.phase.awaits(answer) <==> (r.next matches NextView::Ask(request)
                && answers_lookup(answer, request))
        }),
{
}

/// A part of a call waits for the replies to what it has asked for.
pub proof fn parts_wait_for_their_replies<D, N>(
    h: HandlerView<D, N>,
    order: ScanOrder,
    allow_ibeacons: bool,
    starting: DiscoverPhase,
    stopping: StopPhase,
    disconnecting: DisconnectPhase,
    reply: Reply,
    answer: Reply,
)
    ensures
        discover_start(h, Seq::empty(), order, allow_ibeacons).1 matches StepView::Ask(p, q) ==> (
        p.awaits() == answer.spec_kind() <==> answers(answer, q)),
        discover_step(h, Seq::empty(), order, allow_ibeacons, starting, reply).1 matches
            StepView::Ask(p, q) ==> (p.awaits() == answer.spec_kind() <==> answers(answer, q)),
        stop_start(h, Seq::empty()).1 matches StepView::Ask(p, q) ==> (p.awaits()
            == answer.spec_kind() <==> answers(answer, q)),
        stop_step(h, Seq::empty(), stopping, reply).1 matches StepView::Ask(p, q) ==> (p.awaits()
            == answer.spec_kind() <==> answers(answer, q)),
        disconnect_start(h) matches StepView::Ask(p, q) ==> (p.awaits() == answer.spec_kind()
            <==> answers(answer, q)),
        disconnect_step(h, disconnecting, reply) matches StepView::Ask(p, q) ==> (p.awaits()
            == answer.spec_kind() <==> answers(answer, q)),
{
}

/// A scan task that has asked for something waits for the replies that can come of it; one that
/// is over waits for nothing.
pub proof fn tasks_wait_for_their_replies<D, N>(
    h: HandlerView<D, N>,
    t: ScanTask,
    reply: ScanReply,
    h2: HandlerView<D, N>,
    t2: ScanTask,
    next: ScanNext,
    answer: ScanReply,
)
    requires
        t.phase.fits(reply),
        scan_step(h, t, reply, h2, t2, next),
    ensures
        t2.phase.fits(answer) <==> match next {
            ScanNext::Ask(ScanRequest::Sleep(_)) => answer is Plain,
            ScanNext::Ask(ScanRequest::List) => answer is Listed,
            ScanNext::Ask(ScanRequest::Describe(_)) => answer is Described,
            ScanNext::Ask(ScanRequest::Send(_, _)) => answer is Plain,
            ScanNext::Ask(ScanRequest::StopScan) => answer is Plain,
            _ => false,
        },
{
}

} // verus!
