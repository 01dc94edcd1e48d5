//! What holds of a handler over a whole session: one call at a time, with the adapter
//! reporting events at any time.

use crate::error::BackendError;
use crate::exchange::{
    timed_result, Effect, NextView, OnDisconnectHandler, Reply, StepView, SubscriptionHandler,
    Timed,
};
use crate::handler::adapter::{adapter_found, adapter_ready, first_adapter};
use crate::handler::connect::{
    address_scan, connect_start, connect_step, hung_up, leave_other, linked, scan_over, stopped,
    ConnectCallView, ConnectOut, ConnectPhase, CONNECT_ATTEMPTS,
};
use crate::handler::disconnect::{
    disconnect_out, disconnect_start, disconnect_step, step_phase, DisconnectPhase,
};
use crate::handler::gatt::{hears, subscribed, target, unsubscribed, SubscribeCall};
use crate::handler::link::{link_out, link_start, link_step, LinkPhase};
use crate::handler::scan::{
    discover_start, discover_step, replace_scan, scan_step, scan_task, stop_start, stop_step,
    DiscoverPhase, ScanNext, ScanOrder, ScanReply, ScanTask, StopPhase,
};
use crate::handler::services::{
    services_start, services_step, ServicesCallView, ServicesOut, ServicesPhase,
};
use crate::handler::{
    connection_next, event_next, fresh, lost_links_are_cleared, CentralEvent, HandlerView, Listener,
    Out,
};
use crate::index::lookup;
use crate::models::{addr_chars, all_charac_ids, Timeouts, Uuid};
use vstd::prelude::*;

verus! {

/// The call under way.
pub ghost enum Activity<D> {
    Idle,
    Connect(ConnectCallView<D>),
    Disconnect(DisconnectPhase),
    Services(ServicesCallView),
}

/// A handler in use.
pub ghost struct Session<D, N> {
    pub h: HandlerView<D, N>,
    pub doing: Activity<D>,
    /// How many callbacks `connect` has put in place, without those that a later `connect` of
    /// the device that was connected already has replaced.
    pub placed: nat,
    /// How many callbacks for the end of a connection were run.
    pub ended: nat,
    /// Whether a request to subscribe was answered after its link had ended. Its callback is
    /// kept all the same.
    pub late: bool,
}

/// What can happen next in a session.
pub ghost enum Action<D> {
    /// The adapter reports something.
    Event(CentralEvent),
    /// The application calls `connect`.
    Connect { address: Seq<char>, on_disconnect: OnDisconnectHandler<D>, allow_ibeacons: bool },
    /// The application calls `disconnect`.
    Disconnect,
    /// The application calls `discover_services`.
    Services { address: Seq<char> },
    /// The host replies to the call under way.
    Reply(Reply),
    /// Something that is none of the connection's business, such as a scan.
    Aside,
    /// A request to subscribe is answered after its link has ended.
    LateSubscription,
}

/// Whether a callback waits for the end of the connection.
pub open spec fn armed<D, N>(h: HandlerView<D, N>) -> bool {
    h.on_disconnect !is Unset
}

/// How many callbacks wait for the end of the connection.
pub open spec fn pending<D, N>(h: HandlerView<D, N>) -> nat {
    if armed(h) {
        1
    } else {
        0
    }
}

/// How many callbacks for the end of a connection are among the effects.
pub open spec fn callbacks<D>(effects: Seq<Effect<D>>) -> nat
    decreases effects.len(),
{
    if effects.len() == 0 {
        0
    } else {
        callbacks(effects.drop_last()) + if effects.last() is RunDisconnect {
            1nat
        } else {
            0nat
        }
    }
}

/// How often the effects tell that a connection has begun.
pub open spec fn announced<D>(effects: Seq<Effect<D>>) -> nat
    decreases effects.len(),
{
    if effects.len() == 0 {
        0
    } else {
        announced(effects.drop_last()) + if effects.last() == Effect::<D>::ConnectionUpdate(true) {
            1nat
        } else {
            0nat
        }
    }
}

/// Nothing is left of any connection, but for subscriptions that came too late.
pub open spec fn bare<D, N>(h: HandlerView<D, N>, late: bool) -> bool {
    &&& h.on_disconnect is Unset
    &&& h.characs.len() == 0
    &&& h.listen_task is None
    &&& !late ==> h.listeners.len() == 0
}

/// A change that leaves the connection alone. Subscriptions may come and go as long as the
/// connected device has characteristics.
pub open spec fn aside<D, N>(h: HandlerView<D, N>, h2: HandlerView<D, N>) -> bool {
    &&& h2.connected == h.connected
    &&& h2.signals == h.signals
    &&& h2.connected_dev == h.connected_dev
    &&& h2.guest == h.guest
    &&& h2.characs == h.characs
    &&& h2.on_disconnect == h.on_disconnect
    &&& h2.listen_task == h.listen_task
    &&& h.characs.len() == 0 && h.listeners.len() == 0 ==> h2.listeners.len() == 0
}

/// The call to `connect` that an application makes.
pub open spec fn connect_call<D>(
    address: Seq<char>,
    on_disconnect: OnDisconnectHandler<D>,
    allow_ibeacons: bool,
) -> ConnectCallView<D> {
    ConnectCallView {
        address,
        on_disconnect,
        allow_ibeacons,
        order: None,
        failure: None,
        phase: ConnectPhase::Finished,
    }
}

/// The call to `discover_services` that an application makes.
pub open spec fn services_call(address: Seq<char>) -> ServicesCallView {
    ServicesCallView { address, services: None, failure: None, phase: ServicesPhase::Finished }
}

/// Whether the host may give this reply to the call under way: it answers the last request.
pub open spec fn acceptable<D, N>(s: Session<D, N>, reply: Reply) -> bool {
    match s.doing {
        Activity::Idle => false,
        Activity::Connect(call) => call.phase.awaits(reply.spec_kind()),
        Activity::Disconnect(phase) => phase.awaits() == reply.spec_kind(),
        Activity::Services(call) => call.phase.awaits(reply),
    }
}

/// Whether an action is possible: there is one call at a time.
pub open spec fn possible<D, N>(s: Session<D, N>, action: Action<D>) -> bool {
    match action {
        Action::Event(_) => true,
        Action::Aside => true,
        Action::LateSubscription => true,
        Action::Connect { .. } => s.doing is Idle,
        Action::Disconnect => s.doing is Idle,
        Action::Services { .. } => s.doing is Idle,
        Action::Reply(reply) => acceptable(s, reply),
    }
}

/// The session after a step of a call to `connect`. If the call succeeds, its callback is in
/// place, and no other.
pub open spec fn after_connect<D, N>(
    s: Session<D, N>,
    call: ConnectCallView<D>,
    out: ConnectOut<D, N>,
) -> Session<D, N> {
    Session {
        h: out.h,
        doing: if out.next is Done {
            Activity::Idle
        } else {
            Activity::Connect(out.call)
        },
        placed: if out.next.succeeded() {
            (s.placed - pending(s.h) + if call.on_disconnect is Unset {
                0nat
            } else {
                1nat
            }) as nat
        } else {
            s.placed
        },
        ended: s.ended + callbacks(out.effects),
        late: s.late,
    }
}

/// The session after a step of a call to `discover_services`.
pub open spec fn after_services<D, N>(
    s: Session<D, N>,
    out: ServicesOut<D, N>,
) -> Session<D, N> {
    Session {
        h: out.h,
        doing: if out.next is Done {
            Activity::Idle
        } else {
            Activity::Services(out.call)
        },
        placed: s.placed,
        ended: s.ended + callbacks(out.effects),
        late: s.late,
    }
}

/// The activity of a disconnect in a phase.
pub open spec fn disconnecting<D>(phase: Option<DisconnectPhase>) -> Activity<D> {
    match phase {
        Some(phase) => Activity::Disconnect(phase),
        None => Activity::Idle,
    }
}

/// Whether the action leads from one session to the other.
pub open spec fn next<D, N>(s: Session<D, N>, action: Action<D>, s2: Session<D, N>) -> bool {
    &&& possible(s, action)
    &&& match action {
        Action::Event(event) => s2 == (Session {
            h: event_next(s.h, event).h,
            ended: s.ended + callbacks(event_next(s.h, event).effects),
            ..s
        }),
        Action::Aside => aside(s.h, s2.h) && s2 == (Session { h: s2.h, ..s }),
        Action::LateSubscription => s2 == (Session {
            h: HandlerView { listeners: s2.h.listeners, ..s.h },
            late: true,
            ..s
        }),
        Action::Connect { address, on_disconnect, allow_ibeacons } => {
            let call = connect_call(address, on_disconnect, allow_ibeacons);
            s2 == after_connect(s, call, connect_start(s.h, Seq::empty(), call))
        },
        Action::Disconnect => s2 == (Session {
            doing: disconnecting(step_phase(disconnect_start(s.h))),
            ..s
        }),
        Action::Services { address } => s2 == after_services(
            s,
            services_start(s.h, Seq::empty(), services_call(address)),
        ),
        Action::Reply(reply) => match s.doing {
            Activity::Idle => false,
            Activity::Connect(call) => s2 == after_connect(
                s,
                call,
                connect_step(s.h, Seq::empty(), call, reply),
            ),
            Activity::Disconnect(phase) => {
                let out = disconnect_out(s.h, Seq::empty(), phase, reply);
                s2 == (Session {
                    h: out.h,
                    doing: disconnecting(step_phase(disconnect_step(s.h, phase, reply))),
                    ended: s.ended + callbacks(out.effects),
                    ..s
                })
            },
            Activity::Services(call) => s2 == after_services(
                s,
                services_step(s.h, Seq::empty(), call, reply),
            ),
        },
    }
}

/// A device is held only while it is connected.
pub open spec fn settled<D, N>(h: HandlerView<D, N>) -> bool {
    h.connected_dev is Some ==> h.connected
}

/// Without a device, nothing is left of a connection.
pub open spec fn tidy<D, N>(h: HandlerView<D, N>, late: bool) -> bool {
    h.connected_dev is None ==> bare(h, late) && !h.connected
}

/// What a call under way relies on.
pub open spec fn activity_ok<D, N>(
    h: HandlerView<D, N>,
    doing: Activity<D>,
    late: bool,
) -> bool {
    match doing {
        Activity::Idle => settled(h),
        Activity::Disconnect(_) => settled(h),
        Activity::Connect(call) => {
            &&& call.wf()
            &&& match call.phase {
                ConnectPhase::Linking { link, .. } => link !is Retrieving && h.connected_dev is Some
                    ==> h.connected_dev == Some(link.device()),
                ConnectPhase::Pausing { .. } => true,
                ConnectPhase::Cancelling => true,
                ConnectPhase::Discovery(device) => settled(h) && (h.connected_dev is Some
                    ==> h.connected_dev == Some(device)),
                ConnectPhase::Probing => settled(h) && (h.connected_dev matches Some(d)
                    ==> addr_chars(d.address) == call.address),
                ConnectPhase::Finished => false,
                _ => settled(h),
            }
        },
        Activity::Services(call) => {
            &&& call.wf()
            &&& match call.phase {
                ServicesPhase::Linking { guest, .. } => if guest {
                    settled(h)
                } else {
                    bare(h, late)
                },
                ServicesPhase::Finished => false,
                _ => settled(h),
            }
        },
    }
}

/// What always holds in a session.
pub open spec fn in_order<D, N>(s: Session<D, N>) -> bool {
    // every callback is run exactly once, unless it is still in place
    &&& s.placed == s.ended + pending(s.h)
    // without a device, nothing is left of a connection
    &&& tidy(s.h, s.late)
    // there is a guest only while its services are looked up
    &&& s.h.guest is Some ==> (s.doing matches Activity::Services(call) && call.phase.is_guest())
    &&& activity_ok(s.h, s.doing, s.late)
}

/// A session with a new handler.
pub open spec fn begun<D, N>(timeouts: Timeouts) -> Session<D, N> {
    Session { h: fresh(timeouts), doing: Activity::Idle, placed: 0, ended: 0, late: false }
}

proof fn lemma_callbacks_push<D>(effects: Seq<Effect<D>>, effect: Effect<D>)
    ensures
        callbacks(effects.push(effect)) == callbacks(effects) + if effect is RunDisconnect {
            1nat
        } else {
            0nat
        },
        announced(effects.push(effect)) == announced(effects) + if effect == Effect::<
            D,
        >::ConnectionUpdate(true) {
            1nat
        } else {
            0nat
        },
{
    assert(effects.push(effect).drop_last() =~= effects);
}

proof fn lemma_callbacks_add<D>(a: Seq<Effect<D>>, b: Seq<Effect<D>>)
    ensures
        callbacks(a + b) == callbacks(a) + callbacks(b),
        announced(a + b) == announced(a) + announced(b),
    decreases b.len(),
{
    if b.len() == 0 {
        assert(a + b =~= a);
    } else {
        lemma_callbacks_add(a, b.drop_last());
        assert((a + b).drop_last() =~= a + b.drop_last());
    }
}

/// Dropping the traces of a connection runs its callback, if it has one.
proof fn lemma_clear_callbacks<D, N>(h: HandlerView<D, N>)
    ensures
        callbacks(h.clear_effects()) == if armed(h) {
            1nat
        } else {
            0nat
        },
        announced(h.clear_effects()) == 0,
{
    let a: Seq<Effect<D>> = match h.listen_task {
        Some(task) => seq![Effect::AbortNotify(task)],
        None => Seq::empty(),
    };
    let b: Seq<Effect<D>> = match h.on_disconnect {
        OnDisconnectHandler::Unset => Seq::empty(),
        callback => seq![Effect::RunDisconnect(callback)],
    };
    let c: Seq<Effect<D>> = seq![Effect::ConnectionUpdate(false), Effect::Signal(false)];
    reveal_with_fuel(callbacks, 3);
    reveal_with_fuel(announced, 3);
    lemma_callbacks_add(a, b);
    lemma_callbacks_add(a + b, c);
    assert(c.drop_last() =~= seq![Effect::<D>::ConnectionUpdate(false)]);
    assert(h.clear_effects() =~= a + b + c);
}

/// A new session is in order.
pub proof fn sessions_begin_well<D, N>(timeouts: Timeouts)
    ensures
        in_order(begun::<D, N>(timeouts)),
{
}

proof fn lemma_event<D, N>(s: Session<D, N>, event: CentralEvent)
    requires
        in_order(s),
    ensures
        in_order(
            (Session {
                h: event_next(s.h, event).h,
                ended: s.ended + callbacks(event_next(s.h, event).effects),
                ..s
            }),
        ),
{
    let out = connection_next(s.h, event);
    lemma_clear_callbacks(s.h);
    lemma_callbacks_push(out.effects, Effect::Signal(out.h.connected));
    reveal_with_fuel(callbacks, 2);
}

/// A part of a call to `connect` that does not end it well keeps the session in order.
spec fn keeps<D, N>(o: Out<D, N>, r: ConnectOut<D, N>, late: bool) -> bool {
    &&& callbacks(r.effects) + pending(r.h) == callbacks(o.effects) + pending(o.h)
    &&& announced(r.effects) == announced(o.effects)
    &&& tidy(r.h, late)
    &&& r.h.guest == o.h.guest
    &&& r.next matches NextView::Done(result) ==> result is Err && settled(r.h)
    &&& r.next is Ask ==> activity_ok(r.h, Activity::Connect(r.call), late)
}

proof fn lemma_pump<D, N>(effects: Seq<Effect<D>>, h: HandlerView<D, N>)
    ensures
        callbacks(effects + h.pump_effects()) == callbacks(effects),
        callbacks(effects + h.abort_scan_effects()) == callbacks(effects),
        announced(effects + h.pump_effects()) == announced(effects),
        announced(effects + h.abort_scan_effects()) == announced(effects),
{
    lemma_callbacks_add(effects, h.pump_effects());
    lemma_callbacks_add(effects, h.abort_scan_effects());
    reveal_with_fuel(callbacks, 2);
    reveal_with_fuel(announced, 2);
}

proof fn lemma_adapter_found<D, N>(
    h: HandlerView<D, N>,
    effects: Seq<Effect<D>>,
    found: Result<Vec<u64>, BackendError>,
)
    ensures
        callbacks(adapter_found(h, effects, found).effects) == callbacks(effects),
        announced(adapter_found(h, effects, found).effects) == announced(effects),
        aside(h, adapter_found(h, effects, found).h),
{
    match first_adapter(found) {
        Err(_) => {},
        Ok(id) => {
            lemma_callbacks_push(effects, Effect::UseAdapter(id));
            lemma_pump(effects.push(Effect::UseAdapter(id)), h);
            assert(h.pump_effects() == (HandlerView { adapter: Some(id), ..h }).pump_effects());
        },
    }
}

proof fn lemma_stop<D, N>(h: HandlerView<D, N>, effects: Seq<Effect<D>>)
    ensures
        callbacks(stop_start(h, effects).0.effects) == callbacks(effects),
        announced(stop_start(h, effects).0.effects) == announced(effects),
        aside(h, stop_start(h, effects).0.h),
        stop_start(h, effects).1 is Ask,
{
    lemma_pump(effects, h);
    lemma_pump(effects + h.abort_scan_effects(), h.without_scan());
}

proof fn lemma_stop_step<D, N>(
    h: HandlerView<D, N>,
    effects: Seq<Effect<D>>,
    phase: StopPhase,
    reply: Reply,
)
    ensures
        callbacks(stop_step(h, effects, phase, reply).0.effects) == callbacks(effects),
        announced(stop_step(h, effects, phase, reply).0.effects) == announced(effects),
        aside(h, stop_step(h, effects, phase, reply).0.h),
{
    match reply {
        Reply::Adapters(found) => {
            lemma_adapter_found(h, effects, found);
        },
        _ => {},
    }
    lemma_callbacks_push(effects, Effect::ScanUpdate(false));
}

proof fn lemma_replace_scan<D, N>(out: Out<D, N>, allow_ibeacons: bool)
    ensures
        callbacks(replace_scan(out, allow_ibeacons).0.effects) == callbacks(out.effects),
        announced(replace_scan(out, allow_ibeacons).0.effects) == announced(out.effects),
        aside(out.h, replace_scan(out, allow_ibeacons).0.h),
        replace_scan(out, allow_ibeacons).1 is Ask,
{
    lemma_pump(out.effects, out.h);
}

proof fn lemma_discover_start<D, N>(
    h: HandlerView<D, N>,
    effects: Seq<Effect<D>>,
    order: ScanOrder,
    allow_ibeacons: bool,
)
    ensures
        callbacks(discover_start(h, effects, order, allow_ibeacons).0.effects) == callbacks(
            effects,
        ),
        announced(discover_start(h, effects, order, allow_ibeacons).0.effects) == announced(
            effects,
        ),
        aside(h, discover_start(h, effects, order, allow_ibeacons).0.h),
{
    lemma_pump(effects, h);
    lemma_replace_scan(adapter_ready(h, effects), allow_ibeacons);
}

proof fn lemma_discover_step<D, N>(
    h: HandlerView<D, N>,
    effects: Seq<Effect<D>>,
    order: ScanOrder,
    allow_ibeacons: bool,
    phase: DiscoverPhase,
    reply: Reply,
)
    ensures
        callbacks(discover_step(h, effects, order, allow_ibeacons, phase, reply).0.effects)
            == callbacks(effects),
        announced(discover_step(h, effects, order, allow_ibeacons, phase, reply).0.effects)
            == announced(effects),
        aside(h, discover_step(h, effects, order, allow_ibeacons, phase, reply).0.h),
{
    match reply {
        Reply::Adapters(found) => {
            lemma_adapter_found(h, effects, found);
            lemma_replace_scan(adapter_found(h, effects, found), allow_ibeacons);
        },
        _ => {},
    }
    lemma_callbacks_push(effects, Effect::ScanUpdate(true));
    lemma_callbacks_push(
        effects.push(Effect::ScanUpdate(true)),
        Effect::SpawnScan(scan_task(h.tasks, order)),
    );
}

proof fn lemma_linked<D, N>(
    o: Out<D, N>,
    call: ConnectCallView<D>,
    attempt: u8,
    step: StepView<LinkPhase>,
    late: bool,
)
    requires
        tidy(o.h, late),
        attempt < CONNECT_ATTEMPTS,
        step.succeeded() ==> o.h.connected,
        step matches StepView::Ask(link, _) ==> link is Retrieving || o.h.connected_dev is None
            || o.h.connected_dev == Some(link.device()),
    ensures
        keeps(o, linked(o, call, attempt, step), late),
{
    lemma_clear_callbacks(o.h);
    lemma_callbacks_add(o.effects, o.h.clear_effects());
}

proof fn lemma_hung_up<D, N>(
    o: Out<D, N>,
    call: ConnectCallView<D>,
    step: StepView<DisconnectPhase>,
    late: bool,
)
    requires
        tidy(o.h, late),
        settled(o.h),
    ensures
        keeps(o, hung_up(o, call, step), late),
{
    lemma_linked(o, call, 0, link_start(o.h, call.address), late);
}

proof fn lemma_leave_other<D, N>(o: Out<D, N>, call: ConnectCallView<D>, late: bool)
    requires
        tidy(o.h, late),
        settled(o.h),
    ensures
        keeps(o, leave_other(o, call), late),
{
    lemma_linked(o, call, 0, link_start(o.h, call.address), late);
    lemma_hung_up(o, call, disconnect_start(o.h), late);
}

proof fn lemma_stopped<D, N>(
    o: Out<D, N>,
    call: ConnectCallView<D>,
    step: StepView<StopPhase>,
    late: bool,
)
    requires
        tidy(o.h, late),
        settled(o.h),
    ensures
        keeps(o, stopped(o, call, step), late),
{
    lemma_leave_other(o, call, late);
}

proof fn lemma_scan_over<D, N>(o: Out<D, N>, call: ConnectCallView<D>, late: bool)
    requires
        tidy(o.h, late),
        settled(o.h),
    ensures
        keeps(o, scan_over(o, call), late),
{
    lemma_stop(o.h, o.effects);
    let (o2, step) = stop_start(o.h, o.effects);
    lemma_stopped(o2, call, step, late);
}

proof fn lemma_disconnect_out<D, N>(
    h: HandlerView<D, N>,
    effects: Seq<Effect<D>>,
    phase: DisconnectPhase,
    reply: Reply,
    late: bool,
)
    requires
        tidy(h, late),
        settled(h),
    ensures
        ({
            let o = disconnect_out(h, effects, phase, reply);
            &&& callbacks(o.effects) + pending(o.h) == callbacks(effects) + pending(h)
            &&& announced(o.effects) == announced(effects)
            &&& tidy(o.h, late)
            &&& settled(o.h)
            &&& o.h.guest == h.guest
        }),
{
    lemma_clear_callbacks(h);
    lemma_callbacks_add(effects, h.clear_effects());
}

proof fn lemma_link_out<D, N>(
    h: HandlerView<D, N>,
    effects: Seq<Effect<D>>,
    guest: bool,
    phase: LinkPhase,
    reply: Reply,
    late: bool,
)
    requires
        tidy(h, late),
        reply.spec_kind() == phase.awaits(),
    ensures
        ({
            let o = link_out(h, effects, guest, phase, reply);
            &&& callbacks(o.effects) + pending(o.h) == callbacks(effects) + pending(h)
            &&& announced(o.effects) == announced(effects)
            &&& tidy(o.h, late)
            &&& bare(h, late) ==> bare(o.h, late)
            &&& guest && settled(h) ==> settled(o.h)
            &&& !guest ==> o.h.guest == h.guest
            &&& !guest && link_step(h, guest, phase, reply).succeeded() ==> o.h.connected
        }),
{
    lemma_callbacks_push(effects, Effect::Signal(true));
    lemma_callbacks_push(effects, Effect::Signal(h.connected));
}

/// A reply to a call to `connect` keeps the session in order.
proof fn lemma_connect_step<D, N>(s: Session<D, N>, call: ConnectCallView<D>, reply: Reply)
    requires
        in_order(s),
        s.doing == Activity::Connect(call),
        acceptable(s, reply),
    ensures
        in_order(after_connect(s, call, connect_step(s.h, Seq::empty(), call, reply))),
        ({
            let r = connect_step(s.h, Seq::empty(), call, reply);
            announced(r.effects) == if r.next.succeeded() {
                1nat
            } else {
                0nat
            }
        }),
{
    let h = s.h;
    let e = Seq::<Effect<D>>::empty();
    let o = Out { h, effects: e };
    let r = connect_step(h, e, call, reply);
    match call.phase {
        ConnectPhase::Discovering(phase) => {
            lemma_discover_step(h, e, call.order->0, call.allow_ibeacons, phase, reply);
        },
        ConnectPhase::Collecting => {
            lemma_scan_over(o, call, s.late);
        },
        ConnectPhase::StoppingScan(phase) => {
            lemma_stop_step(h, e, phase, reply);
            let (o2, step) = stop_step(h, e, phase, reply);
            lemma_stopped(o2, call, step, s.late);
        },
        ConnectPhase::Probing => {
            lemma_linked(o, call, 0, link_start(h, call.address), s.late);
            lemma_hung_up(o, call, disconnect_start(h), s.late);
        },
        ConnectPhase::HangingUp(phase) => {
            lemma_disconnect_out(h, e, phase, reply, s.late);
            lemma_hung_up(
                disconnect_out(h, e, phase, reply),
                call,
                disconnect_step(h, phase, reply),
                s.late,
            );
        },
        ConnectPhase::Linking { attempt, link } => {
            lemma_link_out(h, e, false, link, reply, s.late);
            lemma_linked(
                link_out(h, e, false, link, reply),
                call,
                attempt,
                link_step(h, false, link, reply),
                s.late,
            );
        },
        ConnectPhase::Pausing { attempt } => {
            lemma_linked(o, call, attempt, link_start(h, call.address), s.late);
        },
        ConnectPhase::Cancelling => {
            lemma_clear_callbacks(h);
            lemma_callbacks_add(e, h.clear_effects());
        },
        ConnectPhase::Discovery(device) => {
            let result = timed_result(reply->Services_0, "discover services"@);
            if result is Ok && h.is_current(device.id) {
                lemma_callbacks_push(e, Effect::StartNotify { task: h.tasks, device });
                lemma_callbacks_push(
                    e.push(Effect::StartNotify { task: h.tasks, device }),
                    Effect::ConnectionUpdate(true),
                );
            }
        },
        ConnectPhase::TearingDown(phase) => {
            lemma_disconnect_out(h, e, phase, reply, s.late);
        },
        ConnectPhase::Finished => {},
    }
}

/// A reply to a call to `discover_services` keeps the session in order.
proof fn lemma_services_step<D, N>(s: Session<D, N>, call: ServicesCallView, reply: Reply)
    requires
        in_order(s),
        s.doing == Activity::<D>::Services(call),
        acceptable(s, reply),
    ensures
        in_order(after_services(s, services_step(s.h, Seq::empty(), call, reply))),
{
    let e = Seq::<Effect<D>>::empty();
    lemma_callbacks_push(e, Effect::Signal(false));
    match call.phase {
        ServicesPhase::Linking { guest, link, .. } => {
            lemma_link_out(s.h, e, guest, link, reply, s.late);
            let o = link_out(s.h, e, guest, link, reply);
            lemma_callbacks_push(o.effects, Effect::Signal(false));
        },
        _ => {},
    }
}

/// Whatever happens, with one call at a time, a session stays in order: each callback is run exactly once when its
/// connection ends, without a device nothing is left of a connection, and when no call is under
/// way a device is held only while it is connected.
pub proof fn sessions_stay_in_order<D, N>(s: Session<D, N>, action: Action<D>, s2: Session<D, N>)
    requires
        in_order(s),
        next(s, action, s2),
    ensures
        in_order(s2),
{
    let e = Seq::<Effect<D>>::empty();
    match action {
        Action::Event(event) => {
            lemma_event(s, event);
        },
        Action::Aside => {},
        Action::LateSubscription => {},
        Action::Connect { address, on_disconnect, allow_ibeacons } => {
            let call = connect_call(address, on_disconnect, allow_ibeacons);
            lemma_scan_over(Out { h: s.h, effects: e }, call, s.late);
            lemma_discover_start(s.h, e, address_scan(), allow_ibeacons);
        },
        Action::Disconnect => {},
        Action::Services { .. } => {},
        Action::Reply(reply) => match s.doing {
            Activity::Idle => {},
            Activity::Connect(call) => {
                lemma_connect_step(s, call, reply);
            },
            Activity::Disconnect(phase) => {
                lemma_disconnect_out(s.h, e, phase, reply, s.late);
            },
            Activity::Services(call) => {
                lemma_services_step(s, call, reply);
            },
        },
    }
}

/// Every session that begins with a new handler stays in order, however long it gets.
pub proof fn histories_are_in_order<D, N>(
    timeouts: Timeouts,
    history: Seq<Session<D, N>>,
    actions: Seq<Action<D>>,
    i: int,
)
    requires
        0 <= i < history.len(),
        actions.len() + 1 >= history.len(),
        history[0] == begun::<D, N>(timeouts),
        forall|k: int|
            0 <= k < history.len() - 1 ==> next(
                #[trigger] history[k],
                actions[k],
                history[k + 1],
            ),
    ensures
        in_order(history[i]),
    decreases i,
{
    if i > 0 {
        histories_are_in_order(timeouts, history, actions, i - 1);
        assert(next(history[i - 1], actions[i - 1], history[i - 1 + 1]));
        sessions_stay_in_order(history[i - 1], actions[i - 1], history[i]);
    } else {
        sessions_begin_well::<D, N>(timeouts);
    }
}

/// When no call is under way, the handler holds a device exactly while it is connected, it
/// keeps nothing of a connection that is over, and then every callback was run.
pub proof fn idle_handlers_are_consistent<D, N>(s: Session<D, N>)
    requires
        in_order(s),
        s.doing is Idle,
    ensures
        s.h.connected <==> s.h.connected_dev is Some,
        s.h.guest is None,
        !s.h.connected ==> bare(s.h, s.late) && s.ended == s.placed,
        armed(s.h) ==> s.h.connected && s.placed == s.ended + 1,
{
}

/// A call to `connect` that fails leaves no device connected, unless it could not even start
/// to scan for the address, in which case the connection is as it was.
pub proof fn failed_connects_leave_no_device<D, N>(
    s: Session<D, N>,
    call: ConnectCallView<D>,
    reply: Reply,
)
    requires
        in_order(s),
        s.doing == Activity::Connect(call),
        acceptable(s, reply),
    ensures
        ({
            let r = connect_step(s.h, Seq::empty(), call, reply);
            r.next is Done && !r.next.succeeded() ==> if call.phase is Discovering {
                aside(s.h, r.h)
            } else {
                r.h.connected_dev is None && !r.h.connected && bare(r.h, s.late)
            }
        }),
{
    let e = Seq::<Effect<D>>::empty();
    lemma_connect_step(s, call, reply);
    match call.phase {
        ConnectPhase::Discovering(phase) => {
            lemma_discover_step(s.h, e, call.order->0, call.allow_ibeacons, phase, reply);
        },
        ConnectPhase::Collecting => {
            lemma_stop(s.h, e);
        },
        ConnectPhase::TearingDown(phase) => {
            lemma_disconnect_out(s.h, e, phase, reply, s.late);
        },
        _ => {},
    }
}

/// A call to `connect` succeeds only with the device connected, and then what it was given
/// and what it has found out is in place.
pub proof fn connects_succeed_with_a_device<D, N>(
    s: Session<D, N>,
    call: ConnectCallView<D>,
    reply: Reply,
)
    requires
        in_order(s),
        s.doing == Activity::Connect(call),
        acceptable(s, reply),
    ensures
        ({
            let r = connect_step(s.h, Seq::empty(), call, reply);
            r.next.succeeded() ==> {
                &&& r.h.connected
                &&& call.phase matches ConnectPhase::Discovery(device) && r.h.connected_dev
                    == Some(device)
                &&& r.h.on_disconnect == call.on_disconnect
                &&& reply matches Reply::Services(Timed::Done(services)) && r.h.characs
                    == all_charac_ids(services@)
            }
        }),
{
    lemma_connect_step(s, call, reply);
}

/// An attempt of `connect` is made on the device that was found under the address when the
/// attempt began, and it stays with it: it is that device whose services are discovered, and
/// that is held then.
pub proof fn attempts_stay_with_their_device<D, N>(
    s: Session<D, N>,
    call: ConnectCallView<D>,
    reply: Reply,
)
    requires
        in_order(s),
        s.doing == Activity::Connect(call),
        acceptable(s, reply),
    ensures
        ({
            let r = connect_step(s.h, Seq::empty(), call, reply);
            &&& r.h.devices == s.h.devices
            &&& r.call.phase matches ConnectPhase::Linking { link, .. } ==> match call.phase {
                ConnectPhase::Linking { link: before, .. } => link.device() == before.device(),
                _ => lookup(s.h.devices, call.address) == Some(link.device()),
            }
            &&& r.call.phase matches ConnectPhase::Discovery(device) ==> {
                &&& call.phase matches ConnectPhase::Linking { link, .. } && link.device() == device
                &&& r.h.connected_dev == Some(device)
            }
        }),
{
    let e = Seq::<Effect<D>>::empty();
    lemma_connect_step(s, call, reply);
    match call.phase {
        ConnectPhase::Linking { link, .. } => {
            lemma_link_out(s.h, e, false, link, reply, s.late);
        },
        _ => {},
    }
}

/// A callback is run only when its connection ends: one that was in place before is not any
/// more, and never more than one at once.
pub proof fn callbacks_run_when_the_connection_ends<D, N>(
    s: Session<D, N>,
    action: Action<D>,
    s2: Session<D, N>,
)
    requires
        in_order(s),
        next(s, action, s2),
    ensures
        s.ended <= s2.ended <= s.ended + 1,
        s2.ended == s.ended + 1 ==> armed(s.h) && !armed(s2.h),
        armed(s.h) && !armed(s2.h) ==> s2.ended == s.ended + 1 || s2.placed == s.placed - 1,
{
    sessions_stay_in_order(s, action, s2);
    match action {
        Action::Reply(reply) => match s.doing {
            Activity::Connect(call) => {
                connects_succeed_with_a_device(s, call, reply);
            },
            _ => {},
        },
        _ => {},
    }
}

/// Whether the only callback among the effects is this one.
pub open spec fn runs_only<D>(effects: Seq<Effect<D>>, callback: OnDisconnectHandler<D>) -> bool {
    forall|i: int|
        0 <= i < effects.len() && (#[trigger] effects[i]) is RunDisconnect ==> effects[i]
            == Effect::RunDisconnect(callback)
}

/// The callback that is run is the one that is in place, whether an event or a disconnect ends
/// the connection.
pub proof fn the_callback_in_place_is_run<D, N>(
    h: HandlerView<D, N>,
    event: CentralEvent,
    phase: DisconnectPhase,
    reply: Reply,
)
    ensures
        runs_only(event_next(h, event).effects, h.on_disconnect),
        runs_only(disconnect_out(h, Seq::empty(), phase, reply).effects, h.on_disconnect),
{
    let clear = h.clear_effects();
    assert(runs_only(clear, h.on_disconnect));
    assert(Seq::<Effect<D>>::empty() + clear =~= clear);
}

/// Another call to `connect` runs no other callback than the one that is in place, either.
pub proof fn connects_run_the_callback_in_place<D, N>(
    h: HandlerView<D, N>,
    call: ConnectCallView<D>,
    reply: Reply,
)
    requires
        call.phase.awaits(reply.spec_kind()),
    ensures
        runs_only(connect_step(h, Seq::empty(), call, reply).effects, h.on_disconnect),
{
    let e = Seq::<Effect<D>>::empty();
    let cb = h.on_disconnect;
    match call.phase {
        ConnectPhase::Discovering(phase) => {
            lemma_discover_step(h, e, call.order->0, call.allow_ibeacons, phase, reply);
            let out = discover_step(
                h,
                e,
                call.order->0,
                call.allow_ibeacons,
                phase,
                reply,
            ).0;
            lemma_no_callbacks(out.effects, cb);
        },
        ConnectPhase::Collecting => {
            lemma_stop(h, e);
            lemma_no_callbacks(stop_start(h, e).0.effects, cb);
        },
        ConnectPhase::StoppingScan(phase) => {
            lemma_stop_step(h, e, phase, reply);
            lemma_no_callbacks(stop_step(h, e, phase, reply).0.effects, cb);
        },
        ConnectPhase::HangingUp(phase) => {
            the_callback_in_place_is_run(h, CentralEvent::Other, phase, reply);
        },
        ConnectPhase::TearingDown(phase) => {
            the_callback_in_place_is_run(h, CentralEvent::Other, phase, reply);
        },
        ConnectPhase::Linking { link, .. } => {
            let o = link_out(h, e, false, link, reply);
            assert(o.h.on_disconnect == cb);
            assert(runs_only(o.effects, cb));
            assert(runs_only(o.h.clear_effects(), cb));
            assert(runs_only(o.effects + o.h.clear_effects(), cb));
        },
        ConnectPhase::Pausing { .. } | ConnectPhase::Cancelling => {
            assert(runs_only(h.clear_effects(), cb));
            assert(e + h.clear_effects() =~= h.clear_effects());
        },
        _ => {},
    }
}

proof fn lemma_no_callbacks<D>(effects: Seq<Effect<D>>, callback: OnDisconnectHandler<D>)
    requires
        callbacks(effects) == 0,
    ensures
        runs_only(effects, callback),
{
    assert forall|i: int| 0 <= i < effects.len() && (#[trigger] effects[i]) is RunDisconnect
        implies effects[i] == Effect::RunDisconnect(callback) by {
        lemma_none_is_run(effects, i);
    }
}

proof fn lemma_none_is_run<D>(effects: Seq<Effect<D>>, i: int)
    requires
        callbacks(effects) == 0,
        0 <= i < effects.len(),
    ensures
        effects[i] !is RunDisconnect,
    decreases effects.len(),
{
    if i < effects.len() - 1 {
        lemma_none_is_run(effects.drop_last(), i);
    }
}

/// Looking up services runs no callback.
pub proof fn lookups_run_no_callback<D, N>(
    h: HandlerView<D, N>,
    call: ServicesCallView,
    reply: Reply,
)
    requires
        call.phase.awaits(reply),
    ensures
        callbacks(services_step(h, Seq::empty(), call, reply).effects) == 0,
{
    let e = Seq::<Effect<D>>::empty();
    lemma_callbacks_push(e, Effect::Signal(false));
    match call.phase {
        ServicesPhase::Linking { guest, link, .. } => {
            lemma_callbacks_push(e, Effect::Signal(true));
            lemma_callbacks_push(e, Effect::Signal(h.connected));
            let o = link_out(h, e, guest, link, reply);
            lemma_callbacks_push(o.effects, Effect::Signal(false));
        },
        _ => {},
    }
}

/// The state after an event was reported so many times, and all that the host had to do.
pub open spec fn repeated<D, N>(h: HandlerView<D, N>, event: CentralEvent, times: nat) -> Out<D, N>
    decreases times,
{
    if times == 0 {
        Out { h, effects: Seq::empty() }
    } else {
        let before = repeated(h, event, (times - 1) as nat);
        let out = event_next(before.h, event);
        Out { h: out.h, effects: before.effects + out.effects }
    }
}

/// However often the end of a link is reported: if it is the link to the connected device, the
/// connection is over, its callback has run once in all, and the update channels were told; if
/// it is another one, nothing of the connection has changed and nobody was told anything.
pub proof fn disconnect_events_end_one_connection<D, N>(
    h: HandlerView<D, N>,
    id: u64,
    times: nat,
)
    requires
        times > 0,
    ensures
        ({
            let out = repeated(h, CentralEvent::DeviceDisconnected(id), times);
            if h.is_current(id) {
                &&& out.h.connected_dev is None
                &&& !out.h.connected
                &&& out.h.listeners.len() == 0
                &&& out.h.characs.len() == 0
                &&& !armed(out.h)
                &&& callbacks(out.effects) == pending(h)
                &&& runs_only(out.effects, h.on_disconnect)
                &&& out.effects.contains(Effect::ConnectionUpdate(false))
            } else {
                &&& out.h == (HandlerView { guest: out.h.guest, signals: out.h.signals, ..h })
                &&& forall|i: int|
                    0 <= i < out.effects.len() ==> #[trigger] out.effects[i] == Effect::<
                        D,
                    >::Signal(h.connected)
            }
        }),
    decreases times,
{
    let event = CentralEvent::DeviceDisconnected(id);
    let e = Seq::<Effect<D>>::empty();
    if times == 1 {
        assert(repeated(h, event, 0).effects =~= e);
        let out = connection_next(h, event);
        lemma_clear_callbacks(h);
        lemma_callbacks_push(out.effects, Effect::Signal(out.h.connected));
        assert(repeated(h, event, 1).effects =~= event_next(h, event).effects);
        if h.is_current(id) {
            lost_links_are_cleared(h, id, event);
        }
    } else {
        let n = (times - 1) as nat;
        disconnect_events_end_one_connection(h, id, n);
        let before = repeated(h, event, n);
        lemma_guest_gone(h, id, n);
        assert(event_next(before.h, event).effects =~= e);
        assert(repeated(h, event, times).effects =~= before.effects);
    }
}

proof fn lemma_guest_gone<D, N>(h: HandlerView<D, N>, id: u64, times: nat)
    requires
        times > 0,
    ensures
        !repeated(h, CentralEvent::DeviceDisconnected(id), times).h.is_guest(id),
        !repeated(h, CentralEvent::DeviceDisconnected(id), times).h.is_current(id),
    decreases times,
{
    if times > 1 {
        lemma_guest_gone(h, id, (times - 1) as nat);
    } else {
        assert(repeated(h, CentralEvent::DeviceDisconnected(id), 0).h == h);
    }
}

/// A call to `connect` that has not succeeded does not have its callback run: the callback
/// in place is the one before, if there is one at all.
pub proof fn failed_connects_arm_nothing<D, N>(
    h: HandlerView<D, N>,
    effects: Seq<Effect<D>>,
    call: ConnectCallView<D>,
    reply: Reply,
)
    requires
        call.phase.awaits(reply.spec_kind()),
    ensures
        ({
            let r = connect_step(h, effects, call, reply);
            !r.next.succeeded() ==> r.h.on_disconnect == h.on_disconnect
                || r.h.on_disconnect is Unset
        }),
{
}

/// A call to `connect` tells that a connection has begun exactly when it succeeds.
pub proof fn only_successful_connects_are_announced<D, N>(
    s: Session<D, N>,
    call: ConnectCallView<D>,
    reply: Reply,
)
    requires
        in_order(s),
        s.doing == Activity::Connect(call),
        acceptable(s, reply),
    ensures
        ({
            let r = connect_step(s.h, Seq::empty(), call, reply);
            announced(r.effects) == if r.next.succeeded() {
                1nat
            } else {
                0nat
            }
        }),
{
    lemma_connect_step(s, call, reply);
}

/// A disconnect that is over has ended the connection, and nothing is left of it.
pub proof fn disconnects_end_the_connection<D, N>(
    s: Session<D, N>,
    phase: DisconnectPhase,
    reply: Reply,
)
    requires
        in_order(s),
        s.doing == Activity::<D>::Disconnect(phase),
        acceptable(s, reply),
        disconnect_step(s.h, phase, reply) is Done,
    ensures
        disconnect_step(s.h, phase, reply).succeeded(),
        ({
            let h = disconnect_out(s.h, Seq::empty(), phase, reply).h;
            h.connected_dev is None && !h.connected && bare(h, s.late)
        }),
{
    lemma_disconnect_out(s.h, Seq::<Effect<D>>::empty(), phase, reply, s.late);
}

/// When `connect` makes its first attempt, no other device is held: there is none, or it has
/// the wanted address.
pub proof fn other_devices_are_hung_up<D, N>(
    s: Session<D, N>,
    call: ConnectCallView<D>,
    reply: Reply,
)
    requires
        in_order(s),
        s.doing == Activity::Connect(call),
        acceptable(s, reply),
        call.phase !is Linking,
        call.phase !is Pausing,
    ensures
        ({
            let r = connect_step(s.h, Seq::empty(), call, reply);
            (r.call.phase is Linking || r.call.phase is Pausing)
                && r.h.connected_dev is Some ==> addr_chars(r.h.connected_dev->0.address)
                == call.address
        }),
{
    let e = Seq::<Effect<D>>::empty();
    match call.phase {
        ConnectPhase::StoppingScan(phase) => {
            lemma_stop_step(s.h, e, phase, reply);
        },
        ConnectPhase::HangingUp(phase) => {
            lemma_disconnect_out(s.h, e, phase, reply, s.late);
        },
        ConnectPhase::Collecting => {
            lemma_stop(s.h, e);
        },
        _ => {},
    }
}

/// How many more times a call to `connect` can have the device connected.
pub open spec fn connects_left(phase: ConnectPhase) -> int {
    match phase {
        ConnectPhase::Linking { attempt, link } => if link is Retrieving || link is Checking {
            CONNECT_ATTEMPTS - attempt
        } else {
            CONNECT_ATTEMPTS - attempt - 1
        },
        ConnectPhase::Pausing { attempt } => CONNECT_ATTEMPTS - attempt,
        ConnectPhase::Cancelling => 0,
        ConnectPhase::Discovery(_) => 0,
        ConnectPhase::TearingDown(_) => 0,
        ConnectPhase::Finished => 0,
        _ => CONNECT_ATTEMPTS as int,
    }
}

/// Whether a step asks the backend to connect.
pub open spec fn asks_to_connect(next: NextView<()>) -> bool {
    next matches NextView::Ask(request) && request is Connect
}

proof fn lemma_connects_left<D, N>(
    h: HandlerView<D, N>,
    effects: Seq<Effect<D>>,
    call: ConnectCallView<D>,
    reply: Reply,
)
    requires
        call.wf(),
        call.phase.awaits(reply.spec_kind()),
    ensures
        ({
            let r = connect_step(h, effects, call, reply);
            &&& r.call.wf()
            &&& 0 <= connects_left(r.call.phase)
            &&& connects_left(r.call.phase) + (if asks_to_connect(r.next) {
                1int
            } else {
                0
            }) <= connects_left(call.phase)
        }),
{
}

/// One step of a call to `connect`: the state it was made in, the reply, and the call before.
pub ghost struct ConnectRound<D, N> {
    pub h: HandlerView<D, N>,
    pub call: ConnectCallView<D>,
    pub reply: Reply,
}

/// Whether the rounds are those of one call, with anything happening in between.
pub open spec fn one_call<D, N>(rounds: Seq<ConnectRound<D, N>>) -> bool {
    &&& forall|i: int|
        0 <= i < rounds.len() ==> (#[trigger] rounds[i]).call.wf() && rounds[i].call.phase.awaits(
            rounds[i].reply.spec_kind(),
        )
    &&& forall|i: int|
        0 <= i < rounds.len() - 1 ==> (#[trigger] rounds[i + 1]).call == connect_step(
            rounds[i].h,
            Seq::empty(),
            rounds[i].call,
            rounds[i].reply,
        ).call
}

/// How often the rounds ask the backend to connect.
pub open spec fn times_connected<D, N>(rounds: Seq<ConnectRound<D, N>>) -> int
    decreases rounds.len(),
{
    if rounds.len() == 0 {
        0
    } else {
        let last = rounds.last();
        times_connected(rounds.drop_last()) + if asks_to_connect(
            connect_step(last.h, Seq::empty(), last.call, last.reply).next,
        ) {
            1int
        } else {
            0
        }
    }
}

/// A call to `connect` has the backend connect at most three times, whatever happens in
/// between.
pub proof fn connect_tries_at_most_three_times<D, N>(rounds: Seq<ConnectRound<D, N>>)
    requires
        one_call(rounds),
    ensures
        times_connected(rounds) <= 3,
{
    if rounds.len() > 0 {
        lemma_times_connected(rounds);
        let last = rounds.last();
        lemma_connects_left(last.h, Seq::<Effect<D>>::empty(), last.call, last.reply);
    }
}

proof fn lemma_times_connected<D, N>(rounds: Seq<ConnectRound<D, N>>)
    requires
        one_call(rounds),
        rounds.len() > 0,
    ensures
        times_connected(rounds) + connects_left(
            connect_step(
                rounds.last().h,
                Seq::<Effect<D>>::empty(),
                rounds.last().call,
                rounds.last().reply,
            ).call.phase,
        ) <= connects_left(rounds[0].call.phase) <= CONNECT_ATTEMPTS,
    decreases rounds.len(),
{
    let e = Seq::<Effect<D>>::empty();
    let last = rounds.last();
    lemma_connects_left(last.h, e, last.call, last.reply);
    let before = rounds.drop_last();
    if before.len() > 0 {
        assert(one_call(before)) by {
            assert forall|i: int| 0 <= i < before.len() implies (#[trigger] before[i]).call.wf()
                && before[i].call.phase.awaits(before[i].reply.spec_kind()) by {
                assert(rounds[i] == before[i]);
            }
            assert forall|i: int| 0 <= i < before.len() - 1 implies (#[trigger] before[i + 1]).call
                == connect_step(before[i].h, Seq::empty(), before[i].call, before[i].reply).call by {
                assert(rounds[i + 1] == before[i + 1]);
            }
        }
        lemma_times_connected(before);
        assert(rounds[rounds.len() - 2 + 1].call == connect_step(
            before.last().h,
            e,
            before.last().call,
            before.last().reply,
        ).call);
    } else {
        assert(times_connected(before) == 0);
    }
}

/// Scanning, and looking for the adapter, leaves the connection alone.
pub proof fn scans_leave_the_connection_alone<D, N>(
    h: HandlerView<D, N>,
    effects: Seq<Effect<D>>,
    order: ScanOrder,
    allow_ibeacons: bool,
    discover: DiscoverPhase,
    stop: StopPhase,
    reply: Reply,
)
    ensures
        aside(h, discover_start(h, effects, order, allow_ibeacons).0.h),
        aside(h, discover_step(h, effects, order, allow_ibeacons, discover, reply).0.h),
        aside(h, stop_start(h, effects).0.h),
        aside(h, stop_step(h, effects, stop, reply).0.h),
{
    lemma_discover_start(h, effects, order, allow_ibeacons);
    lemma_discover_step(h, effects, order, allow_ibeacons, discover, reply);
    lemma_stop(h, effects);
    lemma_stop_step(h, effects, stop, reply);
}

/// The task of a scan leaves the connection alone.
pub proof fn scan_tasks_leave_the_connection_alone<D, N>(
    h: HandlerView<D, N>,
    t: ScanTask,
    reply: ScanReply,
    h2: HandlerView<D, N>,
    t2: ScanTask,
    next: ScanNext,
)
    requires
        t.phase.fits(reply),
        scan_step(h, t, reply, h2, t2, next),
    ensures
        aside(h, h2),
{
}

/// Subscribing to a characteristic of the connected device, and unsubscribing, leaves the
/// connection alone. A request that fails changes nothing at all.
pub proof fn subscriptions_leave_the_connection_alone<D, N>(
    h: HandlerView<D, N>,
    uuid: Uuid,
    service: Option<Uuid>,
    callback: SubscriptionHandler<N>,
    success: bool,
)
    requires
        target(h, uuid, service) is Ok,
    ensures
        ({
            let charac = (target(h, uuid, service)->Ok_0).1;
            let h2 = subscribed(h, SubscribeCall { charac, callback }, success);
            aside(h, h2) && (!success ==> h2 == h)
        }),
        aside(h, unsubscribed(h, uuid, success)),
        !success ==> unsubscribed(h, uuid, success) == h,
{
    reveal(Seq::filter);
    if h.listeners.len() == 0 {
        assert(h.listeners.filter(|l: Listener<N>| l.uuid != uuid).len() == 0);
    }
}

/// After a subscription was made, the callback hears the characteristic in that service and
/// no other; after the subscriptions to a characteristic were ended, none hears it any more,
/// and those to other characteristics are as they were.
pub proof fn subscriptions_are_scoped<D, N>(
    h: HandlerView<D, N>,
    call: SubscribeCall<N>,
    uuid: Uuid,
    service: Uuid,
)
    ensures
        ({
            let listener = subscribed(h, call, true).listeners.last();
            &&& listener.callback == call.callback
            &&& hears(listener, uuid, service) <==> uuid == call.charac.uuid && service
                == call.charac.service_uuid
        }),
        forall|i: int|
            0 <= i < unsubscribed(h, uuid, true).listeners.len() ==> !hears(
                #[trigger] unsubscribed(h, uuid, true).listeners[i],
                uuid,
                service,
            ),
        forall|l: Listener<N>|
            l.uuid != uuid ==> (h.listeners.contains(l) <==> #[trigger] unsubscribed(
                h,
                uuid,
                true,
            ).listeners.contains(l)),
{
    broadcast use vstd::seq_lib::group_filter_ensures;

    let keep = |l: Listener<N>| l.uuid != uuid;
    let kept = h.listeners.filter(keep);
    assert forall|l: Listener<N>| l.uuid != uuid implies (h.listeners.contains(l)
        <==> #[trigger] unsubscribed(h, uuid, true).listeners.contains(l)) by {
        if kept.contains(l) {
            lemma_filter_subset(h.listeners, keep, l);
        }
        if h.listeners.contains(l) {
            let i = choose|i: int| 0 <= i < h.listeners.len() && h.listeners[i] == l;
            assert(kept.contains(h.listeners[i]));
        }
    }
}

proof fn lemma_filter_subset<A>(s: Seq<A>, keep: spec_fn(A) -> bool, x: A)
    requires
        s.filter(keep).contains(x),
    ensures
        s.contains(x),
    decreases s.len(),
{
    reveal(Seq::filter);
    if s.len() > 0 {
        let rest = s.drop_last();
        let i = choose|i: int| 0 <= i < s.filter(keep).len() && s.filter(keep)[i] == x;
        if keep(s.last()) && i == rest.filter(keep).len() {
            assert(s[s.len() - 1] == x);
        } else {
            assert(rest.filter(keep)[i] == x);
            lemma_filter_subset(rest, keep, x);
            let j = choose|j: int| 0 <= j < rest.len() && rest[j] == x;
            assert(s[j] == x);
        }
    }
}

} // verus!
