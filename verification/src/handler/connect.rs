//! Connecting a device.

use crate::error::{Error, ErrorView};
use crate::exchange::{
    run_with_timeout, timed_result, Effect, Next, NextView, OnDisconnectHandler, Reply, ReplyKind,
    Request, Step, StepView, Timed,
};
use crate::handler::disconnect::{
    disconnect_out, disconnect_start, disconnect_step, DisconnectPhase,
};
use crate::handler::link::{link_out, link_start, link_step, LinkPhase};
use crate::handler::scan::{
    discover_start, discover_step, stop_start, stop_step, DiscoverPhase, ScanOrder, Sink, StopPhase,
};
use crate::handler::{Handler, HandlerView, Out};
use crate::models::{
    addr_chars, all_charac_ids, collect_characs, fmt_addr, BleDevice, Peripheral, ScanFilter,
    Service,
};
use vstd::prelude::*;

verus! {

/// How long `connect` scans for an address it does not know, in milliseconds.
pub const ADDRESS_SCAN_MS: u64 = 1000;

/// How long `connect` waits before it tries again, in milliseconds.
pub const RETRY_PAUSE_MS: u64 = 1000;

/// How often `connect` tries.
pub const CONNECT_ATTEMPTS: u8 = 3;

/// How far a call to `connect` has got.
#[derive(Clone, Copy, Debug)]
pub enum ConnectPhase {
    /// A short scan for an address that is not known is started.
    Discovering(DiscoverPhase),
    /// The scan is running.
    Collecting,
    /// The scan is stopped.
    StoppingScan(StopPhase),
    /// The connected device is the wanted one; the backend is asked whether its link is up.
    Probing,
    /// The connected device is not the wanted one, or its link is down: it is disconnected.
    HangingUp(DisconnectPhase),
    /// The device is being connected, for the `attempt`-th time, counted from zero.
    Linking { attempt: u8, link: LinkPhase },
    /// The attempts before `attempt` have failed, and there is a pause.
    Pausing { attempt: u8 },
    /// All attempts have failed, and what may be left of the last one is cancelled.
    Cancelling,
    /// The services of the device are discovered.
    Discovery(Peripheral),
    /// The services could not be discovered, and the link is taken down.
    TearingDown(DisconnectPhase),
    /// Over.
    Finished,
}

impl ConnectPhase {
    /// Whether this phase waits for a reply of this kind.
    pub open spec fn awaits(self, kind: ReplyKind) -> bool {
        match self {
            ConnectPhase::Discovering(phase) => phase.awaits() == kind,
            ConnectPhase::Collecting => kind == ReplyKind::Devices,
            ConnectPhase::StoppingScan(phase) => phase.awaits() == kind,
            ConnectPhase::Probing => kind == ReplyKind::Flag,
            ConnectPhase::HangingUp(phase) => phase.awaits() == kind,
            ConnectPhase::Linking { link, .. } => link.awaits() == kind,
            ConnectPhase::Pausing { .. } => kind == ReplyKind::Plain,
            ConnectPhase::Cancelling => kind == ReplyKind::Plain,
            ConnectPhase::Discovery(_) => kind == ReplyKind::Services,
            ConnectPhase::TearingDown(phase) => phase.awaits() == kind,
            ConnectPhase::Finished => false,
        }
    }

    fn expects(&self, kind: ReplyKind) -> (expected: bool)
        ensures
            expected == self.awaits(kind),
    {
        match self {
            ConnectPhase::Discovering(phase) => phase.kind() == kind,
            ConnectPhase::Collecting => kind == ReplyKind::Devices,
            ConnectPhase::StoppingScan(phase) => phase.kind() == kind,
            ConnectPhase::Probing => kind == ReplyKind::Flag,
            ConnectPhase::HangingUp(phase) => phase.kind() == kind,
            ConnectPhase::Linking { link, .. } => link.kind() == kind,
            ConnectPhase::Pausing { .. } => kind == ReplyKind::Plain,
            ConnectPhase::Cancelling => kind == ReplyKind::Plain,
            ConnectPhase::Discovery(_) => kind == ReplyKind::Services,
            ConnectPhase::TearingDown(phase) => phase.kind() == kind,
            ConnectPhase::Finished => false,
        }
    }
}

/// A call to `connect`, under way.
pub struct ConnectCall<D> {
    address: String,
    on_disconnect: OnDisconnectHandler<D>,
    allow_ibeacons: bool,
    order: Option<ScanOrder>,
    failure: Option<Error>,
    phase: ConnectPhase,
}

/// The state of a [`ConnectCall`].
#[verifier::ext_equal]
pub ghost struct ConnectCallView<D> {
    pub address: Seq<char>,
    pub on_disconnect: OnDisconnectHandler<D>,
    pub allow_ibeacons: bool,
    /// The scan being started.
    pub order: Option<ScanOrder>,
    /// The error that the call will return once it has cleaned up.
    pub failure: Option<ErrorView>,
    pub phase: ConnectPhase,
}

impl<D> View for ConnectCall<D> {
    type V = ConnectCallView<D>;

    closed spec fn view(&self) -> ConnectCallView<D> {
        ConnectCallView {
            address: self.address@,
            on_disconnect: self.on_disconnect,
            allow_ibeacons: self.allow_ibeacons,
            order: self.order,
            failure: match self.failure {
                Some(e) => Some(e@),
                None => None,
            },
            phase: self.phase,
        }
    }
}

impl<D> ConnectCallView<D> {
    /// What a step of the call needs from the state that earlier steps left.
    pub open spec fn wf(self) -> bool {
        &&& self.phase is Discovering ==> self.order is Some
        &&& self.phase is Cancelling || self.phase is TearingDown ==> self.failure is Some
        &&& self.phase matches ConnectPhase::Linking { attempt, .. } ==> attempt < CONNECT_ATTEMPTS
        &&& self.phase matches ConnectPhase::Pausing { attempt } ==> attempt < CONNECT_ATTEMPTS
    }

    /// The call in another phase.
    pub open spec fn at(self, phase: ConnectPhase) -> Self {
        ConnectCallView { phase, ..self }
    }

    /// The call cleaning up in another phase, to return an error then.
    pub open spec fn failing(self, e: ErrorView, phase: ConnectPhase) -> Self {
        ConnectCallView { phase, failure: Some(e), ..self }
    }
}

/// What a step of a call to `connect` leads to.
#[verifier::ext_equal]
pub ghost struct ConnectOut<D, N> {
    pub h: HandlerView<D, N>,
    pub effects: Seq<Effect<D>>,
    pub call: ConnectCallView<D>,
    pub next: NextView<()>,
}

/// The call goes on in `phase` and asks for something.
pub open spec fn asking<D, N>(
    out: Out<D, N>,
    call: ConnectCallView<D>,
    request: Request,
) -> ConnectOut<D, N> {
    ConnectOut { h: out.h, effects: out.effects, call, next: NextView::Ask(request) }
}

/// The call returns.
pub open spec fn returning<D, N>(
    out: Out<D, N>,
    call: ConnectCallView<D>,
    result: Result<(), ErrorView>,
) -> ConnectOut<D, N> {
    ConnectOut {
        h: out.h,
        effects: out.effects,
        call: call.at(ConnectPhase::Finished),
        next: NextView::Done(result),
    }
}

/// The call returns the failure that it has cleaned up after.
pub open spec fn returning_failure<D, N>(
    out: Out<D, N>,
    call: ConnectCallView<D>,
) -> ConnectOut<D, N> {
    returning(out, ConnectCallView { failure: None, ..call }, Err(call.failure->0))
}

/// The state and effects once every trace of a connection is dropped.
pub open spec fn clearing<D, N>(out: Out<D, N>) -> Out<D, N> {
    Out { h: out.h.cleared(), effects: out.effects + out.h.clear_effects() }
}

/// The scan that `connect` runs for an address it does not know.
pub open spec fn address_scan() -> ScanOrder {
    ScanOrder { sink: Sink::Caller, timeout: ADDRESS_SCAN_MS, filter: ScanFilter::Unfiltered }
}

/// How a call to `connect` begins: an address that is not known is scanned for.
pub open spec fn connect_start<D, N>(
    h: HandlerView<D, N>,
    effects: Seq<Effect<D>>,
    call: ConnectCallView<D>,
) -> ConnectOut<D, N> {
    if h.devices.dom().contains(call.address) {
        scan_over(Out { h, effects }, call)
    } else {
        let (out, step) = discover_start(h, effects, address_scan(), call.allow_ibeacons);
        discovered(out, ConnectCallView { order: Some(address_scan()), ..call }, step)
    }
}

/// The start of the short scan has got as far as `step`.
pub open spec fn discovered<D, N>(
    out: Out<D, N>,
    call: ConnectCallView<D>,
    step: StepView<DiscoverPhase>,
) -> ConnectOut<D, N> {
    match step {
        StepView::Ask(phase, request) => asking(
            out,
            call.at(ConnectPhase::Discovering(phase)),
            request,
        ),
        StepView::Done(Err(e)) => returning(out, call, Err(e)),
        StepView::Done(Ok(_)) => asking(
            out,
            ConnectCallView { order: None, ..call.at(ConnectPhase::Collecting) },
            Request::NextDevices,
        ),
    }
}

/// Whether a device with this address is among those reported.
pub open spec fn reported(devices: Seq<BleDevice>, address: Seq<char>) -> bool {
    exists|i: int| 0 <= i < devices.len() && (#[trigger] devices[i]).address@ == address
}

/// The scan has reported devices, or is over. As soon as the device shows up there is no
/// need to go on scanning.
pub open spec fn collected<D, N>(
    out: Out<D, N>,
    call: ConnectCallView<D>,
    devices: Option<Vec<BleDevice>>,
) -> ConnectOut<D, N> {
    match devices {
        Some(devices) => if reported(devices@, call.address) {
            scan_over(out, call)
        } else {
            asking(out, call, Request::NextDevices)
        },
        None => scan_over(out, call),
    }
}

/// No more scan is needed: any scan that is running is stopped.
pub open spec fn scan_over<D, N>(out: Out<D, N>, call: ConnectCallView<D>) -> ConnectOut<D, N> {
    let (out, step) = stop_start(out.h, out.effects);
    stopped(out, call, step)
}

/// Stopping the scan has got as far as `step`; whether that works does not matter.
pub open spec fn stopped<D, N>(
    out: Out<D, N>,
    call: ConnectCallView<D>,
    step: StepView<StopPhase>,
) -> ConnectOut<D, N> {
    match step {
        StepView::Ask(phase, request) => asking(
            out,
            call.at(ConnectPhase::StoppingScan(phase)),
            request,
        ),
        StepView::Done(_) => leave_other(out, call),
    }
}

/// A connection to another device is not left open, nor one whose link is down.
pub open spec fn leave_other<D, N>(out: Out<D, N>, call: ConnectCallView<D>) -> ConnectOut<D, N> {
    match out.h.connected_dev {
        None => try_link(out, call, 0),
        Some(device) => if addr_chars(device.address) == call.address {
            asking(out, call.at(ConnectPhase::Probing), Request::IsConnected(device))
        } else {
            hang_up(out, call)
        },
    }
}

/// The connection that is there is ended.
pub open spec fn hang_up<D, N>(out: Out<D, N>, call: ConnectCallView<D>) -> ConnectOut<D, N> {
    hung_up(out, call, disconnect_start(out.h))
}

/// Ending the connection has got as far as `step`; whether that works does not matter.
pub open spec fn hung_up<D, N>(
    out: Out<D, N>,
    call: ConnectCallView<D>,
    step: StepView<DisconnectPhase>,
) -> ConnectOut<D, N> {
    match step {
        StepView::Ask(phase, request) => asking(
            out,
            call.at(ConnectPhase::HangingUp(phase)),
            request,
        ),
        StepView::Done(_) => try_link(out, call, 0),
    }
}

/// An attempt to connect the device.
pub open spec fn try_link<D, N>(
    out: Out<D, N>,
    call: ConnectCallView<D>,
    attempt: u8,
) -> ConnectOut<D, N> {
    linked(out, call, attempt, link_start(out.h, call.address))
}

/// An attempt to connect the device has got as far as `step`. After a failure there is
/// another attempt, up to [`CONNECT_ATTEMPTS`]; the last failure counts.
pub open spec fn linked<D, N>(
    out: Out<D, N>,
    call: ConnectCallView<D>,
    attempt: u8,
    step: StepView<LinkPhase>,
) -> ConnectOut<D, N> {
    match step {
        StepView::Ask(link, request) => asking(
            out,
            call.at(ConnectPhase::Linking { attempt, link }),
            request,
        ),
        StepView::Done(Ok(_)) => discover_characs(out, call),
        StepView::Done(Err(e)) => if attempt + 1 < CONNECT_ATTEMPTS {
            asking(
                out,
                call.at(ConnectPhase::Pausing { attempt: (attempt + 1) as u8 }),
                Request::Sleep(RETRY_PAUSE_MS),
            )
        } else {
            give_up(out, call, e)
        },
    }
}

/// All attempts have failed. One may still be pending: it is cancelled, so that the device
/// is not left half connected.
pub open spec fn give_up<D, N>(
    out: Out<D, N>,
    call: ConnectCallView<D>,
    e: ErrorView,
) -> ConnectOut<D, N> {
    match out.h.connected_dev {
        Some(device) => asking(
            out,
            call.failing(e, ConnectPhase::Cancelling),
            Request::Disconnect(device),
        ),
        None => returning(clearing(out), call, Err(e)),
    }
}

/// The link is up: the services of the device are discovered.
pub open spec fn discover_characs<D, N>(
    out: Out<D, N>,
    call: ConnectCallView<D>,
) -> ConnectOut<D, N> {
    match out.h.connected_dev {
        None => returning(out, call, Err(ErrorView::NoDeviceConnected)),
        Some(device) => asking(
            out,
            call.at(ConnectPhase::Discovery(device)),
            Request::DiscoverServices(device, out.h.timeouts.discover_services),
        ),
    }
}

/// The state and effects once the device is connected and its services are known.
pub open spec fn established<D, N>(
    out: Out<D, N>,
    call: ConnectCallView<D>,
    device: Peripheral,
    services: Seq<Service>,
) -> Out<D, N> {
    Out {
        h: HandlerView {
            on_disconnect: call.on_disconnect,
            characs: all_charac_ids(services),
            listen_task: Some(out.h.tasks),
            tasks: out.h.tasks.wrapping_add(1),
            ..out.h
        },
        effects: out.effects.push(Effect::StartNotify { task: out.h.tasks, device }).push(
            Effect::ConnectionUpdate(true),
        ),
    }
}

/// The services were discovered, or that has failed. A link that is up but of no use is
/// taken down; a link that was lost in the meantime is no connection.
pub open spec fn services_known<D, N>(
    out: Out<D, N>,
    call: ConnectCallView<D>,
    device: Peripheral,
    result: Result<Vec<Service>, ErrorView>,
) -> ConnectOut<D, N> {
    match result {
        Err(e) => torn_down(out, call.failing(e, call.phase), disconnect_start(out.h)),
        Ok(services) => if out.h.is_current(device.id) {
            returning(
                established(out, call, device, services@),
                ConnectCallView { on_disconnect: OnDisconnectHandler::Unset, ..call },
                Ok(()),
            )
        } else {
            returning(out, call, Err(ErrorView::NoDeviceConnected))
        },
    }
}

/// Taking the link down has got as far as `step`; then the failure is returned.
pub open spec fn torn_down<D, N>(
    out: Out<D, N>,
    call: ConnectCallView<D>,
    step: StepView<DisconnectPhase>,
) -> ConnectOut<D, N> {
    match step {
        StepView::Ask(phase, request) => asking(
            out,
            call.at(ConnectPhase::TearingDown(phase)),
            request,
        ),
        StepView::Done(_) => returning_failure(out, call),
    }
}

/// How a call to `connect` goes on after a reply.
pub open spec fn connect_step<D, N>(
    h: HandlerView<D, N>,
    effects: Seq<Effect<D>>,
    call: ConnectCallView<D>,
    reply: Reply,
) -> ConnectOut<D, N> {
    let out = Out { h, effects };
    match call.phase {
        ConnectPhase::Discovering(phase) => {
            let (out, step) = discover_step(
                h,
                effects,
                call.order->0,
                call.allow_ibeacons,
                phase,
                reply,
            );
            discovered(out, call, step)
        },
        ConnectPhase::Collecting => collected(out, call, reply->Devices_0),
        ConnectPhase::StoppingScan(phase) => {
            let (out, step) = stop_step(h, effects, phase, reply);
            stopped(out, call, step)
        },
        ConnectPhase::Probing => if reply == Reply::Flag(Ok(true)) {
            // the connection that is there is used
            try_link(out, call, 0)
        } else {
            hang_up(out, call)
        },
        ConnectPhase::HangingUp(phase) => hung_up(
            disconnect_out(h, effects, phase, reply),
            call,
            disconnect_step(h, phase, reply),
        ),
        ConnectPhase::Linking { attempt, link } => linked(
            link_out(h, effects, false, link, reply),
            call,
            attempt,
            link_step(h, false, link, reply),
        ),
        ConnectPhase::Pausing { attempt } => try_link(out, call, attempt),
        ConnectPhase::Cancelling => returning_failure(clearing(out), call),
        ConnectPhase::Discovery(device) => services_known(
            out,
            call,
            device,
            timed_result(reply->Services_0, "discover services"@),
        ),
        ConnectPhase::TearingDown(phase) => torn_down(
            disconnect_out(h, effects, phase, reply),
            call,
            disconnect_step(h, phase, reply),
        ),
        ConnectPhase::Finished => returning(out, call, Ok(())),
    }
}

impl<D, N> Handler<D, N> {
    /// Connects the device at `address`, and has `on_disconnect` called when the connection
    /// ends. An address that no scan has found yet is scanned for first. Because connecting
    /// fails now and then, it is tried up to three times.
    pub fn connect(
        &mut self,
        address: &str,
        on_disconnect: OnDisconnectHandler<D>,
        allow_ibeacons: bool,
        out: &mut Vec<Effect<D>>,
    ) -> (started: (ConnectCall<D>, Next<()>))
        ensures
            started.0@.wf(),
            (ConnectOut {
                h: final(self)@,
                effects: final(out)@,
                call: started.0@,
                next: started.1@,
            }) == connect_start(
                old(self)@,
                old(out)@,
                ConnectCallView {
                    address: address@,
                    on_disconnect,
                    allow_ibeacons,
                    order: None,
                    failure: None,
                    phase: ConnectPhase::Finished,
                },
            ),
    {
        let mut call = ConnectCall {
            address: address.to_owned(),
            on_disconnect,
            allow_ibeacons,
            order: None,
            failure: None,
            phase: ConnectPhase::Finished,
        };
        let next = if self.devices.contains(&call.address) {
            call.scan_over(self, out)
        } else {
            let order = ScanOrder {
                sink: Sink::Caller,
                timeout: ADDRESS_SCAN_MS,
                filter: ScanFilter::Unfiltered,
            };
            let step = self.begin_discover(&order, allow_ibeacons, out);
            call.order = Some(order);
            call.discovered(self, out, step)
        };
        (call, next)
    }
}

fn has_address(devices: &Vec<BleDevice>, address: &String) -> (found: bool)
    ensures
        found == reported(devices@, address@),
{
    let mut i: usize = 0;
    while i < devices.len()
        invariant
            i <= devices@.len(),
            forall|k: int| 0 <= k < i ==> (#[trigger] devices@[k]).address@ != address@,
        decreases devices.len() - i,
    {
        if devices[i].address == *address {
            return true;
        }
        i = i + 1;
    }
    false
}

impl<D> ConnectCall<D> {
    fn asking(&mut self, phase: ConnectPhase, request: Request) -> (next: Next<()>)
        ensures
            final(self)@ == old(self)@.at(phase),
            next@ == NextView::<()>::Ask(request),
    {
        self.phase = phase;
        Next::Ask(request)
    }

    fn returning(&mut self, result: Result<(), Error>) -> (next: Next<()>)
        ensures
            final(self)@ == old(self)@.at(ConnectPhase::Finished),
            next@ == (Next::Done(result))@,
    {
        self.phase = ConnectPhase::Finished;
        Next::Done(result)
    }

    fn discovered<N>(
        &mut self,
        handler: &mut Handler<D, N>,
        out: &mut Vec<Effect<D>>,
        step: Step<DiscoverPhase>,
    ) -> (next: Next<()>)
        requires
            step@ is Ask ==> old(self)@.order is Some,
        ensures
            final(self)@.wf(),
            (ConnectOut {
                h: final(handler)@,
                effects: final(out)@,
                call: final(self)@,
                next: next@,
            }) == discovered(Out { h: old(handler)@, effects: old(out)@ }, old(self)@, step@),
    {
        match step {
            Step::Ask(phase, request) => self.asking(ConnectPhase::Discovering(phase), request),
            Step::Done(Err(e)) => self.returning(Err(e)),
            Step::Done(Ok(_)) => {
                self.order = None;
                self.asking(ConnectPhase::Collecting, Request::NextDevices)
            },
        }
    }

    fn collected<N>(
        &mut self,
        handler: &mut Handler<D, N>,
        out: &mut Vec<Effect<D>>,
        devices: Option<Vec<BleDevice>>,
    ) -> (next: Next<()>)
        requires
            old(self)@.phase is Collecting,
        ensures
            final(self)@.wf(),
            (ConnectOut {
                h: final(handler)@,
                effects: final(out)@,
                call: final(self)@,
                next: next@,
            }) == collected(Out { h: old(handler)@, effects: old(out)@ }, old(self)@, devices),
    {
        match devices {
            Some(devices) => if has_address(&devices, &self.address) {
                self.scan_over(handler, out)
            } else {
                Next::Ask(Request::NextDevices)
            },
            None => self.scan_over(handler, out),
        }
    }

    fn scan_over<N>(
        &mut self,
        handler: &mut Handler<D, N>,
        out: &mut Vec<Effect<D>>,
    ) -> (next: Next<()>)
        ensures
            final(self)@.wf(),
            (ConnectOut {
                h: final(handler)@,
                effects: final(out)@,
                call: final(self)@,
                next: next@,
            }) == scan_over(Out { h: old(handler)@, effects: old(out)@ }, old(self)@),
    {
        let step = handler.begin_stop_scan(out);
        self.stopped(handler, out, step)
    }

    fn stopped<N>(
        &mut self,
        handler: &mut Handler<D, N>,
        out: &mut Vec<Effect<D>>,
        step: Step<StopPhase>,
    ) -> (next: Next<()>)
        ensures
            final(self)@.wf(),
            (ConnectOut {
                h: final(handler)@,
                effects: final(out)@,
                call: final(self)@,
                next: next@,
            }) == stopped(Out { h: old(handler)@, effects: old(out)@ }, old(self)@, step@),
    {
        match step {
            Step::Ask(phase, request) => self.asking(ConnectPhase::StoppingScan(phase), request),
            Step::Done(_) => self.leave_other(handler, out),
        }
    }

    fn leave_other<N>(
        &mut self,
        handler: &mut Handler<D, N>,
        out: &mut Vec<Effect<D>>,
    ) -> (next: Next<()>)
        ensures
            final(self)@.wf(),
            (ConnectOut {
                h: final(handler)@,
                effects: final(out)@,
                call: final(self)@,
                next: next@,
            }) == leave_other(Out { h: old(handler)@, effects: old(out)@ }, old(self)@),
    {
        match handler.connected_dev {
            None => self.try_link(handler, out, 0),
            Some(device) => if fmt_addr(device.address) == self.address {
                self.asking(ConnectPhase::Probing, Request::IsConnected(device))
            } else {
                self.hang_up(handler, out)
            },
        }
    }

    fn hang_up<N>(
        &mut self,
        handler: &mut Handler<D, N>,
        out: &mut Vec<Effect<D>>,
    ) -> (next: Next<()>)
        ensures
            final(self)@.wf(),
            (ConnectOut {
                h: final(handler)@,
                effects: final(out)@,
                call: final(self)@,
                next: next@,
            }) == hang_up(Out { h: old(handler)@, effects: old(out)@ }, old(self)@),
    {
        let step = handler.begin_disconnect();
        self.hung_up(handler, out, step)
    }

    fn hung_up<N>(
        &mut self,
        handler: &mut Handler<D, N>,
        out: &mut Vec<Effect<D>>,
        step: Step<DisconnectPhase>,
    ) -> (next: Next<()>)
        ensures
            final(self)@.wf(),
            (ConnectOut {
                h: final(handler)@,
                effects: final(out)@,
                call: final(self)@,
                next: next@,
            }) == hung_up(Out { h: old(handler)@, effects: old(out)@ }, old(self)@, step@),
    {
        match step {
            Step::Ask(phase, request) => self.asking(ConnectPhase::HangingUp(phase), request),
            Step::Done(_) => self.try_link(handler, out, 0),
        }
    }

    fn try_link<N>(
        &mut self,
        handler: &mut Handler<D, N>,
        out: &mut Vec<Effect<D>>,
        attempt: u8,
    ) -> (next: Next<()>)
        requires
            attempt < CONNECT_ATTEMPTS,
        ensures
            final(self)@.wf(),
            (ConnectOut {
                h: final(handler)@,
                effects: final(out)@,
                call: final(self)@,
                next: next@,
            }) == try_link(Out { h: old(handler)@, effects: old(out)@ }, old(self)@, attempt),
    {
        let step = handler.connect_device(&self.address);
        self.linked(handler, out, attempt, step)
    }

    fn linked<N>(
        &mut self,
        handler: &mut Handler<D, N>,
        out: &mut Vec<Effect<D>>,
        attempt: u8,
        step: Step<LinkPhase>,
    ) -> (next: Next<()>)
        requires
            attempt < CONNECT_ATTEMPTS,
        ensures
            final(self)@.wf(),
            (ConnectOut {
                h: final(handler)@,
                effects: final(out)@,
                call: final(self)@,
                next: next@,
            }) == linked(Out { h: old(handler)@, effects: old(out)@ }, old(self)@, attempt, step@),
    {
        match step {
            Step::Ask(link, request) => self.asking(
                ConnectPhase::Linking { attempt, link },
                request,
            ),
            Step::Done(Ok(_)) => self.discover_characs(handler, out),
            Step::Done(Err(e)) => if attempt + 1 < CONNECT_ATTEMPTS {
                self.asking(
                    ConnectPhase::Pausing { attempt: attempt + 1 },
                    Request::Sleep(RETRY_PAUSE_MS),
                )
            } else {
                self.give_up(handler, out, e)
            },
        }
    }

    fn give_up<N>(
        &mut self,
        handler: &mut Handler<D, N>,
        out: &mut Vec<Effect<D>>,
        e: Error,
    ) -> (next: Next<()>)
        ensures
            final(self)@.wf(),
            (ConnectOut {
                h: final(handler)@,
                effects: final(out)@,
                call: final(self)@,
                next: next@,
            }) == give_up(Out { h: old(handler)@, effects: old(out)@ }, old(self)@, e@),
    {
        match handler.connected_dev {
            Some(device) => {
                self.failure = Some(e);
                self.asking(ConnectPhase::Cancelling, Request::Disconnect(device))
            },
            None => {
                handler.clear_connection_state(out);
                self.returning(Err(e))
            },
        }
    }

    fn discover_characs<N>(
        &mut self,
        handler: &mut Handler<D, N>,
        out: &mut Vec<Effect<D>>,
    ) -> (next: Next<()>)
        ensures
            final(self)@.wf(),
            (ConnectOut {
                h: final(handler)@,
                effects: final(out)@,
                call: final(self)@,
                next: next@,
            }) == discover_characs(Out { h: old(handler)@, effects: old(out)@ }, old(self)@),
    {
        match handler.connected_dev {
            None => self.returning(Err(Error::NoDeviceConnected)),
            Some(device) => self.asking(
                ConnectPhase::Discovery(device),
                Request::DiscoverServices(device, handler.timeouts.discover_services),
            ),
        }
    }

    fn services_known<N>(
        &mut self,
        handler: &mut Handler<D, N>,
        out: &mut Vec<Effect<D>>,
        device: Peripheral,
        outcome: Timed<Vec<Service>>,
    ) -> (next: Next<()>)
        ensures
            final(self)@.wf(),
            (ConnectOut {
                h: final(handler)@,
                effects: final(out)@,
                call: final(self)@,
                next: next@,
            }) == services_known(
                Out { h: old(handler)@, effects: old(out)@ },
                old(self)@,
                device,
                timed_result(outcome, "discover services"@),
            ),
    {
        match run_with_timeout(outcome, "discover services") {
            Err(e) => {
                // the link is up but of no use
                self.failure = Some(e);
                let step = handler.begin_disconnect();
                self.torn_down(handler, out, step)
            },
            Ok(services) => {
                if !handler.is_current(device.id) {
                    return self.returning(Err(Error::NoDeviceConnected));
                }
                let task: u64 = handler.tasks;
                handler.tasks = task.wrapping_add(1);
                handler.on_disconnect = self.on_disconnect.take();
                handler.characs = collect_characs(&services);
                handler.listen_task = Some(task);
                out.push(Effect::StartNotify { task, device });
                out.push(Effect::ConnectionUpdate(true));
                self.returning(Ok(()))
            },
        }
    }

    fn torn_down<N>(
        &mut self,
        handler: &mut Handler<D, N>,
        out: &mut Vec<Effect<D>>,
        step: Step<DisconnectPhase>,
    ) -> (next: Next<()>)
        requires
            old(self)@.failure is Some,
        ensures
            final(self)@.wf(),
            (ConnectOut {
                h: final(handler)@,
                effects: final(out)@,
                call: final(self)@,
                next: next@,
            }) == torn_down(Out { h: old(handler)@, effects: old(out)@ }, old(self)@, step@),
    {
        match step {
            Step::Ask(phase, request) => self.asking(ConnectPhase::TearingDown(phase), request),
            Step::Done(_) => self.return_failure(),
        }
    }

    fn return_failure(&mut self) -> (next: Next<()>)
        requires
            old(self)@.failure is Some,
        ensures
            final(self)@ == (ConnectCallView {
                failure: None,
                ..old(self)@.at(ConnectPhase::Finished)
            }),
            next@ == NextView::<()>::Done(Err(old(self)@.failure->0)),
    {
        self.phase = ConnectPhase::Finished;
        match self.failure.take() {
            Some(e) => Next::Done(Err(e)),
            None => Next::Done(Ok(())),
        }
    }

    /// Whether this call waits for a reply of this kind.
    pub open spec fn spec_expects(self, kind: ReplyKind) -> bool {
        self@.wf() && self@.phase.awaits(kind)
    }

    /// Whether this call waits for a reply of this kind.
    pub fn expects(&self, kind: ReplyKind) -> (expected: bool)
        requires
            self@.wf(),
        ensures
            expected == self.spec_expects(kind),
    {
        self.phase.expects(kind)
    }

    /// Goes on with the call after the reply to its last request.
    pub fn step<N>(
        &mut self,
        handler: &mut Handler<D, N>,
        reply: Reply,
        out: &mut Vec<Effect<D>>,
    ) -> (next: Next<()>)
        requires
            old(self).spec_expects(reply.spec_kind()),
        ensures
            final(self)@.wf(),
            (ConnectOut {
                h: final(handler)@,
                effects: final(out)@,
                call: final(self)@,
                next: next@,
            }) == connect_step(old(handler)@, old(out)@, old(self)@, reply),
    {
        match self.phase {
            ConnectPhase::Discovering(phase) => {
                let mut order = self.order.take();
                let step = handler.discover_step(
                    &mut order,
                    self.allow_ibeacons,
                    phase,
                    reply,
                    out,
                );
                self.order = order;
                self.discovered(handler, out, step)
            },
            ConnectPhase::Collecting => match reply {
                Reply::Devices(devices) => self.collected(handler, out, devices),
                _ => self.returning(Ok(())),
            },
            ConnectPhase::StoppingScan(phase) => {
                let step = handler.stop_scan_step(phase, reply, out);
                self.stopped(handler, out, step)
            },
            ConnectPhase::Probing => match reply {
                // the connection that is there is used
                Reply::Flag(Ok(true)) => self.try_link(handler, out, 0),
                _ => self.hang_up(handler, out),
            },
            ConnectPhase::HangingUp(phase) => {
                let step = handler.disconnect_step(phase, reply, out);
                self.hung_up(handler, out, step)
            },
            ConnectPhase::Linking { attempt, link } => {
                let step = handler.connect_device_step(false, link, reply, out);
                self.linked(handler, out, attempt, step)
            },
            ConnectPhase::Pausing { attempt } => self.try_link(handler, out, attempt),
            ConnectPhase::Cancelling => {
                handler.clear_connection_state(out);
                self.return_failure()
            },
            ConnectPhase::Discovery(device) => match reply {
                Reply::Services(outcome) => self.services_known(handler, out, device, outcome),
                _ => self.returning(Ok(())),
            },
            ConnectPhase::TearingDown(phase) => {
                let step = handler.disconnect_step(phase, reply, out);
                self.torn_down(handler, out, step)
            },
            ConnectPhase::Finished => self.returning(Ok(())),
        }
    }
}

} // verus!
