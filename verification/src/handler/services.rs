//! Finding out what services a device has.

use crate::error::{Error, ErrorView};
use crate::exchange::{
    run_with_timeout, timed_result, Effect, Next, NextView, Reply, ReplyKind, Request, Signal,
    Step, StepView, Timed,
};
use crate::handler::link::{link_out, link_start, link_step, LinkPhase};
use crate::handler::{Handler, HandlerView, Out};
use crate::index::lookup;
use crate::models::{addr_chars, fmt_addr, Peripheral, Service};
use vstd::prelude::*;

verus! {

/// How far a call to `discover_services` has got. `stay` tells whether the device was
/// connected before, and so stays connected; `guest` tells whether another device is
/// connected, which is left alone.
#[derive(Clone, Copy, Debug)]
pub enum ServicesPhase {
    /// The backend looks the device up again: it may have dropped its record of it.
    Retrieving(Peripheral),
    /// The backend is asked whether the device is connected.
    Checking(Peripheral),
    /// The device is being connected.
    Linking { device: Peripheral, guest: bool, link: LinkPhase },
    /// The services that the backend knows already are read.
    Reading { device: Peripheral, guest: bool, stay: bool },
    /// The services are discovered.
    Discovery { device: Peripheral, guest: bool, stay: bool },
    /// The services of a guest could not be discovered, and its link is taken down.
    HangingUp,
    /// The device is disconnected again; there were `seen` signals before.
    Disconnecting { guest: bool, seen: u64 },
    /// The adapter has yet to report the end of the link.
    Waiting { guest: bool },
    /// Over.
    Finished,
}

impl ServicesPhase {
    /// Whether this phase waits for such a reply. The wait for the end of the link has no
    /// time limit, and it ends with a signal.
    pub open spec fn awaits(self, reply: Reply) -> bool {
        match self {
            ServicesPhase::Retrieving(_) => reply.spec_kind() == ReplyKind::Plain,
            ServicesPhase::Checking(_) => reply.spec_kind() == ReplyKind::Flag,
            ServicesPhase::Linking { link, .. } => reply.spec_kind() == link.awaits(),
            ServicesPhase::Reading { .. } => reply matches Reply::Services(Timed::Done(_)),
            ServicesPhase::Discovery { .. } => reply.spec_kind() == ReplyKind::Services,
            ServicesPhase::HangingUp => reply.spec_kind() == ReplyKind::Plain,
            ServicesPhase::Disconnecting { .. } => reply.spec_kind() == ReplyKind::Plain,
            ServicesPhase::Waiting { .. } => reply == Reply::Signal(Signal::Changed),
            ServicesPhase::Finished => false,
        }
    }

    /// Whether the device is a guest.
    pub open spec fn is_guest(self) -> bool {
        match self {
            ServicesPhase::Linking { guest, .. } => guest,
            ServicesPhase::Reading { guest, .. } => guest,
            ServicesPhase::Discovery { guest, .. } => guest,
            ServicesPhase::HangingUp => true,
            ServicesPhase::Disconnecting { guest, .. } => guest,
            ServicesPhase::Waiting { guest } => guest,
            _ => false,
        }
    }
}

/// A call to `discover_services`, under way.
pub struct ServicesCall {
    address: String,
    services: Option<Vec<Service>>,
    failure: Option<Error>,
    phase: ServicesPhase,
}

/// The state of a [`ServicesCall`].
#[verifier::ext_equal]
pub ghost struct ServicesCallView {
    pub address: Seq<char>,
    /// The services found, while the device is disconnected again.
    pub services: Option<Vec<Service>>,
    /// The error that the call will return once it has cleaned up.
    pub failure: Option<ErrorView>,
    pub phase: ServicesPhase,
}

impl View for ServicesCall {
    type V = ServicesCallView;

    closed spec fn view(&self) -> ServicesCallView {
        ServicesCallView {
            address: self.address@,
            services: self.services,
            failure: match self.failure {
                Some(e) => Some(e@),
                None => None,
            },
            phase: self.phase,
        }
    }
}

impl ServicesCallView {
    /// What a step of the call needs from the state that earlier steps left.
    pub open spec fn wf(self) -> bool {
        &&& self.phase is Disconnecting || self.phase is Waiting ==> self.services is Some
        &&& self.phase is HangingUp ==> self.failure is Some
    }

    /// The call in another phase.
    pub open spec fn at(self, phase: ServicesPhase) -> Self {
        ServicesCallView { phase, ..self }
    }

    /// The state once the call has let go of its guest, if it has one.
    pub open spec fn letting_go<D, N>(self, h: HandlerView<D, N>) -> HandlerView<D, N> {
        if self.phase.is_guest() {
            HandlerView { guest: None, ..h }
        } else {
            h
        }
    }
}

/// What a step of a call to `discover_services` leads to.
#[verifier::ext_equal]
pub ghost struct ServicesOut<D, N> {
    pub h: HandlerView<D, N>,
    pub effects: Seq<Effect<D>>,
    pub call: ServicesCallView,
    pub next: NextView<Vec<Service>>,
}

/// The call goes on and asks for something.
pub open spec fn asking<D, N>(
    out: Out<D, N>,
    call: ServicesCallView,
    request: Request,
) -> ServicesOut<D, N> {
    ServicesOut { h: out.h, effects: out.effects, call, next: NextView::Ask(request) }
}

/// The call returns; a guest is let go.
pub open spec fn returning<D, N>(
    out: Out<D, N>,
    call: ServicesCallView,
    result: Result<Vec<Service>, ErrorView>,
) -> ServicesOut<D, N> {
    ServicesOut {
        h: call.letting_go(out.h),
        effects: out.effects,
        call: ServicesCallView {
            services: None,
            failure: None,
            ..call.at(ServicesPhase::Finished)
        },
        next: NextView::Done(result),
    }
}

/// How a call begins: the connected device is used as it is, another one must have been
/// found by a scan.
pub open spec fn services_start<D, N>(
    h: HandlerView<D, N>,
    effects: Seq<Effect<D>>,
    call: ServicesCallView,
) -> ServicesOut<D, N> {
    let out = Out { h, effects };
    match h.connected_dev {
        Some(device) => if addr_chars(device.address) == call.address {
            read_services(out, call, device, false, true)
        } else {
            find_device(out, call)
        },
        None => find_device(out, call),
    }
}

/// The device is looked up among those that were found.
pub open spec fn find_device<D, N>(out: Out<D, N>, call: ServicesCallView) -> ServicesOut<D, N> {
    match lookup(out.h.devices, call.address) {
        None => returning(out, call, Err(ErrorView::UnknownPeripheral(call.address))),
        Some(device) => asking(
            out,
            call.at(ServicesPhase::Retrieving(device)),
            Request::Retrieve(device),
        ),
    }
}

/// The services that the backend knows are read.
pub open spec fn read_services<D, N>(
    out: Out<D, N>,
    call: ServicesCallView,
    device: Peripheral,
    guest: bool,
    stay: bool,
) -> ServicesOut<D, N> {
    asking(
        out,
        call.at(ServicesPhase::Reading { device, guest, stay }),
        Request::ReadServices(device),
    )
}

/// Connecting the device has got as far as `step`. After a failure it is not connected; a
/// connection to another device stays as it is.
pub open spec fn linked<D, N>(
    out: Out<D, N>,
    call: ServicesCallView,
    device: Peripheral,
    guest: bool,
    step: StepView<LinkPhase>,
) -> ServicesOut<D, N> {
    match step {
        StepView::Ask(link, request) => asking(
            out,
            call.at(ServicesPhase::Linking { device, guest, link }),
            request,
        ),
        StepView::Done(Ok(_)) => read_services(out, call, device, guest, false),
        StepView::Done(Err(e)) => if guest {
            returning(out, call, Err(e))
        } else {
            returning(
                Out {
                    h: HandlerView { connected_dev: None, ..out.h.signalled(false) },
                    effects: out.effects.push(Effect::Signal(false)),
                },
                call,
                Err(e),
            )
        },
    }
}

/// The services are known: a device that was only connected for this is disconnected.
pub open spec fn services_known<D, N>(
    out: Out<D, N>,
    call: ServicesCallView,
    device: Peripheral,
    guest: bool,
    stay: bool,
    services: Vec<Service>,
) -> ServicesOut<D, N> {
    if !stay && out.h.up(guest) {
        asking(
            out,
            ServicesCallView {
                services: Some(services),
                ..call.at(ServicesPhase::Disconnecting { guest, seen: out.h.signals })
            },
            Request::Disconnect(device),
        )
    } else {
        returning(out, call, Ok(services))
    }
}

/// The services could not be discovered. The link of a guest that is up is taken down.
pub open spec fn services_unknown<D, N>(
    out: Out<D, N>,
    call: ServicesCallView,
    device: Peripheral,
    guest: bool,
    e: ErrorView,
) -> ServicesOut<D, N> {
    if guest && out.h.up(guest) {
        asking(
            out,
            ServicesCallView { failure: Some(e), ..call.at(ServicesPhase::HangingUp) },
            Request::Disconnect(device),
        )
    } else {
        returning(out, call, Err(e))
    }
}

/// How a call to `discover_services` goes on after a reply.
pub open spec fn services_step<D, N>(
    h: HandlerView<D, N>,
    effects: Seq<Effect<D>>,
    call: ServicesCallView,
    reply: Reply,
) -> ServicesOut<D, N> {
    let out = Out { h, effects };
    match call.phase {
        ServicesPhase::Retrieving(device) => asking(
            out,
            call.at(ServicesPhase::Checking(device)),
            Request::IsConnected(device),
        ),
        ServicesPhase::Checking(device) => match reply->Flag_0 {
            Err(e) => returning(out, call, Err(ErrorView::Btleplug(e))),
            Ok(true) => read_services(out, call, device, false, true),
            Ok(false) => linked(
                out,
                call,
                device,
                h.connected_dev is Some,
                link_start(h, call.address),
            ),
        },
        ServicesPhase::Linking { device, guest, link } => linked(
            link_out(h, effects, guest, link, reply),
            call,
            device,
            guest,
            link_step(h, guest, link, reply),
        ),
        ServicesPhase::Reading { device, guest, stay } => {
            let services = reply->Services_0->Done_0;
            if services@.len() == 0 {
                asking(
                    out,
                    call.at(ServicesPhase::Discovery { device, guest, stay }),
                    Request::DiscoverServices(device, h.timeouts.discover_services),
                )
            } else {
                services_known(out, call, device, guest, stay, services)
            }
        },
        ServicesPhase::Discovery { device, guest, stay } => match timed_result(
            reply->Services_0,
            "discover services"@,
        ) {
            Err(e) => services_unknown(out, call, device, guest, e),
            Ok(services) => services_known(out, call, device, guest, stay, services),
        },
        ServicesPhase::HangingUp => returning(out, call, Err(call.failure->0)),
        ServicesPhase::Disconnecting { guest, seen } => match reply->Plain_0 {
            Err(e) => returning(out, call, Err(ErrorView::Btleplug(e))),
            Ok(_) => asking(
                out,
                call.at(ServicesPhase::Waiting { guest }),
                Request::AwaitSignal { seen, timeout: None },
            ),
        },
        ServicesPhase::Waiting { .. } => returning(out, call, Ok(call.services->0)),
        ServicesPhase::Finished => returning(out, call, Err(ErrorView::NoDeviceConnected)),
    }
}

impl<D, N> Handler<D, N> {
    /// Finds out what services the device at `address` has. A device that is not connected
    /// is connected for that, and disconnected afterwards; one that is connected stays so, and
    /// so does a connection to another device.
    pub fn discover_services(&self, address: &str) -> (started: (ServicesCall, Next<Vec<Service>>))
        ensures
            started.0@.wf(),
            (ServicesOut::<D, N> {
                h: self@,
                effects: Seq::empty(),
                call: started.0@,
                next: started.1@,
            }) == services_start(
                self@,
                Seq::empty(),
                ServicesCallView {
                    address: address@,
                    services: None,
                    failure: None,
                    phase: ServicesPhase::Finished,
                },
            ),
    {
        let mut call = ServicesCall {
            address: address.to_owned(),
            services: None,
            failure: None,
            phase: ServicesPhase::Finished,
        };
        match self.connected_dev {
            Some(device) => {
                if fmt_addr(device.address) == call.address {
                    let next = call.read_services(device, false, true);
                    return (call, next);
                }
            },
            None => {},
        }
        let next = match self.devices.get(&call.address) {
            None => call.over(Err(Error::UnknownPeripheral(address.to_owned()))),
            Some(device) => call.asking(
                ServicesPhase::Retrieving(device),
                Request::Retrieve(device),
            ),
        };
        (call, next)
    }
}

impl ServicesCall {
    fn asking(&mut self, phase: ServicesPhase, request: Request) -> (next: Next<Vec<Service>>)
        ensures
            final(self)@ == old(self)@.at(phase),
            next@ == NextView::<Vec<Service>>::Ask(request),
    {
        self.phase = phase;
        Next::Ask(request)
    }

    fn over(&mut self, result: Result<Vec<Service>, Error>) -> (next: Next<Vec<Service>>)
        ensures
            final(self)@ == (ServicesCallView {
                services: None,
                failure: None,
                ..old(self)@.at(ServicesPhase::Finished)
            }),
            next@ == (Next::Done(result))@,
    {
        self.phase = ServicesPhase::Finished;
        self.services = None;
        self.failure = None;
        Next::Done(result)
    }

    fn has_guest(&self) -> (guest: bool)
        ensures
            guest == self@.phase.is_guest(),
    {
        match self.phase {
            ServicesPhase::Linking { guest, .. } => guest,
            ServicesPhase::Reading { guest, .. } => guest,
            ServicesPhase::Discovery { guest, .. } => guest,
            ServicesPhase::HangingUp => true,
            ServicesPhase::Disconnecting { guest, .. } => guest,
            ServicesPhase::Waiting { guest } => guest,
            _ => false,
        }
    }

    fn returning<D, N>(
        &mut self,
        handler: &mut Handler<D, N>,
        result: Result<Vec<Service>, Error>,
    ) -> (next: Next<Vec<Service>>)
        ensures
            final(handler)@ == old(self)@.letting_go(old(handler)@),
            final(self)@ == (ServicesCallView {
                services: None,
                failure: None,
                ..old(self)@.at(ServicesPhase::Finished)
            }),
            next@ == (Next::Done(result))@,
    {
        if self.has_guest() {
            handler.guest = None;
        }
        self.over(result)
    }

    fn read_services(&mut self, device: Peripheral, guest: bool, stay: bool) -> (next: Next<
        Vec<Service>,
    >)
        ensures
            final(self)@ == old(self)@.at(ServicesPhase::Reading { device, guest, stay }),
            next@ == NextView::<Vec<Service>>::Ask(Request::ReadServices(device)),
    {
        self.asking(ServicesPhase::Reading { device, guest, stay }, Request::ReadServices(device))
    }

    fn linked<D, N>(
        &mut self,
        handler: &mut Handler<D, N>,
        out: &mut Vec<Effect<D>>,
        device: Peripheral,
        guest: bool,
        step: Step<LinkPhase>,
    ) -> (next: Next<Vec<Service>>)
        ensures
            final(self)@.wf(),
            (ServicesOut {
                h: final(handler)@,
                effects: final(out)@,
                call: final(self)@,
                next: next@,
            }) == linked(
                Out { h: old(handler)@, effects: old(out)@ },
                old(self)@,
                device,
                guest,
                step@,
            ),
    {
        match step {
            Step::Ask(link, request) => self.asking(
                ServicesPhase::Linking { device, guest, link },
                request,
            ),
            Step::Done(Ok(_)) => self.read_services(device, guest, false),
            Step::Done(Err(e)) => {
                if !guest {
                    handler.connected_dev = None;
                    handler.signal(false, out);
                }
                self.returning(handler, Err(e))
            },
        }
    }

    fn services_known<D, N>(
        &mut self,
        handler: &mut Handler<D, N>,
        device: Peripheral,
        guest: bool,
        stay: bool,
        services: Vec<Service>,
    ) -> (next: Next<Vec<Service>>)
        ensures
            final(self)@.wf(),
            forall|effects: Seq<Effect<D>>|
                (ServicesOut {
                    h: final(handler)@,
                    effects,
                    call: final(self)@,
                    next: next@,
                }) == #[trigger] services_known(
                    Out { h: old(handler)@, effects },
                    old(self)@,
                    device,
                    guest,
                    stay,
                    services,
                ),
    {
        if !stay && handler.up(guest) {
            self.services = Some(services);
            self.asking(
                ServicesPhase::Disconnecting { guest, seen: handler.signals },
                Request::Disconnect(device),
            )
        } else {
            self.returning(handler, Ok(services))
        }
    }

    fn services_unknown<D, N>(
        &mut self,
        handler: &mut Handler<D, N>,
        device: Peripheral,
        guest: bool,
        e: Error,
    ) -> (next: Next<Vec<Service>>)
        ensures
            final(self)@.wf(),
            forall|effects: Seq<Effect<D>>|
                (ServicesOut {
                    h: final(handler)@,
                    effects,
                    call: final(self)@,
                    next: next@,
                }) == #[trigger] services_unknown(
                    Out { h: old(handler)@, effects },
                    old(self)@,
                    device,
                    guest,
                    e@,
                ),
    {
        if guest && handler.up(guest) {
            // the link is up but of no use
            self.failure = Some(e);
            self.asking(ServicesPhase::HangingUp, Request::Disconnect(device))
        } else {
            self.returning(handler, Err(e))
        }
    }

    /// Whether this call waits for such a reply.
    pub fn expects(&self, reply: &Reply) -> (expected: bool)
        ensures
            expected == self@.phase.awaits(*reply),
    {
        match &self.phase {
            ServicesPhase::Retrieving(_) => reply.kind() == ReplyKind::Plain,
            ServicesPhase::Checking(_) => reply.kind() == ReplyKind::Flag,
            ServicesPhase::Linking { link, .. } => reply.kind() == link.kind(),
            ServicesPhase::Reading { .. } => match reply {
                Reply::Services(Timed::Done(_)) => true,
                _ => false,
            },
            ServicesPhase::Discovery { .. } => reply.kind() == ReplyKind::Services,
            ServicesPhase::HangingUp => reply.kind() == ReplyKind::Plain,
            ServicesPhase::Disconnecting { .. } => reply.kind() == ReplyKind::Plain,
            ServicesPhase::Waiting { .. } => match reply {
                Reply::Signal(Signal::Changed) => true,
                _ => false,
            },
            ServicesPhase::Finished => false,
        }
    }

    /// Goes on with the call after the reply to its last request.
    pub fn step<D, N>(
        &mut self,
        handler: &mut Handler<D, N>,
        reply: Reply,
        out: &mut Vec<Effect<D>>,
    ) -> (next: Next<Vec<Service>>)
        requires
            old(self)@.wf(),
            old(self)@.phase.awaits(reply),
        ensures
            final(self)@.wf(),
            (ServicesOut {
                h: final(handler)@,
                effects: final(out)@,
                call: final(self)@,
                next: next@,
            }) == services_step(old(handler)@, old(out)@, old(self)@, reply),
    {
        match (self.phase, reply) {
            (ServicesPhase::Retrieving(device), _) => self.asking(
                ServicesPhase::Checking(device),
                Request::IsConnected(device),
            ),
            (ServicesPhase::Checking(_), Reply::Flag(Err(e))) => self.returning(
                handler,
                Err(Error::Btleplug(e)),
            ),
            (ServicesPhase::Checking(device), Reply::Flag(Ok(true))) => self.read_services(
                device,
                false,
                true,
            ),
            (ServicesPhase::Checking(device), _) => {
                let guest = handler.connected_dev.is_some();
                let step = handler.connect_device(&self.address);
                self.linked(handler, out, device, guest, step)
            },
            (ServicesPhase::Linking { device, guest, link }, reply) => {
                let step = handler.connect_device_step(guest, link, reply, out);
                self.linked(handler, out, device, guest, step)
            },
            (
                ServicesPhase::Reading { device, guest, stay },
                Reply::Services(Timed::Done(services)),
            ) => {
                if services.len() == 0 {
                    self.asking(
                        ServicesPhase::Discovery { device, guest, stay },
                        Request::DiscoverServices(device, handler.timeouts.discover_services),
                    )
                } else {
                    self.services_known(handler, device, guest, stay, services)
                }
            },
            (ServicesPhase::Discovery { device, guest, stay }, Reply::Services(outcome)) => {
                match run_with_timeout(outcome, "discover services") {
                    Err(e) => self.services_unknown(handler, device, guest, e),
                    Ok(services) => self.services_known(handler, device, guest, stay, services),
                }
            },
            (ServicesPhase::Disconnecting { .. }, Reply::Plain(Err(e))) => self.returning(
                handler,
                Err(Error::Btleplug(e)),
            ),
            (ServicesPhase::Disconnecting { guest, seen }, _) => self.asking(
                ServicesPhase::Waiting { guest },
                Request::AwaitSignal { seen, timeout: None },
            ),
            (ServicesPhase::HangingUp, _) => match self.failure.take() {
                Some(e) => self.returning(handler, Err(e)),
                None => self.returning(handler, Err(Error::NoDeviceConnected)),
            },
            _ => match self.services.take() {
                Some(services) => self.returning(handler, Ok(services)),
                None => self.returning(handler, Err(Error::NoDeviceConnected)),
            },
        }
    }
}

/// A device that was connected before stays so: looking up its services never disconnects it.
/// A device that was not is disconnected once its services are known, if it is connected.
pub proof fn lookups_leave_connections_as_they_were<D, N>(
    h: HandlerView<D, N>,
    effects: Seq<Effect<D>>,
    call: ServicesCallView,
    reply: Reply,
)
    requires
        call.wf(),
        call.phase.awaits(reply),
    ensures
        ({
            let r = services_step(h, effects, call, reply);
            match call.phase {
                ServicesPhase::Reading { guest, stay, .. } | ServicesPhase::Discovery {
                    guest,
                    stay,
                    ..
                } => {
                    &&& r.h == (HandlerView { guest: r.h.guest, ..h })
                    &&& r.effects == effects
                    &&& r.call.phase is Disconnecting ==> !stay
                    &&& r.next.succeeded() ==> stay || !h.up(guest)
                },
                _ => true,
            }
        }),
{
}

/// While a device is connected, looking up the services of another one leaves the connection
/// alone, however it goes: nothing of it changes, no callback runs and nothing is announced.
/// Once the lookup is over, no guest is left.
pub proof fn lookups_beside_a_connection_leave_it_alone<D, N>(
    h: HandlerView<D, N>,
    call: ServicesCallView,
    reply: Reply,
)
    requires
        call.wf(),
        call.phase.awaits(reply),
        call.phase.is_guest() || (call.phase is Checking && h.connected_dev is Some),
    ensures
        ({
            let r = services_step(h, Seq::empty(), call, reply);
            &&& r.h == (HandlerView { guest: r.h.guest, signals: r.h.signals, ..h })
            &&& forall|i: int|
                0 <= i < r.effects.len() ==> #[trigger] r.effects[i] == Effect::<D>::Signal(
                    h.connected,
                )
            &&& r.next is Done && call.phase.is_guest() ==> r.h.guest is None
            &&& r.next is Ask ==> r.call.phase.is_guest() || r.call.phase is Reading
        }),
{
}

} // verus!
