//! What looking up the services of a device is for.

use crate::error::{BackendError, ErrorView};
use crate::exchange::{Effect, NextView, Reply, ReplyKind, Request, Signal, Timed};
use crate::handler::link::LinkPhase;
use crate::handler::services::{
    services_start, services_step, ServicesCallView, ServicesOut, ServicesPhase,
};
use crate::handler::{event_next, CentralEvent, Guest, HandlerView};
use crate::models::{addr_chars, Peripheral, Service};
use crate::session::services_call;
use vstd::prelude::*;

verus! {

/// The call asks for this next; nothing changes and nobody is told anything.
pub open spec fn only_asks<D, N>(
    h: HandlerView<D, N>,
    r: ServicesOut<D, N>,
    request: Request,
) -> bool {
    &&& r.next == NextView::<Vec<Service>>::Ask(request)
    &&& r.h == h
    &&& r.effects == Seq::<Effect<D>>::empty()
}

/// The call returns this; nothing changes but that a guest is let go, and nobody is told
/// anything.
pub open spec fn only_returns<D, N>(
    h: HandlerView<D, N>,
    r: ServicesOut<D, N>,
    result: Result<Vec<Service>, ErrorView>,
) -> bool {
    &&& r.next == NextView::Done(result)
    &&& r.h == (HandlerView { guest: r.h.guest, ..h })
    &&& r.h.guest == h.guest || r.h.guest is None
    &&& r.effects == Seq::<Effect<D>>::empty()
}

/// A lookup of the device that is held reads its services at once. One of another address
/// takes a device that a scan has found, which the backend is asked to look up again and then
/// whether it is connected; an address that is not known is an error.
pub proof fn lookups_need_a_known_device<D, N>(
    h: HandlerView<D, N>,
    address: Seq<char>,
    retrieved: Reply,
    h2: HandlerView<D, N>,
)
    requires
        retrieved.spec_kind() == ReplyKind::Plain,
    ensures
        ({
            let r = services_start(h, Seq::empty(), services_call(address));
            let r2 = services_step(h2, Seq::empty(), r.call, retrieved);
            if h.connected_dev is Some && addr_chars(h.connected_dev->0.address) == address {
                &&& only_asks(h, r, Request::ReadServices(h.connected_dev->0))
                &&& r.call.phase == (ServicesPhase::Reading {
                    device: h.connected_dev->0,
                    guest: false,
                    stay: true,
                })
            } else if h.devices.dom().contains(address) {
                &&& only_asks(h, r, Request::Retrieve(h.devices[address]))
                &&& only_asks(h2, r2, Request::IsConnected(h.devices[address]))
                &&& r2.call.phase == ServicesPhase::Checking(h.devices[address])
                &&& r2.call.address == address
            } else {
                only_returns(h, r, Err(ErrorView::UnknownPeripheral(address)))
            }
        }),
{
}

/// A device that the backend has connected already has its services read, and discovered if
/// there are none yet. What the backend has read or discovered is returned, and the device is
/// not disconnected: it was connected before and stays so.
pub proof fn connected_devices_are_looked_up_as_they_are<D, N>(
    h: HandlerView<D, N>,
    call: ServicesCallView,
    device: Peripheral,
    h2: HandlerView<D, N>,
    read: Vec<Service>,
    h3: HandlerView<D, N>,
    discovered: Vec<Service>,
)
    requires
        call.wf(),
        call.phase == ServicesPhase::Checking(device),
    ensures
        ({
            let e = Seq::<Effect<D>>::empty();
            let r1 = services_step(h, e, call, Reply::Flag(Ok(true)));
            let r2 = services_step(h2, e, r1.call, Reply::Services(Timed::Done(read)));
            let r3 = services_step(h3, e, r2.call, Reply::Services(Timed::Done(discovered)));
            &&& only_asks(h, r1, Request::ReadServices(device))
            &&& read@.len() > 0 ==> only_returns(h2, r2, Ok(read))
            &&& read@.len() == 0 ==> {
                &&& only_asks(
                    h2,
                    r2,
                    Request::DiscoverServices(device, h2.timeouts.discover_services),
                )
                &&& only_returns(h3, r3, Ok(discovered))
            }
        }),
{
}

/// The same holds of the device that the handler holds itself.
pub proof fn held_devices_are_looked_up_as_they_are<D, N>(
    h: HandlerView<D, N>,
    address: Seq<char>,
    device: Peripheral,
    h2: HandlerView<D, N>,
    read: Vec<Service>,
    h3: HandlerView<D, N>,
    outcome: Timed<Vec<Service>>,
)
    requires
        h.connected_dev == Some(device),
        addr_chars(device.address) == address,
    ensures
        ({
            let e = Seq::<Effect<D>>::empty();
            let r1 = services_start(h, e, services_call(address));
            let r2 = services_step(h2, e, r1.call, Reply::Services(Timed::Done(read)));
            let r3 = services_step(h3, e, r2.call, Reply::Services(outcome));
            &&& only_asks(h, r1, Request::ReadServices(device))
            &&& read@.len() > 0 ==> only_returns(h2, r2, Ok(read))
            &&& read@.len() == 0 ==> {
                &&& only_asks(
                    h2,
                    r2,
                    Request::DiscoverServices(device, h2.timeouts.discover_services),
                )
                &&& only_returns(
                    h3,
                    r3,
                    match outcome {
                        Timed::Done(services) => Ok(services),
                        Timed::Failed(why) => Err(ErrorView::Btleplug(why)),
                        Timed::TimedOut => Err(ErrorView::Timeout("discover services"@)),
                    },
                )
            }
        }),
{
}

/// A backend that cannot tell whether the device is connected makes the lookup fail.
pub proof fn unclear_links_are_errors<D, N>(
    h: HandlerView<D, N>,
    call: ServicesCallView,
    device: Peripheral,
    e: BackendError,
)
    requires
        call.wf(),
        call.phase == ServicesPhase::Checking(device),
    ensures
        only_returns(
            h,
            services_step(h, Seq::empty(), call, Reply::Flag(Err(e))),
            Err(ErrorView::Btleplug(e)),
        ),
{
}

/// A device that is not connected is connected for the lookup, as a guest if another device is
/// connected. If it is not known any more, the lookup fails, and a connection stays as it is.
pub proof fn lookups_connect_the_device<D, N>(
    h: HandlerView<D, N>,
    call: ServicesCallView,
    device: Peripheral,
)
    requires
        call.wf(),
        call.phase == ServicesPhase::Checking(device),
    ensures
        ({
            let r = services_step(h, Seq::empty(), call, Reply::Flag(Ok(false)));
            let known = h.devices[call.address];
            if h.devices.dom().contains(call.address) {
                &&& only_asks(h, r, Request::Retrieve(known))
                &&& r.call.phase == (ServicesPhase::Linking {
                    device,
                    guest: h.connected_dev is Some,
                    link: LinkPhase::Retrieving(known),
                })
            } else {
                &&& r.next == NextView::<Vec<Service>>::Done(
                    Err(ErrorView::UnknownPeripheral(call.address)),
                )
                &&& r.h.connected_dev == h.connected_dev
                &&& h.connected_dev is Some ==> r.h == h && r.effects.len() == 0
                &&& h.connected_dev is None ==> r.h == (HandlerView {
                    connected: false,
                    signals: r.h.signals,
                    ..h
                }) && r.effects == seq![
                    Effect::<D>::Signal(false),
                ]
            }
        }),
{
    let r = services_step(h, Seq::empty(), call, Reply::Flag(Ok(false)));
    if h.connected_dev is None && !h.devices.dom().contains(call.address) {
        assert(r.effects =~= seq![Effect::<D>::Signal(false)]);
    }
}

/// A lookup whose backend does what it is told: the device is connected and reported, its
/// services are read, or discovered if there are none yet, the device is disconnected again,
/// the end of the link is waited for, and then the services are returned. A guest leaves the
/// connection to another device untouched all the while.
pub proof fn willing_devices_are_looked_up<D, N>(
    h: HandlerView<D, N>,
    call: ServicesCallView,
    device: Peripheral,
    read: Vec<Service>,
    discovered: Vec<Service>,
)
    requires
        call.wf(),
        call.phase == ServicesPhase::Checking(device),
        h.devices.dom().contains(call.address),
        h.devices[call.address] == device,
        h.connected_dev is Some ==> h.connected_dev->0.id != device.id,
        h.connected <==> h.connected_dev is Some,
        h.guest is None,
    ensures
        ({
            let e = Seq::<Effect<D>>::empty();
            let r1 = services_step(h, e, call, Reply::Flag(Ok(false)));
            let r2 = services_step(r1.h, e, r1.call, Reply::Plain(Ok(())));
            let r3 = services_step(r2.h, e, r2.call, Reply::Flag(Ok(false)));
            let up = event_next(r3.h, CentralEvent::DeviceConnected(device.id)).h;
            let r4 = services_step(up, e, r3.call, Reply::Connected(Timed::Done(())));
            let r5 = services_step(r4.h, e, r4.call, Reply::Services(Timed::Done(read)));
            let r6 = services_step(r5.h, e, r5.call, Reply::Services(Timed::Done(discovered)));
            let known = if read@.len() > 0 {
                r5
            } else {
                r6
            };
            let services = if read@.len() > 0 {
                read
            } else {
                discovered
            };
            let r7 = services_step(known.h, e, known.call, Reply::Plain(Ok(())));
            let down = event_next(r7.h, CentralEvent::DeviceDisconnected(device.id)).h;
            let r8 = services_step(down, e, r7.call, Reply::Signal(Signal::Changed));
            &&& r2.next == NextView::<Vec<Service>>::Ask(Request::IsConnected(device))
            &&& r3.next == NextView::<Vec<Service>>::Ask(
                Request::Connect(device, h.timeouts.connect),
            )
            &&& r4.next == NextView::<Vec<Service>>::Ask(Request::ReadServices(device))
            &&& read@.len() == 0 ==> r5.next == NextView::<Vec<Service>>::Ask(
                Request::DiscoverServices(device, h.timeouts.discover_services),
            )
            &&& known.next == NextView::<Vec<Service>>::Ask(Request::Disconnect(device))
            &&& r7.next == NextView::<Vec<Service>>::Ask(
                Request::AwaitSignal { seen: known.h.signals, timeout: None },
            )
            &&& r8.next == NextView::<Vec<Service>>::Done(Ok(services))
            &&& r8.h.guest is None
            &&& r8.h.connected_dev == h.connected_dev
            &&& r8.h.connected == h.connected
            &&& h.connected_dev is Some ==> r8.h == (HandlerView { signals: r8.h.signals, ..h })
        }),
{
}

/// A lookup that has connected its device disconnects it again before it returns what was
/// discovered, as long as the link is up; a link that is gone needs no disconnect. Services
/// that cannot be discovered are an error; a guest that is still connected is disconnected.
pub proof fn lookups_disconnect_what_they_connected<D, N>(
    h: HandlerView<D, N>,
    call: ServicesCallView,
    device: Peripheral,
    guest: bool,
    outcome: Timed<Vec<Service>>,
    h2: HandlerView<D, N>,
    told: Reply,
)
    requires
        call.wf(),
        call.phase == (ServicesPhase::Discovery { device, guest, stay: false }),
        told.spec_kind() == ReplyKind::Plain,
    ensures
        ({
            let up = if guest {
                h.guest is Some && h.guest->0.up
            } else {
                h.connected
            };
            let e = Seq::<Effect<D>>::empty();
            let r = services_step(h, e, call, Reply::Services(outcome));
            let r2 = services_step(h2, e, r.call, told);
            match outcome {
                Timed::Done(services) => if up {
                    &&& only_asks(h, r, Request::Disconnect(device))
                    &&& match told {
                        Reply::Plain(Err(why)) => only_returns(
                            h2,
                            r2,
                            Err(ErrorView::Btleplug(why)),
                        ),
                        _ => {
                            &&& only_asks(
                                h2,
                                r2,
                                Request::AwaitSignal { seen: h.signals, timeout: None },
                            )
                            &&& forall|h3: HandlerView<D, N>|
                                only_returns(
                                    h3,
                                    #[trigger] services_step(
                                        h3,
                                        e,
                                        r2.call,
                                        Reply::Signal(Signal::Changed),
                                    ),
                                    Ok(services),
                                )
                        },
                    }
                } else {
                    only_returns(h, r, Ok(services))
                },
                _ => {
                    let why = match outcome {
                        Timed::Failed(why) => ErrorView::Btleplug(why),
                        _ => ErrorView::Timeout("discover services"@),
                    };
                    if guest && up {
                        &&& only_asks(h, r, Request::Disconnect(device))
                        &&& only_returns(h2, r2, Err(why))
                        &&& r2.h.guest is None
                    } else {
                        only_returns(h, r, Err(why))
                    }
                },
            }
        }),
{
}

/// Services that the backend knows already are enough, also after the device was connected for
/// the lookup: they are kept while the device is disconnected, and none are discovered.
pub proof fn known_services_are_not_discovered_again<D, N>(
    h: HandlerView<D, N>,
    call: ServicesCallView,
    device: Peripheral,
    guest: bool,
    services: Vec<Service>,
)
    requires
        call.wf(),
        call.phase == (ServicesPhase::Reading { device, guest, stay: false }),
    ensures
        ({
            let up = if guest {
                h.guest is Some && h.guest->0.up
            } else {
                h.connected
            };
            let r = services_step(
                h,
                Seq::empty(),
                call,
                Reply::Services(Timed::Done(services)),
            );
            if services@.len() == 0 {
                only_asks(
                    h,
                    r,
                    Request::DiscoverServices(device, h.timeouts.discover_services),
                )
            } else if up {
                &&& only_asks(h, r, Request::Disconnect(device))
                &&& r.call.services == Some(services)
            } else {
                only_returns(h, r, Ok(services))
            }
        }),
{
}

/// Connecting a device for a lookup goes as any attempt does: the device is held, the backend
/// is asked whether it is connected, told to connect it within the time limit, and the link has
/// to be reported. One that fails ends the lookup with its error, and the device is not held.
pub proof fn lookups_make_one_attempt<D, N>(
    h: HandlerView<D, N>,
    call: ServicesCallView,
    device: Peripheral,
    guest: bool,
    link: LinkPhase,
    reply: Reply,
)
    requires
        call.wf(),
        call.phase == (ServicesPhase::Linking { device, guest, link }),
        reply.spec_kind() == link.awaits(),
    ensures
        ({
            let r = services_step(h, Seq::empty(), call, reply);
            let up = if guest {
                h.guest is Some && h.guest->0.up
            } else {
                h.connected
            };
            let held = if guest {
                h.guest is Some && h.guest->0.device.id == link.device().id
            } else {
                h.connected_dev is Some && h.connected_dev->0.id == link.device().id
            };
            let d = link.device();
            match (link, reply) {
                (LinkPhase::Retrieving(_), _) => {
                    &&& r.next == NextView::<Vec<Service>>::Ask(Request::IsConnected(d))
                    &&& r.effects.len() == 0
                    &&& guest ==> r.h == (HandlerView {
                        guest: Some(Guest { device: d, up: false }),
                        ..h
                    })
                    &&& !guest ==> r.h == (HandlerView { connected_dev: Some(d), ..h })
                },
                (LinkPhase::Checking(_), Reply::Flag(Ok(false))) => only_asks(
                    h,
                    r,
                    Request::Connect(d, h.timeouts.connect),
                ),
                (LinkPhase::Checking(_), Reply::Flag(Ok(true))) => if held {
                    &&& r.next == NextView::<Vec<Service>>::Ask(Request::ReadServices(device))
                    &&& r.h.signals != h.signals
                    &&& r.effects.len() == 1
                    &&& guest ==> {
                        &&& r.effects[0] == Effect::<D>::Signal(h.connected)
                        &&& r.h == (HandlerView {
                            guest: Some(Guest { device: h.guest->0.device, up: true }),
                            signals: r.h.signals,
                            ..h
                        })
                    }
                    &&& !guest ==> {
                        &&& r.effects[0] == Effect::<D>::Signal(true)
                        &&& r.h == (HandlerView { connected: true, signals: r.h.signals, ..h })
                    }
                } else {
                    lookup_failed(h, guest, r, ErrorView::ConnectionFailed)
                },
                (LinkPhase::Checking(_), Reply::Flag(Err(e))) => lookup_failed(
                    h,
                    guest,
                    r,
                    ErrorView::Btleplug(e),
                ),
                (LinkPhase::Connecting(_), Reply::Connected(Timed::Done(_))) => if up {
                    only_asks(h, r, Request::ReadServices(device))
                } else {
                    only_asks(
                        h,
                        r,
                        Request::AwaitSignal { seen: h.signals, timeout: Some(h.timeouts.connect) },
                    )
                },
                (LinkPhase::Connecting(_), Reply::Connected(Timed::Failed(e))) => lookup_failed(
                    h,
                    guest,
                    r,
                    ErrorView::Btleplug(e),
                ),
                (LinkPhase::Connecting(_), _) => lookup_failed(
                    h,
                    guest,
                    r,
                    ErrorView::Timeout("Connect"@),
                ),
                (LinkPhase::Waiting(_), Reply::Signal(Signal::Changed)) => if up {
                    only_asks(h, r, Request::ReadServices(device))
                } else {
                    lookup_failed(h, guest, r, ErrorView::ConnectionFailed)
                },
                (LinkPhase::Waiting(_), Reply::Signal(Signal::TimedOut)) => only_asks(
                    h,
                    r,
                    Request::Disconnect(d),
                ),
                (LinkPhase::Waiting(_), _) => lookup_failed(
                    h,
                    guest,
                    r,
                    ErrorView::ConnectionFailed,
                ),
                (LinkPhase::Cancelling(_), _) => lookup_failed(
                    h,
                    guest,
                    r,
                    ErrorView::Timeout("connect event"@),
                ),
                _ => true,
            }
        }),
{
    let r = services_step(h, Seq::empty(), call, reply);
    assert(h.signals.wrapping_add(1) != h.signals);
    if !guest && r.next is Done {
        assert(r.effects =~= seq![Effect::<D>::Signal(false)]);
    }
}

/// The lookup returns the error, and its device is not held any more; a connection to another
/// device is as it was.
pub open spec fn lookup_failed<D, N>(
    h: HandlerView<D, N>,
    guest: bool,
    r: ServicesOut<D, N>,
    e: ErrorView,
) -> bool {
    &&& r.next == NextView::<Vec<Service>>::Done(Err(e))
    &&& if guest {
        r.h == (HandlerView { guest: None, ..h }) && r.effects.len() == 0
    } else {
        &&& r.h == (HandlerView {
            connected_dev: None,
            connected: false,
            signals: r.h.signals,
            ..h
        })
        &&& r.effects == seq![Effect::<D>::Signal(false)]
    }
}

} // verus!
