//! What connecting a device is for.

use crate::error::{BackendError, ErrorView};
use crate::exchange::{
    Effect, NextView, OnDisconnectHandler, Reply, ReplyKind, Request, Signal, Timed,
};
use crate::handler::connect::{
    connect_start, connect_step, ConnectCallView, ConnectOut, ConnectPhase,
};
use crate::handler::disconnect::DisconnectPhase;
use crate::handler::link::LinkPhase;
use crate::handler::scan::{DiscoverPhase, StopPhase};
use crate::handler::{event_next, CentralEvent, HandlerView};
use crate::index::lookup;
use crate::laws::disconnect::{clearing_ends_the_connection, over, tells_the_end};
use crate::models::{addr_chars, all_charac_ids, BleDevice, Peripheral, Service};
use crate::session::connect_call;
use vstd::prelude::*;

verus! {

/// The call asks for this next, and nothing is told anybody meanwhile.
pub open spec fn quietly_asks<D, N>(r: ConnectOut<D, N>, request: Request) -> bool {
    r.next == NextView::<()>::Ask(request) && r.effects == Seq::<Effect<D>>::empty()
}

/// The call keeps what it was made with.
pub open spec fn same_call<D>(before: ConnectCallView<D>, after: ConnectCallView<D>) -> bool {
    &&& after.address == before.address
    &&& after.on_disconnect == before.on_disconnect
    &&& after.allow_ibeacons == before.allow_ibeacons
}

/// What the backend, or the adapter, can answer to an attempt that fails, with the error that
/// the attempt fails with.
pub open spec fn failure_of<D, N>(h: HandlerView<D, N>, link: LinkPhase, reply: Reply) -> Option<
    ErrorView,
> {
    match (link, reply) {
        (LinkPhase::Checking(_), Reply::Flag(Err(e))) => Some(ErrorView::Btleplug(e)),
        (LinkPhase::Checking(device), Reply::Flag(Ok(true))) => if h.connected_dev is Some
            && h.connected_dev->0.id == device.id {
            None
        } else {
            Some(ErrorView::ConnectionFailed)
        },
        (LinkPhase::Connecting(_), Reply::Connected(Timed::Failed(e))) => Some(
            ErrorView::Btleplug(e),
        ),
        (LinkPhase::Connecting(_), Reply::Connected(Timed::TimedOut)) => Some(
            ErrorView::Timeout("Connect"@),
        ),
        (LinkPhase::Waiting(_), Reply::Signal(Signal::Closed)) => Some(
            ErrorView::ConnectionFailed,
        ),
        (LinkPhase::Waiting(_), Reply::Signal(Signal::Changed)) => if h.connected {
            None
        } else {
            Some(ErrorView::ConnectionFailed)
        },
        (LinkPhase::Cancelling(_), _) => Some(ErrorView::Timeout("connect event"@)),
        _ => None,
    }
}

/// Whatever error an attempt ends with, as long as fewer than three were made the call pauses
/// for a second and nothing else happens. After the third the link that may be half there is
/// cancelled, or, where no device is held any more, the call returns the error, with the
/// connection over.
pub proof fn failed_attempts_are_repeated<D, N>(
    h: HandlerView<D, N>,
    call: ConnectCallView<D>,
    attempt: u8,
    link: LinkPhase,
    reply: Reply,
)
    requires
        call.wf(),
        call.phase == (ConnectPhase::Linking { attempt, link }),
        link.awaits() == reply.spec_kind(),
        failure_of(h, link, reply) is Some,
    ensures
        ({
            let r = connect_step(h, Seq::empty(), call, reply);
            let e = failure_of(h, link, reply)->0;
            &&& same_call(call, r.call)
            &&& attempt < 2 ==> {
                &&& quietly_asks(r, Request::Sleep(1000))
                &&& r.h == h
                &&& r.call.phase == (ConnectPhase::Pausing { attempt: (attempt + 1) as u8 })
            }
            &&& attempt >= 2 && h.connected_dev is Some ==> {
                &&& quietly_asks(r, Request::Disconnect(h.connected_dev->0))
                &&& r.h == h
                &&& r.call.phase is Cancelling
                &&& r.call.failure == Some(e)
            }
            &&& attempt >= 2 && h.connected_dev is None ==> {
                &&& r.next == NextView::<()>::Done(Err(e))
                &&& over(h, r.h)
                &&& tells_the_end(h, r.effects)
            }
        }),
{
    clearing_ends_the_connection(h);
    assert(Seq::<Effect<D>>::empty() + h.clear_effects() =~= h.clear_effects());
}

/// After the pause there is another attempt at the same address, on the device that is known
/// under it now. An address that is not known any more makes the attempt fail like any other.
pub proof fn pauses_lead_to_another_attempt<D, N>(
    h: HandlerView<D, N>,
    call: ConnectCallView<D>,
    attempt: u8,
    reply: Reply,
)
    requires
        call.wf(),
        call.phase == (ConnectPhase::Pausing { attempt }),
        reply.spec_kind() == ReplyKind::Plain,
    ensures
        ({
            let r = connect_step(h, Seq::empty(), call, reply);
            &&& same_call(call, r.call)
            &&& begins_attempt(h, call, attempt, r)
        }),
{
    clearing_ends_the_connection(h);
    assert(Seq::<Effect<D>>::empty() + h.clear_effects() =~= h.clear_effects());
}

/// The step begins the `attempt`-th attempt, counted from zero: the backend is asked to look
/// the device up again. Where the address is not known, the attempt has failed.
pub open spec fn begins_attempt<D, N>(
    h: HandlerView<D, N>,
    call: ConnectCallView<D>,
    attempt: u8,
    r: ConnectOut<D, N>,
) -> bool {
    let unknown = ErrorView::UnknownPeripheral(call.address);
    if h.devices.dom().contains(call.address) {
        let device = h.devices[call.address];
        &&& quietly_asks(r, Request::Retrieve(device))
        &&& r.h == h
        &&& r.call.phase == (ConnectPhase::Linking { attempt, link: LinkPhase::Retrieving(device) })
    } else if attempt < 2 {
        &&& quietly_asks(r, Request::Sleep(1000))
        &&& r.h == h
        &&& r.call.phase == (ConnectPhase::Pausing { attempt: (attempt + 1) as u8 })
    } else if h.connected_dev is Some {
        &&& quietly_asks(r, Request::Disconnect(h.connected_dev->0))
        &&& r.h == h
        &&& r.call.phase is Cancelling
        &&& r.call.failure == Some(unknown)
    } else {
        &&& r.next == NextView::<()>::Done(Err(unknown))
        &&& over(h, r.h)
        &&& tells_the_end(h, r.effects)
    }
}

/// Once what is left of the last attempt was cancelled, whatever came of that, the call returns
/// the error of that attempt, and the connection is over.
pub proof fn the_last_failure_is_returned<D, N>(
    h: HandlerView<D, N>,
    call: ConnectCallView<D>,
    reply: Reply,
)
    requires
        call.wf(),
        call.phase is Cancelling,
        reply.spec_kind() == ReplyKind::Plain,
    ensures
        ({
            let r = connect_step(h, Seq::empty(), call, reply);
            &&& r.next == NextView::<()>::Done(Err(call.failure->0))
            &&& over(h, r.h)
            &&& tells_the_end(h, r.effects)
        }),
{
    clearing_ends_the_connection(h);
    assert(Seq::<Effect<D>>::empty() + h.clear_effects() =~= h.clear_effects());
}

/// A call gives up only after the third attempt: while an attempt before that is under way, or
/// a pause, the call neither returns nor cancels anything for good, but for a link that was
/// lost just as the attempt had succeeded.
pub proof fn giving_up_takes_three_attempts<D, N>(
    h: HandlerView<D, N>,
    call: ConnectCallView<D>,
    attempt: u8,
    reply: Reply,
)
    requires
        call.wf(),
        attempt < 2,
        call.phase == (ConnectPhase::Pausing { attempt }) || (call.phase matches
            ConnectPhase::Linking { attempt: a, .. } && a == attempt),
        call.phase.awaits(reply.spec_kind()),
    ensures
        ({
            let r = connect_step(h, Seq::empty(), call, reply);
            &&& r.call.phase !is Cancelling
            &&& r.next is Done ==> r.next == NextView::<()>::Done(Err(ErrorView::NoDeviceConnected))
                && h.connected_dev is None
            &&& r.call.phase matches ConnectPhase::Pausing { attempt: a } ==> a == attempt + 1
            &&& r.call.phase matches ConnectPhase::Linking { attempt: a, .. } ==> a == attempt
        }),
{
}

/// The attempts are counted from zero.
pub proof fn the_first_attempt_is_number_zero<D, N>(
    h: HandlerView<D, N>,
    call: ConnectCallView<D>,
    reply: Reply,
)
    requires
        call.wf(),
        call.phase.awaits(reply.spec_kind()),
        call.phase !is Linking,
        call.phase !is Pausing,
    ensures
        ({
            let r = connect_step(h, Seq::empty(), call, reply);
            &&& r.call.phase matches ConnectPhase::Linking { attempt, .. } ==> attempt == 0
            &&& r.call.phase matches ConnectPhase::Pausing { attempt } ==> attempt == 1
            &&& r.call.phase !is Cancelling
        }),
{
}

/// An attempt that does not fail: the backend looks the device up, the handler holds it, and
/// the backend is asked whether it is connected. If not, it is told to connect it within the
/// time limit of connects; if so, the attempt has succeeded.
pub proof fn attempts_connect_the_device<D, N>(
    h: HandlerView<D, N>,
    call: ConnectCallView<D>,
    attempt: u8,
    device: Peripheral,
    retrieved: Reply,
    h2: HandlerView<D, N>,
)
    requires
        call.wf(),
        call.phase == (ConnectPhase::Linking { attempt, link: LinkPhase::Retrieving(device) }),
        retrieved.spec_kind() == ReplyKind::Plain,
    ensures
        ({
            let r1 = connect_step(h, Seq::empty(), call, retrieved);
            let no = connect_step(h2, Seq::empty(), r1.call, Reply::Flag(Ok(false)));
            let yes = connect_step(h2, Seq::empty(), r1.call, Reply::Flag(Ok(true)));
            &&& quietly_asks(r1, Request::IsConnected(device))
            &&& r1.h == (HandlerView { connected_dev: Some(device), ..h })
            &&& same_call(call, r1.call)
            &&& quietly_asks(no, Request::Connect(device, h2.timeouts.connect))
            &&& no.h == h2
            &&& same_call(call, no.call)
            &&& no.call.phase == (ConnectPhase::Linking {
                attempt,
                link: LinkPhase::Connecting(device),
            })
            &&& h2.connected_dev == Some(device) ==> {
                &&& yes.next == NextView::<()>::Ask(
                    Request::DiscoverServices(device, h2.timeouts.discover_services),
                )
                &&& yes.effects == seq![Effect::<D>::Signal(true)]
                &&& yes.h == (HandlerView { connected: true, signals: yes.h.signals, ..h2 })
                &&& yes.h.signals != h2.signals
                &&& same_call(call, yes.call)
                &&& yes.call.phase == ConnectPhase::Discovery(device)
            }
        }),
{
    let r1 = connect_step(h, Seq::empty(), call, retrieved);
    let yes = connect_step(h2, Seq::empty(), r1.call, Reply::Flag(Ok(true)));
    assert(h2.signals.wrapping_add(1) != h2.signals);
    if h2.connected_dev == Some(device) {
        assert(yes.effects =~= seq![Effect::<D>::Signal(true)]);
    }
}

/// A backend that has connected the device is not enough: the adapter has to report the link,
/// within the time limit of connects. If it has, the services are discovered; if it does so
/// while the call waits, too; if it does not, the link is cancelled.
pub proof fn links_have_to_be_reported<D, N>(
    h: HandlerView<D, N>,
    call: ConnectCallView<D>,
    attempt: u8,
    device: Peripheral,
    h2: HandlerView<D, N>,
)
    requires
        call.wf(),
        call.phase == (ConnectPhase::Linking { attempt, link: LinkPhase::Connecting(device) }),
    ensures
        ({
            let done = connect_step(h, Seq::empty(), call, Reply::Connected(Timed::Done(())));
            let seen = connect_step(h2, Seq::empty(), done.call, Reply::Signal(Signal::Changed));
            let late = connect_step(h2, Seq::empty(), done.call, Reply::Signal(Signal::TimedOut));
            let discovers = Request::DiscoverServices(device, h.timeouts.discover_services);
            &&& done.h == h
            &&& same_call(call, done.call)
            &&& h.connected && h.connected_dev == Some(device) ==> {
                &&& quietly_asks(done, discovers)
                &&& done.call.phase == ConnectPhase::Discovery(device)
            }
            &&& !h.connected ==> {
                &&& quietly_asks(
                    done,
                    Request::AwaitSignal { seen: h.signals, timeout: Some(h.timeouts.connect) },
                )
                &&& h2.connected && h2.connected_dev == Some(device) ==> {
                    &&& quietly_asks(
                        seen,
                        Request::DiscoverServices(device, h2.timeouts.discover_services),
                    )
                    &&& seen.h == h2
                    &&& seen.call.phase == ConnectPhase::Discovery(device)
                    &&& same_call(call, seen.call)
                }
                &&& quietly_asks(late, Request::Disconnect(device))
                &&& late.h == h2
                &&& late.call.phase == (ConnectPhase::Linking {
                    attempt,
                    link: LinkPhase::Cancelling(device),
                })
            }
        }),
{
}

/// With the services discovered, and the device still held, the call succeeds: its callback is
/// in place, the characteristics are those of the services, the notifications of the device
/// are forwarded, and the update channels are told. Nothing else changes.
pub proof fn discovered_devices_are_connected<D, N>(
    h: HandlerView<D, N>,
    call: ConnectCallView<D>,
    device: Peripheral,
    services: Vec<Service>,
)
    requires
        call.wf(),
        call.phase == ConnectPhase::Discovery(device),
        h.connected_dev == Some(device),
    ensures
        ({
            let r = connect_step(
                h,
                Seq::empty(),
                call,
                Reply::Services(Timed::Done(services)),
            );
            &&& r.next.succeeded()
            &&& r.h == (HandlerView {
                on_disconnect: call.on_disconnect,
                characs: all_charac_ids(services@),
                listen_task: r.h.listen_task,
                tasks: r.h.tasks,
                ..h
            })
            &&& r.h.listen_task is Some
            &&& r.h.tasks != h.tasks
            &&& r.effects == seq![
                Effect::<D>::StartNotify { task: r.h.listen_task->0, device },
                Effect::<D>::ConnectionUpdate(true),
            ]
        }),
{
    let r = connect_step(h, Seq::empty(), call, Reply::Services(Timed::Done(services)));
    assert(h.tasks.wrapping_add(1) != h.tasks);
    assert(r.effects =~= seq![
        Effect::<D>::StartNotify { task: r.h.listen_task->0, device },
        Effect::<D>::ConnectionUpdate(true),
    ]);
}

/// A link that was lost while the services were discovered is no connection. Services that
/// could not be discovered make the link useless: it is taken down, by a disconnect of the
/// device that is held, and the error is returned afterwards, however the disconnect goes.
pub proof fn useless_links_are_taken_down<D, N>(
    h: HandlerView<D, N>,
    call: ConnectCallView<D>,
    device: Peripheral,
    outcome: Timed<Vec<Service>>,
    h1: HandlerView<D, N>,
    answer: Reply,
    h2: HandlerView<D, N>,
    told: Reply,
)
    requires
        call.wf(),
        call.phase == ConnectPhase::Discovery(device),
        answer.spec_kind() == ReplyKind::Flag,
        told.spec_kind() == ReplyKind::Plain,
    ensures
        ({
            let r = connect_step(h, Seq::empty(), call, Reply::Services(outcome));
            let r1 = connect_step(h1, Seq::empty(), r.call, answer);
            let r2 = connect_step(h2, Seq::empty(), r1.call, told);
            &&& outcome is Done && !h.is_current(device.id) ==> {
                &&& r.next == NextView::<()>::Done(Err(ErrorView::NoDeviceConnected))
                &&& r.h == h
                &&& r.effects.len() == 0
            }
            &&& outcome !is Done ==> {
                let e = match outcome {
                    Timed::Failed(e) => ErrorView::Btleplug(e),
                    _ => ErrorView::Timeout("discover services"@),
                };
                match h.connected_dev {
                    None => r.next == NextView::<()>::Done(Err(e)) && r.h == h && r.effects.len()
                        == 0,
                    Some(held) => {
                        &&& quietly_asks(r, Request::IsConnected(held))
                        &&& r.h == h
                        &&& quietly_asks(r1, Request::Disconnect(held))
                        &&& r1.h == h1
                        &&& if h.connected && answer == Reply::Flag(Ok(true)) {
                            &&& quietly_asks(
                                r2,
                                Request::AwaitSignal {
                                    seen: h.signals,
                                    timeout: Some(h2.timeouts.disconnect),
                                },
                            )
                            &&& r2.h == h2
                            &&& forall|h3: HandlerView<D, N>, signal: Signal|
                                {
                                    let r3 = #[trigger] connect_step(
                                        h3,
                                        Seq::empty(),
                                        r2.call,
                                        Reply::Signal(signal),
                                    );
                                    &&& r3.next == NextView::<()>::Done(Err(e))
                                    &&& r3.h == h3 <==> signal == Signal::Changed && !h3.connected
                                    &&& r3.h == h3 || r3.h == h3.cleared()
                                }
                        } else {
                            &&& r2.next == NextView::<()>::Done(Err(e))
                            &&& over(h2, r2.h)
                            &&& tells_the_end(h2, r2.effects)
                        }
                    },
                }
            }
        }),
{
    clearing_ends_the_connection(h2);
    assert(Seq::<Effect<D>>::empty() + h2.clear_effects() =~= h2.clear_effects());
    assert forall|h3: HandlerView<D, N>| (#[trigger] h3.cleared()) != h3 by {
        clearing_ends_the_connection(h3);
    }
}

/// A call for an address that is known stops the scan that may be running and goes on. Where
/// there is no adapter yet, one is looked for.
pub proof fn known_addresses_are_not_scanned_for<D, N>(
    h: HandlerView<D, N>,
    address: Seq<char>,
    on_disconnect: OnDisconnectHandler<D>,
    allow_ibeacons: bool,
)
    requires
        h.devices.dom().contains(address),
    ensures
        ({
            let call = connect_call(address, on_disconnect, allow_ibeacons);
            let r = connect_start(h, Seq::empty(), call);
            &&& r.next == NextView::<()>::Ask(
                if h.adapter is Some {
                    Request::StopScan
                } else {
                    Request::FindAdapters
                },
            )
            &&& r.call.phase is StoppingScan
            &&& same_call(call, r.call)
            &&& r.h.scan_task is None
            &&& r.h == (HandlerView { scan_task: None, event_pump: r.h.event_pump, ..h })
            &&& h.scan_task matches Some(handle) ==> r.effects.contains(
                Effect::<D>::AbortScan(handle.task),
            )
            &&& forall|i: int|
                0 <= i < r.effects.len() ==> (#[trigger] r.effects[i]) is AbortScan
                    || r.effects[i] is StartEventPump
        }),
{
    let r = connect_start(
        h,
        Seq::empty(),
        connect_call(address, on_disconnect, allow_ibeacons),
    );
    if h.scan_task is Some {
        assert(r.effects[0] == Effect::<D>::AbortScan(h.scan_task->0.task));
    }
}

/// A call for an address that is not known scans for it, for a second and without a filter, in
/// place of a scan that may be running. The results go to the call, which waits for them.
pub proof fn unknown_addresses_are_scanned_for<D, N>(
    h: HandlerView<D, N>,
    address: Seq<char>,
    on_disconnect: OnDisconnectHandler<D>,
    allow_ibeacons: bool,
    h2: HandlerView<D, N>,
    stopped: Reply,
    h3: HandlerView<D, N>,
)
    requires
        !h.devices.dom().contains(address),
        h.adapter is Some,
        stopped.spec_kind() == ReplyKind::Plain,
    ensures
        ({
            let call = connect_call(address, on_disconnect, allow_ibeacons);
            let r = connect_start(h, Seq::empty(), call);
            let r2 = connect_step(h2, Seq::empty(), r.call, stopped);
            let asked = if h.scan_task is Some {
                r2.call
            } else {
                r.call
            };
            let r3 = connect_step(h3, Seq::empty(), asked, Reply::Plain(Ok(())));
            &&& h.scan_task is Some ==> {
                &&& r.next == NextView::<()>::Ask(Request::StopScan)
                &&& r.effects.contains(Effect::<D>::AbortScan(h.scan_task->0.task))
                &&& r.h.scan_task is None
                &&& quietly_asks(r2, Request::StartScan)
                &&& r2.h.allow_ibeacons == allow_ibeacons
            }
            &&& h.scan_task is None ==> {
                &&& r.next == NextView::<()>::Ask(Request::StartScan)
                &&& r.h.allow_ibeacons == allow_ibeacons
            }
            &&& r3.next == NextView::<()>::Ask(Request::NextDevices)
            &&& r3.call.phase is Collecting
            &&& same_call(call, r3.call)
            &&& r3.effects.len() == 2
            &&& r3.effects[0] == Effect::<D>::ScanUpdate(true)
            &&& r3.effects[1] matches Effect::SpawnScan(task) && {
                &&& task.polls == 5
                &&& task.sink is Caller
                &&& task.filter is Unfiltered
                &&& r3.h.scan_task matches Some(handle) && handle.task == task.task
                    && !handle.finished
            }
        }),
{
    let r = connect_start(
        h,
        Seq::empty(),
        connect_call(address, on_disconnect, allow_ibeacons),
    );
    if h.scan_task is Some {
        assert(r.effects.last() == Effect::<D>::AbortScan(h.scan_task->0.task));
    }
}

/// Where there is no adapter yet, the call looks for one before it scans for the address, and
/// then scans as on any other.
pub proof fn unknown_addresses_are_scanned_for_on_a_new_adapter<D, N>(
    h: HandlerView<D, N>,
    address: Seq<char>,
    on_disconnect: OnDisconnectHandler<D>,
    allow_ibeacons: bool,
    h2: HandlerView<D, N>,
    ids: Vec<u64>,
    h3: HandlerView<D, N>,
)
    requires
        !h.devices.dom().contains(address),
        h.adapter is None,
        h2.scan_task is None,
        ids@.len() > 0,
    ensures
        ({
            let call = connect_call(address, on_disconnect, allow_ibeacons);
            let r = connect_start(h, Seq::empty(), call);
            let r2 = connect_step(h2, Seq::empty(), r.call, Reply::Adapters(Ok(ids)));
            let r3 = connect_step(h3, Seq::empty(), r2.call, Reply::Plain(Ok(())));
            &&& quietly_asks(r, Request::FindAdapters)
            &&& r.h == h
            &&& r2.next == NextView::<()>::Ask(Request::StartScan)
            &&& r2.h == (HandlerView {
                adapter: Some(ids@[0]),
                event_pump: true,
                allow_ibeacons,
                ..h2
            })
            &&& r2.effects[0] == Effect::<D>::UseAdapter(ids@[0])
            &&& r3.next == NextView::<()>::Ask(Request::NextDevices)
            &&& r3.call.phase is Collecting
            &&& same_call(call, r3.call)
            &&& r3.effects.len() == 2
            &&& r3.effects[0] == Effect::<D>::ScanUpdate(true)
            &&& r3.effects[1] matches Effect::SpawnScan(task) && {
                &&& task.polls == 5
                &&& task.sink is Caller
                &&& task.filter is Unfiltered
            }
        }),
{
}

/// A call for an address that is not known fails at once if it cannot scan: without an adapter,
/// or because the backend refuses to scan. The connection is as it was.
pub proof fn scans_that_cannot_start_are_errors<D, N>(
    h: HandlerView<D, N>,
    call: ConnectCallView<D>,
    found: Result<Vec<u64>, BackendError>,
    e: BackendError,
)
    requires
        call.wf(),
    ensures
        call.phase == ConnectPhase::Discovering(DiscoverPhase::Adapter) ==> {
            let r = connect_step(h, Seq::empty(), call, Reply::Adapters(found));
            match found {
                Err(why) => r.next == NextView::<()>::Done(Err(ErrorView::Btleplug(why))) && r.h
                    == h && r.effects.len() == 0,
                Ok(ids) => if ids@.len() == 0 {
                    r.next == NextView::<()>::Done(Err(ErrorView::NoAdapters)) && r.h == h
                        && r.effects.len() == 0
                } else {
                    r.next is Ask && r.h.adapter == Some(ids@[0]) && r.effects.contains(
                        Effect::<D>::UseAdapter(ids@[0]),
                    )
                },
            }
        },
        call.phase == ConnectPhase::Discovering(DiscoverPhase::Starting) ==> {
            let r = connect_step(h, Seq::empty(), call, Reply::Plain(Err(e)));
            r.next == NextView::<()>::Done(Err(ErrorView::Btleplug(e))) && r.h == h
                && r.effects.len() == 0
        },
{
    let r = connect_step(h, Seq::empty(), call, Reply::Adapters(found));
    if call.phase == ConnectPhase::Discovering(DiscoverPhase::Adapter) && found is Ok
        && found->Ok_0@.len() > 0 {
        assert(r.effects[0] == Effect::<D>::UseAdapter(found->Ok_0@[0]));
    }
}

/// The call waits for its scan until the device shows up, or the scan is over.
pub proof fn scans_end_when_the_device_shows_up<D, N>(
    h: HandlerView<D, N>,
    call: ConnectCallView<D>,
    devices: Vec<BleDevice>,
)
    requires
        call.wf(),
        call.phase is Collecting,
    ensures
        ({
            let some = connect_step(h, Seq::empty(), call, Reply::Devices(Some(devices)));
            let none = connect_step(h, Seq::empty(), call, Reply::Devices(None));
            let shows = exists|i: int|
                0 <= i < devices@.len() && (#[trigger] devices@[i]).address@ == call.address;
            &&& !shows ==> quietly_asks(some, Request::NextDevices) && some.h == h && some.call
                == call
            &&& shows ==> some.call.phase is StoppingScan
            &&& none.call.phase is StoppingScan
            &&& h.adapter is Some && shows ==> some.next == NextView::<()>::Ask(Request::StopScan)
            &&& h.adapter is Some ==> none.next == NextView::<()>::Ask(Request::StopScan)
            &&& none.h == (HandlerView {
                scan_task: None,
                event_pump: none.h.event_pump,
                ..h
            })
            &&& shows ==> some.h == none.h && some.effects == none.effects
            &&& same_call(call, some.call)
            &&& same_call(call, none.call)
        }),
{
}

/// Once the scan was stopped, whatever came of that, a device that is held is dealt with first:
/// if it has the wanted address, the backend is asked whether it is connected; if not, it is
/// disconnected. Without one, the first attempt begins.
pub proof fn held_devices_come_first<D, N>(
    h: HandlerView<D, N>,
    call: ConnectCallView<D>,
    reply: Reply,
)
    requires
        call.wf(),
        call.phase == ConnectPhase::StoppingScan(StopPhase::Stopping),
        reply.spec_kind() == ReplyKind::Plain,
    ensures
        ({
            let r = connect_step(h, Seq::empty(), call, reply);
            &&& r.effects == seq![Effect::<D>::ScanUpdate(false)]
            &&& r.h == h
            &&& same_call(call, r.call)
            &&& match h.connected_dev {
                Some(held) => {
                    &&& r.next == NextView::<()>::Ask(Request::IsConnected(held))
                    &&& addr_chars(held.address) == call.address ==> r.call.phase is Probing
                    &&& addr_chars(held.address) != call.address ==> r.call.phase is HangingUp
                },
                None => if h.devices.dom().contains(call.address) {
                    let device = h.devices[call.address];
                    &&& r.next == NextView::<()>::Ask(Request::Retrieve(device))
                    &&& r.call.phase == (ConnectPhase::Linking {
                        attempt: 0,
                        link: LinkPhase::Retrieving(device),
                    })
                } else {
                    &&& r.next == NextView::<()>::Ask(Request::Sleep(1000))
                    &&& r.call.phase == (ConnectPhase::Pausing { attempt: 1 })
                },
            }
        }),
{
    let r = connect_step(h, Seq::empty(), call, reply);
    assert(r.effects =~= seq![Effect::<D>::ScanUpdate(false)]);
}

/// Where an adapter had to be looked for, it is used and told to stop scanning. That there is
/// none does not keep the call from trying.
pub proof fn missing_adapters_do_not_stop_the_call<D, N>(
    h: HandlerView<D, N>,
    call: ConnectCallView<D>,
    found: Result<Vec<u64>, BackendError>,
)
    requires
        call.wf(),
        call.phase == ConnectPhase::StoppingScan(StopPhase::Adapter),
    ensures
        ({
            let r = connect_step(h, Seq::empty(), call, Reply::Adapters(found));
            &&& same_call(call, r.call)
            &&& if found is Ok && found->Ok_0@.len() > 0 {
                &&& r.next == NextView::<()>::Ask(Request::StopScan)
                &&& r.h.adapter == Some(found->Ok_0@[0])
                &&& r.effects.contains(Effect::<D>::UseAdapter(found->Ok_0@[0]))
                &&& r.call.phase == ConnectPhase::StoppingScan(StopPhase::Stopping)
            } else {
                match h.connected_dev {
                    Some(held) => quietly_asks(r, Request::IsConnected(held)) && r.h == h,
                    None => begins_attempt(h, call, 0, r),
                }
            }
        }),
{
    let r = connect_step(h, Seq::empty(), call, Reply::Adapters(found));
    if found is Ok && found->Ok_0@.len() > 0 {
        assert(r.effects[0] == Effect::<D>::UseAdapter(found->Ok_0@[0]));
    }
}

/// A device with the wanted address that is connected is used as it is; one that is not is
/// disconnected first.
pub proof fn live_links_are_reused<D, N>(
    h: HandlerView<D, N>,
    call: ConnectCallView<D>,
    reply: Reply,
)
    requires
        call.wf(),
        call.phase is Probing,
        reply.spec_kind() == ReplyKind::Flag,
    ensures
        ({
            let r = connect_step(h, Seq::empty(), call, reply);
            &&& same_call(call, r.call)
            &&& reply == Reply::Flag(Ok(true)) ==> begins_attempt(h, call, 0, r)
            &&& reply != Reply::Flag(Ok(true)) ==> match h.connected_dev {
                Some(held) => quietly_asks(r, Request::IsConnected(held)) && r.h == h
                    && r.call.phase is HangingUp,
                None => begins_attempt(h, call, 0, r),
            }
        }),
{
}

/// A device that has to go is disconnected before the first attempt: the backend is told to,
/// whatever it has answered about the link, and the attempt begins when the connection is over.
pub proof fn other_devices_are_disconnected_first<D, N>(
    h: HandlerView<D, N>,
    call: ConnectCallView<D>,
    device: Peripheral,
    was_connected: bool,
    seen: u64,
    answer: Reply,
    h2: HandlerView<D, N>,
    told: Reply,
    h3: HandlerView<D, N>,
    signal: Signal,
)
    requires
        call.wf(),
        call.phase == ConnectPhase::HangingUp(
            DisconnectPhase::Checking { device, was_connected, seen },
        ),
        answer.spec_kind() == ReplyKind::Flag,
        told.spec_kind() == ReplyKind::Plain,
        h2.devices.dom().contains(call.address),
        h3.devices.dom().contains(call.address),
    ensures
        ({
            let r1 = connect_step(h, Seq::empty(), call, answer);
            let r2 = connect_step(h2, Seq::empty(), r1.call, told);
            let r3 = connect_step(h3, Seq::empty(), r2.call, Reply::Signal(signal));
            &&& quietly_asks(r1, Request::Disconnect(device))
            &&& r1.h == h
            &&& if was_connected && answer == Reply::Flag(Ok(true)) {
                &&& quietly_asks(
                    r2,
                    Request::AwaitSignal { seen, timeout: Some(h2.timeouts.disconnect) },
                )
                &&& r3.next == NextView::<()>::Ask(Request::Retrieve(h3.devices[call.address]))
                &&& r3.call.phase == (ConnectPhase::Linking {
                    attempt: 0,
                    link: LinkPhase::Retrieving(h3.devices[call.address]),
                })
                &&& !(signal == Signal::Changed && !h3.connected) ==> over(h3, r3.h)
                    && tells_the_end(h3, r3.effects)
            } else {
                &&& r2.next == NextView::<()>::Ask(Request::Retrieve(h2.devices[call.address]))
                &&& r2.call.phase == (ConnectPhase::Linking {
                    attempt: 0,
                    link: LinkPhase::Retrieving(h2.devices[call.address]),
                })
                &&& over(h2, r2.h)
                &&& tells_the_end(h2, r2.effects)
            }
        }),
{
    clearing_ends_the_connection(h2);
    clearing_ends_the_connection(h3);
    assert(Seq::<Effect<D>>::empty() + h2.clear_effects() =~= h2.clear_effects());
    assert(Seq::<Effect<D>>::empty() + h3.clear_effects() =~= h3.clear_effects());
}

/// A call whose backend does what it is told succeeds, at whichever of the three attempts that
/// is: the device that is known under the address is looked up, connected and reported, its
/// services are discovered, and then the call returns with that device connected.
pub proof fn willing_devices_are_connected<D, N>(
    h: HandlerView<D, N>,
    call: ConnectCallView<D>,
    attempt: u8,
    device: Peripheral,
    services: Vec<Service>,
)
    requires
        call.wf(),
        call.phase == (ConnectPhase::Linking { attempt, link: LinkPhase::Retrieving(device) }),
        !h.connected,
    ensures
        ({
            let e = Seq::<Effect<D>>::empty();
            let r1 = connect_step(h, e, call, Reply::Plain(Ok(())));
            let r2 = connect_step(r1.h, e, r1.call, Reply::Flag(Ok(false)));
            let up = event_next(r2.h, CentralEvent::DeviceConnected(device.id)).h;
            let r3 = connect_step(up, e, r2.call, Reply::Connected(Timed::Done(())));
            let r4 = connect_step(r3.h, e, r3.call, Reply::Services(Timed::Done(services)));
            &&& r1.next == NextView::<()>::Ask(Request::IsConnected(device))
            &&& r2.next == NextView::<()>::Ask(Request::Connect(device, h.timeouts.connect))
            &&& r3.next == NextView::<()>::Ask(
                Request::DiscoverServices(device, h.timeouts.discover_services),
            )
            &&& r4.next.succeeded()
            &&& r4.h.connected
            &&& r4.h.connected_dev == Some(device)
            &&& r4.h.on_disconnect == call.on_disconnect
        }),
{
}

/// An attempt that the backend refuses is followed by another one on the same device, from the
/// state that the first one has left: a refusal costs one attempt and nothing more.
pub proof fn refusals_cost_one_attempt<D, N>(
    h: HandlerView<D, N>,
    call: ConnectCallView<D>,
    attempt: u8,
    device: Peripheral,
    refusal: Timed<()>,
)
    requires
        call.wf(),
        attempt < 2,
        call.phase == (ConnectPhase::Linking { attempt, link: LinkPhase::Retrieving(device) }),
        lookup(h.devices, call.address) == Some(device),
        refusal !is Done,
    ensures
        ({
            let e = Seq::<Effect<D>>::empty();
            let r1 = connect_step(h, e, call, Reply::Plain(Ok(())));
            let r2 = connect_step(r1.h, e, r1.call, Reply::Flag(Ok(false)));
            let r3 = connect_step(r2.h, e, r2.call, Reply::Connected(refusal));
            let r4 = connect_step(r3.h, e, r3.call, Reply::Plain(Ok(())));
            &&& r3.next == NextView::<()>::Ask(Request::Sleep(1000))
            &&& r4.next == NextView::<()>::Ask(Request::Retrieve(device))
            &&& r4.call.phase == (ConnectPhase::Linking {
                attempt: (attempt + 1) as u8,
                link: LinkPhase::Retrieving(device),
            })
            &&& same_call(call, r4.call)
            &&& r4.h == (HandlerView { connected_dev: Some(device), ..h })
        }),
{
}

} // verus!
