//! The state behind the client: the devices found, the connection, and who wants to know.

use crate::error::{Error, ErrorView};
use crate::exchange::{Effect, OnDisconnectHandler, SubscriptionHandler};
use crate::index::DeviceIndex;
use crate::models::{CharacId, Peripheral, Timeouts, Uuid};
use vstd::prelude::*;

pub mod adapter;
pub mod connect;
pub mod disconnect;
pub mod gatt;
pub mod link;
pub mod scan;
pub mod services;

verus! {

/// A subscription: which characteristic of which service, and what to call.
pub struct Listener<N> {
    pub uuid: Uuid,
    pub service: Uuid,
    pub callback: SubscriptionHandler<N>,
}

/// A scan that was started: the number of its task, and whether the task has ended.
#[derive(Clone, Copy, Debug)]
pub struct ScanHandle {
    pub task: u64,
    pub finished: bool,
}

/// A device that is connected only to look up its services, while another one is connected.
#[derive(Clone, Copy, Debug)]
pub struct Guest {
    pub device: Peripheral,
    /// Whether its link is up.
    pub up: bool,
}

/// The state of the client. `D` is what the host calls when a connection ends, `N` what it
/// calls for a notification.
pub struct Handler<D, N> {
    devices: DeviceIndex,
    adapter: Option<u64>,
    event_pump: bool,
    listeners: Vec<Listener<N>>,
    connected: bool,
    signals: u64,
    connected_dev: Option<Peripheral>,
    guest: Option<Guest>,
    characs: Vec<CharacId>,
    listen_task: Option<u64>,
    on_disconnect: OnDisconnectHandler<D>,
    connection_update_channel: Vec<u64>,
    scan_update_channel: Vec<u64>,
    scan_task: Option<ScanHandle>,
    tasks: u64,
    timeouts: Timeouts,
    write_timeout_in_ms: u32,
    skip_waiting_for_write_to_complete: bool,
    allow_ibeacons: bool,
}

/// The state of a [`Handler`].
#[verifier::ext_equal]
pub ghost struct HandlerView<D, N> {
    /// The peripherals found, by address.
    pub devices: Map<Seq<char>, Peripheral>,
    /// The adapter in use.
    pub adapter: Option<u64>,
    /// Whether the adapter's events are being forwarded.
    pub event_pump: bool,
    /// The subscriptions, oldest first.
    pub listeners: Seq<Listener<N>>,
    /// The connected flag.
    pub connected: bool,
    /// How often a change of a link was published, modulo 2^64.
    pub signals: u64,
    /// The device that is connected, or being connected.
    pub connected_dev: Option<Peripheral>,
    /// The device that is connected only to look up its services, beside the connected one.
    pub guest: Option<Guest>,
    /// The characteristics of the connected device.
    pub characs: Seq<CharacId>,
    /// The task that forwards notifications.
    pub listen_task: Option<u64>,
    /// What to call when the connection ends.
    pub on_disconnect: OnDisconnectHandler<D>,
    pub connection_update_channel: Seq<u64>,
    pub scan_update_channel: Seq<u64>,
    /// The scan that was started last, unless it was stopped.
    pub scan_task: Option<ScanHandle>,
    /// The number the next task gets.
    pub tasks: u64,
    pub timeouts: Timeouts,
    pub write_timeout_in_ms: u32,
    pub skip_waiting_for_write_to_complete: bool,
    pub allow_ibeacons: bool,
}

/// A state together with the effects listed so far.
#[verifier::ext_equal]
pub ghost struct Out<D, N> {
    pub h: HandlerView<D, N>,
    pub effects: Seq<Effect<D>>,
}

impl<D, N> View for Handler<D, N> {
    type V = HandlerView<D, N>;

    closed spec fn view(&self) -> HandlerView<D, N> {
        HandlerView {
            devices: self.devices@,
            adapter: self.adapter,
            event_pump: self.event_pump,
            listeners: self.listeners@,
            connected: self.connected,
            signals: self.signals,
            connected_dev: self.connected_dev,
            guest: self.guest,
            characs: self.characs@,
            listen_task: self.listen_task,
            on_disconnect: self.on_disconnect,
            connection_update_channel: self.connection_update_channel@,
            scan_update_channel: self.scan_update_channel@,
            scan_task: self.scan_task,
            tasks: self.tasks,
            timeouts: self.timeouts,
            write_timeout_in_ms: self.write_timeout_in_ms,
            skip_waiting_for_write_to_complete: self.skip_waiting_for_write_to_complete,
            allow_ibeacons: self.allow_ibeacons,
        }
    }
}

/// The state of a new handler.
pub open spec fn fresh<D, N>(timeouts: Timeouts) -> HandlerView<D, N> {
    HandlerView {
        devices: Map::empty(),
        adapter: None,
        event_pump: false,
        listeners: Seq::empty(),
        connected: false,
        signals: 0,
        connected_dev: None,
        guest: None,
        characs: Seq::empty(),
        listen_task: None,
        on_disconnect: OnDisconnectHandler::Unset,
        connection_update_channel: Seq::empty(),
        scan_update_channel: Seq::empty(),
        scan_task: None,
        tasks: 0,
        timeouts,
        write_timeout_in_ms: 0,
        skip_waiting_for_write_to_complete: false,
        allow_ibeacons: false,
    }
}

impl<D, N> HandlerView<D, N> {
    /// The state after the connected flag was published as `connected`.
    pub open spec fn signalled(self, connected: bool) -> Self {
        HandlerView { connected, signals: self.signals.wrapping_add(1), ..self }
    }

    /// The state after every trace of a connection was dropped.
    pub open spec fn cleared(self) -> Self {
        HandlerView {
            connected_dev: None,
            listeners: Seq::empty(),
            listen_task: None,
            on_disconnect: OnDisconnectHandler::Unset,
            characs: Seq::empty(),
            ..self.signalled(false)
        }
    }

    /// What the host has to do when every trace of a connection is dropped.
    pub open spec fn clear_effects(self) -> Seq<Effect<D>> {
        (match self.listen_task {
            Some(task) => seq![Effect::AbortNotify(task)],
            None => Seq::empty(),
        }) + (match self.on_disconnect {
            OnDisconnectHandler::Unset => Seq::empty(),
            callback => seq![Effect::RunDisconnect(callback)],
        }) + seq![Effect::ConnectionUpdate(false), Effect::Signal(false)]
    }

    /// Whether the peripheral with this id is the one that is connected or being connected.
    pub open spec fn is_current(self, id: u64) -> bool {
        self.connected_dev is Some && self.connected_dev->0.id == id
    }

    /// Whether the peripheral with this id is the one whose services are looked up beside the
    /// connection.
    pub open spec fn is_guest(self, id: u64) -> bool {
        self.guest is Some && self.guest->0.device.id == id
    }

    /// The state after a change of the guest's link was published.
    pub open spec fn with_guest(self, guest: Option<Guest>) -> Self {
        HandlerView { guest, ..self.signalled(self.connected) }
    }
}

/// The state of the Bluetooth adapter as the backend reports it.
#[derive(Clone, Copy, Debug, PartialEq, Eq, Structural)]
pub enum CentralState {
    Unknown,
    PoweredOn,
    PoweredOff,
}

/// What the adapter reports on its own, devices by their ids.
#[derive(Clone, Copy, Debug, PartialEq, Eq, Structural)]
pub enum CentralEvent {
    DeviceConnected(u64),
    DeviceDisconnected(u64),
    StateUpdate(CentralState),
    /// An event that the handler has no use for.
    Other,
}

/// What an event does to the connection, and what the host has to do.
pub open spec fn connection_next<D, N>(h: HandlerView<D, N>, event: CentralEvent) -> Out<D, N> {
    match event {
        CentralEvent::DeviceDisconnected(id) => if h.is_current(id) {
            Out { h: h.cleared(), effects: h.clear_effects() }
        } else {
            Out { h, effects: Seq::empty() }
        },
        CentralEvent::DeviceConnected(id) => if h.is_current(id) {
            Out { h: h.signalled(true), effects: seq![Effect::Signal(true)] }
        } else {
            Out { h, effects: Seq::empty() }
        },
        CentralEvent::StateUpdate(CentralState::PoweredOff) => if h.connected_dev is Some {
            Out { h: h.cleared(), effects: h.clear_effects() }
        } else {
            Out { h, effects: Seq::empty() }
        },
        _ => Out { h, effects: Seq::empty() },
    }
}

/// What becomes of the guest's link with an event, if anything does: `Some(None)` if it ends.
pub open spec fn guest_change<D, N>(h: HandlerView<D, N>, event: CentralEvent) -> Option<
    Option<Guest>,
> {
    match event {
        CentralEvent::DeviceDisconnected(id) => if h.is_guest(id) {
            Some(None)
        } else {
            None
        },
        CentralEvent::DeviceConnected(id) => if h.is_guest(id) {
            Some(Some(Guest { up: true, ..h.guest->0 }))
        } else {
            None
        },
        CentralEvent::StateUpdate(CentralState::PoweredOff) => if h.guest is Some {
            Some(None)
        } else {
            None
        },
        _ => None,
    }
}

/// What an event does to the state, and what the host has to do.
pub open spec fn event_next<D, N>(h: HandlerView<D, N>, event: CentralEvent) -> Out<D, N> {
    let out = connection_next(h, event);
    match guest_change(h, event) {
        Some(guest) => Out {
            h: out.h.with_guest(guest),
            effects: out.effects.push(Effect::Signal(out.h.connected)),
        },
        None => out,
    }
}

/// Whether an event reports a link that nobody asked for, to a device that is known.
pub open spec fn unwanted_link<D, N>(h: HandlerView<D, N>, event: CentralEvent) -> bool {
    match event {
        CentralEvent::DeviceConnected(id) => !h.is_current(id) && !h.is_guest(id) && exists|
            a: Seq<char>,
        | #[trigger]
            h.devices.dom().contains(a) && h.devices[a].id == id,
        _ => false,
    }
}

/// Events of devices that are neither the connected one nor a guest change nothing.
pub proof fn foreign_events_change_nothing<D, N>(h: HandlerView<D, N>, id: u64)
    requires
        !h.is_current(id),
        !h.is_guest(id),
    ensures
        event_next(h, CentralEvent::DeviceDisconnected(id)) == (Out {
            h,
            effects: Seq::<Effect<D>>::empty(),
        }),
        event_next(h, CentralEvent::DeviceConnected(id)) == (Out {
            h,
            effects: Seq::<Effect<D>>::empty(),
        }),
{
}

/// Events of a guest that is not the connected device leave the connection alone: they only
/// tell those who wait for the guest.
pub proof fn guests_leave_the_connection_alone<D, N>(h: HandlerView<D, N>, event: CentralEvent)
    requires
        event == CentralEvent::DeviceDisconnected(h.guest->0.device.id) || event
            == CentralEvent::DeviceConnected(h.guest->0.device.id),
        h.guest is Some,
        !h.is_current(h.guest->0.device.id),
    ensures
        ({
            let out = event_next(h, event);
            &&& out.h == (HandlerView { guest: out.h.guest, signals: out.h.signals, ..h })
            &&& out.effects == seq![Effect::<D>::Signal(h.connected)]
        }),
{
    assert(event_next(h, event).effects =~= seq![Effect::<D>::Signal(h.connected)]);
}

/// The end of a link is acted on once, however often it is reported.
pub proof fn repeated_disconnects_change_nothing<D, N>(h: HandlerView<D, N>, id: u64)
    ensures
        ({
            let event = CentralEvent::DeviceDisconnected(id);
            let h2 = event_next(h, event).h;
            event_next(h2, event) == (Out { h: h2, effects: Seq::<Effect<D>>::empty() })
        }),
{
}

/// After the link to the connected device has ended, or the adapter was switched off, the
/// handler is not connected and knows nothing of the connection any more, and the callback
/// was handed to the host.
pub proof fn lost_links_are_cleared<D, N>(h: HandlerView<D, N>, id: u64, event: CentralEvent)
    requires
        h.is_current(id),
        event == CentralEvent::DeviceDisconnected(id) || event == CentralEvent::StateUpdate(
            CentralState::PoweredOff,
        ),
    ensures
        ({
            let out = event_next(h, event);
            &&& out.h.connected_dev is None
            &&& !out.h.connected
            &&& out.h.characs.len() == 0
            &&& out.h.listeners.len() == 0
            &&& out.h.on_disconnect is Unset
            &&& out.h.devices == h.devices
            &&& h.on_disconnect !is Unset ==> out.effects.contains(
                Effect::RunDisconnect(h.on_disconnect),
            )
            &&& out.effects.contains(Effect::ConnectionUpdate(false))
        }),
{
    let effects = event_next(h, event).effects;
    let n = h.clear_effects().len() as int;
    assert(effects[n - 2] == Effect::<D>::ConnectionUpdate(false));
    if h.on_disconnect !is Unset {
        assert(effects[n - 3] == Effect::RunDisconnect(h.on_disconnect));
    }
}

impl<D, N> Handler<D, N> {
    /// A handler that has found nothing and is not connected.
    pub fn new(timeouts: Timeouts) -> (handler: Self)
        ensures
            handler@ == fresh::<D, N>(timeouts),
    {
        Handler {
            devices: DeviceIndex::new(),
            adapter: None,
            event_pump: false,
            listeners: Vec::new(),
            connected: false,
            signals: 0,
            connected_dev: None,
            guest: None,
            characs: Vec::new(),
            listen_task: None,
            on_disconnect: OnDisconnectHandler::Unset,
            connection_update_channel: Vec::new(),
            scan_update_channel: Vec::new(),
            scan_task: None,
            tasks: 0,
            timeouts,
            write_timeout_in_ms: 0,
            skip_waiting_for_write_to_complete: false,
            allow_ibeacons: false,
        }
    }

    fn signal(&mut self, connected: bool, out: &mut Vec<Effect<D>>)
        ensures
            final(self)@ == old(self)@.signalled(connected),
            final(out)@ == old(out)@.push(Effect::Signal(connected)),
    {
        self.connected = connected;
        self.signals = self.signals.wrapping_add(1);
        out.push(Effect::Signal(connected));
    }

    /// Drops every trace of a connection: forgets the device, stops the notification task,
    /// drops the characteristics and subscriptions, has the callback run and the new state
    /// reported.
    fn clear_connection_state(&mut self, out: &mut Vec<Effect<D>>)
        ensures
            final(self)@ == old(self)@.cleared(),
            final(out)@ == old(out)@ + old(self)@.clear_effects(),
    {
        let ghost before = out@;
        self.connected_dev = None;
        self.listeners = Vec::new();
        match self.listen_task.take() {
            Some(task) => {
                out.push(Effect::AbortNotify(task));
            },
            None => {},
        }
        match self.on_disconnect.take() {
            OnDisconnectHandler::Unset => {},
            callback => {
                out.push(Effect::RunDisconnect(callback));
            },
        }
        self.characs = Vec::new();
        out.push(Effect::ConnectionUpdate(false));
        self.signal(false, out);
        proof {
            assert(out@ =~= before + old(self)@.clear_effects());
            assert(self@ =~= old(self)@.cleared());
        }
    }

    /// Takes note of what the adapter reports. Returns a peripheral whose link nobody asked
    /// for, which the host has to disconnect.
    pub fn handle_event(&mut self, event: CentralEvent, out: &mut Vec<Effect<D>>) -> (unwanted:
        Option<Peripheral>)
        ensures
            final(self)@ == event_next(old(self)@, event).h,
            final(out)@ == old(out)@ + event_next(old(self)@, event).effects,
            unwanted is Some <==> unwanted_link(old(self)@, event),
            unwanted matches Some(p) ==> event == CentralEvent::DeviceConnected(p.id) && exists|
                a: Seq<char>,
            | #[trigger]
                old(self)@.devices.dom().contains(a) && old(self)@.devices[a] == p,
    {
        let ghost before = out@;
        let ghost h = self@;
        let mut unwanted = None;
        match event {
            CentralEvent::DeviceDisconnected(id) => {
                self.handle_disconnect(id, out);
            },
            CentralEvent::DeviceConnected(id) => {
                unwanted = self.handle_connect(id, out);
            },
            CentralEvent::StateUpdate(CentralState::PoweredOff) => {
                self.handle_adapter_powered_off(out);
            },
            _ => {
                assert(out@ =~= before + event_next(h, event).effects);
            },
        }
        unwanted
    }

    // every link is gone with the adapter, and no event will say so
    fn handle_adapter_powered_off(&mut self, out: &mut Vec<Effect<D>>)
        ensures
            ({
                let next = event_next(
                    old(self)@,
                    CentralEvent::StateUpdate(CentralState::PoweredOff),
                );
                final(self)@ == next.h && final(out)@ == old(out)@ + next.effects
            }),
    {
        let ghost before = out@;
        let ghost h = self@;
        if self.connected_dev.is_some() {
            self.clear_connection_state(out);
        }
        if self.guest.is_some() {
            self.change_guest(None, out);
        }
        proof {
            assert(out@ =~= before + event_next(
                h,
                CentralEvent::StateUpdate(CentralState::PoweredOff),
            ).effects);
        }
    }

    fn change_guest(&mut self, guest: Option<Guest>, out: &mut Vec<Effect<D>>)
        ensures
            final(self)@ == old(self)@.with_guest(guest),
            final(out)@ == old(out)@.push(Effect::Signal(old(self)@.connected)),
    {
        self.guest = guest;
        let connected: bool = self.connected;
        self.signal(connected, out);
    }

    fn is_current(&self, id: u64) -> (current: bool)
        ensures
            current == self@.is_current(id),
    {
        match &self.connected_dev {
            Some(device) => device.id == id,
            None => false,
        }
    }

    fn is_guest(&self, id: u64) -> (guest: bool)
        ensures
            guest == self@.is_guest(id),
    {
        match &self.guest {
            Some(guest) => guest.device.id == id,
            None => false,
        }
    }

    fn handle_disconnect(&mut self, id: u64, out: &mut Vec<Effect<D>>)
        ensures
            ({
                let next = event_next(old(self)@, CentralEvent::DeviceDisconnected(id));
                final(self)@ == next.h && final(out)@ == old(out)@ + next.effects
            }),
    {
        let ghost before = out@;
        let ghost h = self@;
        if self.is_current(id) {
            self.clear_connection_state(out);
        }
        if self.is_guest(id) {
            self.change_guest(None, out);
        }
        proof {
            assert(out@ =~= before + event_next(h, CentralEvent::DeviceDisconnected(id)).effects);
        }
    }

    fn handle_connect(&mut self, id: u64, out: &mut Vec<Effect<D>>) -> (unwanted: Option<
        Peripheral,
    >)
        ensures
            ({
                let next = event_next(old(self)@, CentralEvent::DeviceConnected(id));
                final(self)@ == next.h && final(out)@ == old(out)@ + next.effects
            }),
            unwanted is Some <==> unwanted_link(old(self)@, CentralEvent::DeviceConnected(id)),
            unwanted matches Some(p) ==> p.id == id && exists|a: Seq<char>| #[trigger]
                old(self)@.devices.dom().contains(a) && old(self)@.devices[a] == p,
    {
        let ghost before = out@;
        let ghost h = self@;
        let current = self.is_current(id);
        let awaited = current || self.is_guest(id);
        if current {
            self.signal(true, out);
        }
        match self.guest {
            Some(guest) => if guest.device.id == id {
                self.change_guest(Some(Guest { device: guest.device, up: true }), out);
            },
            None => {},
        }
        proof {
            assert(out@ =~= before + event_next(h, CentralEvent::DeviceConnected(id)).effects);
        }
        if awaited {
            None
        } else {
            // typically a connection attempt that was given up and completed afterwards
            self.devices.find_by_id(id)
        }
    }
}

impl<D, N> Handler<D, N> {
    /// Replaces the time limits of the requests.
    pub fn set_timeouts(&mut self, timeouts: Timeouts)
        ensures
            final(self)@ == (HandlerView { timeouts, ..old(self)@ }),
    {
        self.timeouts = timeouts;
    }

    /// The time limits of the requests.
    pub fn timeouts(&self) -> (timeouts: Timeouts)
        ensures
            timeouts == self@.timeouts,
    {
        self.timeouts
    }

    /// Sets how long the android backend waits for a write, where no limit counts as zero,
    /// and whether it waits for the write to complete at all.
    pub fn set_write_behaviour(
        &mut self,
        timeout_in_ms: Option<u32>,
        skip_waiting_on_success: bool,
    )
        ensures
            final(self)@ == (HandlerView {
                write_timeout_in_ms: match timeout_in_ms {
                    Some(ms) => ms,
                    None => 0,
                },
                skip_waiting_for_write_to_complete: skip_waiting_on_success,
                ..old(self)@
            }),
    {
        self.write_timeout_in_ms = match timeout_in_ms {
            Some(ms) => ms,
            None => 0,
        };
        self.skip_waiting_for_write_to_complete = skip_waiting_on_success;
    }

    /// What [`Self::set_write_behaviour`] has set.
    pub fn get_write_behaviour(&self) -> (behaviour: (u32, bool))
        ensures
            behaviour == (
                self@.write_timeout_in_ms,
                self@.skip_waiting_for_write_to_complete,
            ),
    {
        (self.write_timeout_in_ms, self.skip_waiting_for_write_to_complete)
    }

    /// Whether a device is connected.
    pub fn is_connected(&self) -> (connected: bool)
        ensures
            connected == self@.connected,
    {
        self.connected
    }

    /// How often a change of a link was published.
    pub fn signals(&self) -> (signals: u64)
        ensures
            signals == self@.signals,
    {
        self.signals
    }

    fn current(&self) -> (device: Result<Peripheral, Error>)
        ensures
            device is Ok <==> self@.connected_dev is Some,
            device matches Ok(p) ==> self@.connected_dev == Some(p),
            device matches Err(e) ==> e@ == ErrorView::NoDeviceConnected,
    {
        match self.connected_dev {
            Some(device) => Ok(device),
            None => Err(Error::NoDeviceConnected),
        }
    }

    /// The device whose MTU is asked for: the connected one.
    pub fn mtu(&self) -> (device: Result<Peripheral, Error>)
        ensures
            device is Ok <==> self@.connected_dev is Some,
            device matches Ok(p) ==> self@.connected_dev == Some(p),
            device matches Err(e) ==> e@ == ErrorView::NoDeviceConnected,
    {
        self.current()
    }

    /// The connected device, for the host to describe.
    pub fn connected_device(&self) -> (device: Result<Peripheral, Error>)
        ensures
            device is Ok <==> self@.connected_dev is Some,
            device matches Ok(p) ==> self@.connected_dev == Some(p),
            device matches Err(e) ==> e@ == ErrorView::NoDeviceConnected,
    {
        self.current()
    }

    /// Whether a scan is running.
    pub fn is_scanning(&self) -> (scanning: bool)
        ensures
            scanning == (self@.scan_task matches Some(handle) && !handle.finished),
    {
        match self.scan_task {
            Some(handle) => !handle.finished,
            None => false,
        }
    }

    /// Whether scans and permission requests include iBeacons.
    pub fn allows_ibeacons(&self) -> (allowed: bool)
        ensures
            allowed == self@.allow_ibeacons,
    {
        self.allow_ibeacons
    }

    /// Adds a channel that is told whenever a scan begins or ends.
    pub fn set_scanning_update_channel(&mut self, tx: u64)
        ensures
            final(self)@ == (HandlerView {
                scan_update_channel: old(self)@.scan_update_channel.push(tx),
                ..old(self)@
            }),
    {
        self.scan_update_channel.push(tx);
    }

    /// Adds a channel that is told whenever a connection begins or ends.
    pub fn set_connection_update_channel(&mut self, tx: u64)
        ensures
            final(self)@ == (HandlerView {
                connection_update_channel: old(self)@.connection_update_channel.push(tx),
                ..old(self)@
            }),
    {
        self.connection_update_channel.push(tx);
    }

    /// The channels that are told whenever a scan begins or ends.
    pub fn scanning_update_channels(&self) -> (channels: &Vec<u64>)
        ensures
            channels@ == self@.scan_update_channel,
    {
        &self.scan_update_channel
    }

    /// The channels that are told whenever a connection begins or ends.
    pub fn connection_update_channels(&self) -> (channels: &Vec<u64>)
        ensures
            channels@ == self@.connection_update_channel,
    {
        &self.connection_update_channel
    }
}

} // verus!
