//! The handler against a simulated backend, in simulated time.

use blec::exchange::{Effect, Next, Reply, Request, Signal, Timed};
use blec::filter::Candidate;
use blec::handler::gatt::{received, sent, GattRequest};
use blec::handler::scan::{ScanNext, ScanReply, ScanRequest, ScanTask, Sink};
use blec::handler::{CentralEvent, CentralState};
use blec::index::Found;
use blec::models::{
    fmt_addr, AdapterState, BleDevice, Characteristic, Peripheral, Properties, ScanFilter, Service,
    WriteType,
};
use blec::{BackendError, Error, Handler, OnDisconnectHandler, SubscriptionHandler, Timeouts};
use std::collections::{HashMap, HashSet, VecDeque};

const SERVICE: u128 = 0xA07498CA_AD5B_474E_940D_16F1FBE7E8CD;
const SERVICE2: u128 = 0xA07498CA_AD5B_474E_940D_16F1FBE7E8CE;
/// Present in both services.
const CHARAC: u128 = 0x51FF12BB_3ED8_46E5_B4F9_D64E2FEC021B;
/// Notify only characteristic in `SERVICE`.
const CHARAC_NOTIFY: u128 = 0x51FF12BB_3ED8_46E5_B4F9_D64E2FEC021C;
/// Characteristic the device does not have.
const CHARAC_MISSING: u128 = 0x51FF12BB_3ED8_46E5_B4F9_D64E2FEC0000;
const MANUFACTURER_ID: u16 = 0xf00d;
const MANUFACTURER_DATA: [u8; 4] = [0x21, 0x22, 0x23, 0x24];

const DEVICE_ADDR: [u8; 6] = [0xAA, 0xBB, 0xCC, 0xDD, 0xEE, 0x01];
const OTHER_ADDR: [u8; 6] = [0xAA, 0xBB, 0xCC, 0xDD, 0xEE, 0x02];

const READ: u8 = 0x02;
const WRITE_WITHOUT_RESPONSE: u8 = 0x04;
const WRITE: u8 = 0x08;
const NOTIFY: u8 = 0x10;

/// Time limits short enough that even the retrying `connect` finishes quickly.
fn short_timeouts() -> Timeouts {
    Timeouts {
        connect: 2000,
        discover_services: 1000,
        read: 1000,
        write: 1000,
        subscribe: 1000,
        disconnect: 1000,
    }
}

#[derive(Clone, Debug, PartialEq, Eq)]
enum FailKind {
    NotConnected,
    NotSupported,
    Runtime(String),
}

impl FailKind {
    fn to_error(&self) -> BackendError {
        match self {
            FailKind::NotConnected => BackendError::NotConnected,
            FailKind::NotSupported => BackendError::NotSupported("mock".to_string()),
            FailKind::Runtime(msg) => BackendError::RuntimeError(msg.clone()),
        }
    }
}

/// How the device answers a request to connect.
#[derive(Clone, Debug, PartialEq, Eq)]
enum ConnectBehaviour {
    Works,
    OkAfter(u64),
    Fail(FailKind),
    /// The request succeeds but the link never comes up.
    Hang,
    OkThenDrop(u64),
}

/// How the device answers another request.
#[derive(Clone, Debug, PartialEq, Eq)]
enum OpBehaviour {
    Works,
    Delay(u64),
    Fail(FailKind),
    Hang,
}

/// A request the device got.
#[derive(Clone, Debug, PartialEq, Eq)]
enum Op {
    Connect,
    Disconnect,
    DiscoverServices,
    Read(u128),
    Write(u128, Vec<u8>, WriteType),
    Subscribe(u128),
    Unsubscribe(u128),
}

struct Device {
    address: [u8; 6],
    name: String,
    gatt: Vec<(u128, Vec<(u128, u8)>)>,
    manufacturer_data: HashMap<u16, Vec<u8>>,
    mtu: u16,
    in_range: bool,
    known: bool,
    linked: bool,
    discovered: bool,
    values: HashMap<(u128, u128), Vec<u8>>,
    subscriptions: HashSet<(u128, u128)>,
    connect: ConnectBehaviour,
    connect_queue: VecDeque<ConnectBehaviour>,
    disconnect: OpBehaviour,
    disconnect_emits_event: bool,
    forget_on_disconnect: bool,
    discover: OpBehaviour,
    read: OpBehaviour,
    write: OpBehaviour,
    subscribe: OpBehaviour,
    /// Drop the link so long after it came up.
    drop_after_connect: Option<u64>,
    ops: Vec<Op>,
}

impl Device {
    fn services(&self) -> Vec<Service> {
        self.gatt
            .iter()
            .map(|(uuid, characs)| Service {
                uuid: *uuid,
                primary: true,
                characteristics: characs
                    .iter()
                    .map(|(c, properties)| Characteristic {
                        uuid: *c,
                        service_uuid: *uuid,
                        properties: *properties,
                        descriptors: vec![],
                    })
                    .collect(),
            })
            .collect()
    }
}

struct ScanRun {
    task: ScanTask,
    wake: u64,
}

/// A device, by its place in the world.
type Dev = usize;

struct World {
    handler: Handler<usize, usize>,
    now: u64,
    devices: Vec<Device>,
    events: VecDeque<CentralEvent>,
    pump: bool,
    scanning: bool,
    adapter_state: CentralState,
    scan: Option<ScanRun>,
    /// What the scan of a call to `connect` has reported.
    caller: VecDeque<Vec<BleDevice>>,
    channels: Vec<Vec<Vec<BleDevice>>>,
    /// The links that go down at some time.
    drops: Vec<(u64, Dev)>,
    notify_tasks: Vec<(u64, Dev)>,
    /// How often each callback for the end of a connection ran.
    counters: Vec<usize>,
    /// What each notification callback was called with.
    recorders: Vec<Vec<Vec<u8>>>,
    /// What each update channel was told.
    updates: Vec<Vec<bool>>,
}

fn peripheral(dev: Dev, address: [u8; 6]) -> Peripheral {
    Peripheral { id: dev as u64 + 100, address }
}

fn dev_of(p: Peripheral) -> Dev {
    p.id as usize - 100
}

impl World {
    fn new() -> World {
        World {
            handler: Handler::new(short_timeouts()),
            now: 0,
            devices: vec![],
            events: VecDeque::new(),
            pump: false,
            scanning: false,
            adapter_state: CentralState::PoweredOn,
            scan: None,
            caller: VecDeque::new(),
            channels: vec![],
            drops: vec![],
            notify_tasks: vec![],
            counters: vec![],
            recorders: vec![],
            updates: vec![],
        }
    }

    fn add_device(&mut self, address: [u8; 6], name: &str, gatt: Vec<(u128, Vec<(u128, u8)>)>) -> Dev {
        self.devices.push(Device {
            address,
            name: name.to_string(),
            gatt,
            manufacturer_data: HashMap::new(),
            mtu: 247,
            in_range: true,
            known: true,
            linked: false,
            discovered: false,
            values: HashMap::new(),
            subscriptions: HashSet::new(),
            connect: ConnectBehaviour::Works,
            connect_queue: VecDeque::new(),
            disconnect: OpBehaviour::Works,
            disconnect_emits_event: true,
            forget_on_disconnect: false,
            discover: OpBehaviour::Works,
            read: OpBehaviour::Works,
            write: OpBehaviour::Works,
            subscribe: OpBehaviour::Works,
            drop_after_connect: None,
            ops: vec![],
        });
        self.devices.len() - 1
    }

    /// The device most tests talk to: two services sharing a characteristic uuid plus a
    /// notify only characteristic.
    fn stress_device(&mut self) -> Dev {
        let dev = self.add_device(
            DEVICE_ADDR,
            "stress",
            vec![
                (
                    SERVICE,
                    vec![
                        (CHARAC, READ | WRITE | WRITE_WITHOUT_RESPONSE | NOTIFY),
                        (CHARAC_NOTIFY, NOTIFY),
                    ],
                ),
                (SERVICE2, vec![(CHARAC, READ | WRITE | NOTIFY)]),
            ],
        );
        self.devices[dev]
            .manufacturer_data
            .insert(MANUFACTURER_ID, MANUFACTURER_DATA.to_vec());
        dev
    }

    /// A second, unrelated device without services.
    fn other_device(&mut self) -> Dev {
        self.add_device(OTHER_ADDR, "other", vec![])
    }

    fn address(&self, dev: Dev) -> String {
        fmt_addr(self.devices[dev].address)
    }

    fn emit(&mut self, event: CentralEvent) {
        if self.pump {
            self.events.push_back(event);
        }
    }

    fn id(&self, dev: Dev) -> u64 {
        dev as u64 + 100
    }

    fn establish_link(&mut self, dev: Dev) {
        self.devices[dev].linked = true;
        if let Some(delay) = self.devices[dev].drop_after_connect {
            self.drops.push((self.now + delay, dev));
        }
        self.emit(CentralEvent::DeviceConnected(self.id(dev)));
    }

    fn take_link_down(&mut self, dev: Dev, emit_event: bool) -> bool {
        let d = &mut self.devices[dev];
        if !d.linked {
            return false;
        }
        d.linked = false;
        if d.forget_on_disconnect {
            d.known = false;
        }
        d.discovered = false;
        d.subscriptions.clear();
        self.notify_tasks.retain(|(_, of)| *of != dev);
        if emit_event {
            self.emit(CentralEvent::DeviceDisconnected(self.id(dev)));
        }
        true
    }

    fn drop_link(&mut self, dev: Dev) -> bool {
        self.take_link_down(dev, true)
    }

    fn drop_link_silently(&mut self, dev: Dev) -> bool {
        self.take_link_down(dev, false)
    }

    fn set_adapter_state(&mut self, state: CentralState) {
        self.adapter_state = state;
        if state == CentralState::PoweredOff {
            self.scanning = false;
            for dev in 0..self.devices.len() {
                self.take_link_down(dev, false);
            }
        }
        self.emit(CentralEvent::StateUpdate(state));
    }

    /// Sends a notification if the device is subscribed to.
    fn notify(&mut self, dev: Dev, service: u128, charac: u128, value: Vec<u8>) -> bool {
        let d = &self.devices[dev];
        if !d.linked || !d.subscriptions.contains(&(service, charac)) {
            return false;
        }
        self.forward(dev, service, charac, value);
        true
    }

    /// Forwards a notification to the subscriptions it is for.
    fn forward(&mut self, dev: Dev, service: u128, charac: u128, value: Vec<u8>) {
        for _ in self.notify_tasks.iter().filter(|(_, of)| *of == dev) {
            for place in self.handler.listeners_for(charac, service) {
                let (SubscriptionHandler::Sync(n) | SubscriptionHandler::Async(n)) =
                    self.handler.callback(place);
                self.recorders[*n].push(value.clone());
            }
        }
    }

    fn describe(&self, dev: Dev) -> BleDevice {
        let d = &self.devices[dev];
        BleDevice {
            address: fmt_addr(d.address),
            name: d.name.clone(),
            rssi: if d.in_range { Some(-60) } else { None },
            is_connected: d.linked,
            is_bonded: false,
            tx_power_level: None,
            services: d.gatt.iter().map(|(uuid, _)| *uuid).collect(),
            manufacturer_data: d.manufacturer_data.clone(),
            service_data: HashMap::new(),
        }
    }

    fn candidates(&self) -> Vec<Candidate> {
        self.devices
            .iter()
            .enumerate()
            .filter(|(_, d)| d.in_range)
            .map(|(dev, d)| Candidate {
                peripheral: peripheral(dev, d.address),
                properties: Some(Properties {
                    rssi: Some(-60),
                    services: d.gatt.iter().map(|(uuid, _)| *uuid).collect(),
                    manufacturer_data: d.manufacturer_data.clone(),
                }),
            })
            .collect()
    }

    /// Carries out what the handler has listed.
    fn apply(&mut self, effects: Vec<Effect<usize>>) {
        for effect in effects {
            match effect {
                Effect::UseAdapter(id) => assert_eq!(id, 0),
                Effect::StartEventPump => self.pump = true,
                Effect::StartNotify { task, device } => {
                    self.notify_tasks.push((task, dev_of(device)))
                }
                Effect::AbortNotify(task) => self.notify_tasks.retain(|(t, _)| *t != task),
                Effect::SpawnScan(mut task) => {
                    let next = task.begin(&mut self.handler);
                    assert!(matches!(next, ScanNext::Ask(ScanRequest::Sleep(200))));
                    self.scan = Some(ScanRun { task, wake: self.now + 200 });
                }
                Effect::AbortScan(task) => {
                    if self.scan.as_ref().is_some_and(|run| run.task.task == task) {
                        self.scan = None;
                    }
                }
                Effect::RunDisconnect(callback) => match callback {
                    OnDisconnectHandler::Sync(n) | OnDisconnectHandler::Async(n) => {
                        self.counters[n] += 1
                    }
                    OnDisconnectHandler::Unset => panic!("nothing to run"),
                },
                Effect::ConnectionUpdate(state) => {
                    for channel in self.handler.connection_update_channels() {
                        self.updates[*channel as usize].push(state);
                    }
                }
                Effect::ScanUpdate(state) => {
                    for channel in self.handler.scanning_update_channels() {
                        self.updates[*channel as usize].push(state);
                    }
                }
                Effect::Signal(state) => assert_eq!(state, self.handler.is_connected()),
            }
        }
    }

    /// Forwards the events of the adapter to the handler.
    fn pump_events(&mut self) {
        while let Some(event) = self.events.pop_front() {
            let mut out = vec![];
            let unwanted = self.handler.handle_event(event, &mut out);
            self.apply(out);
            if let Some(p) = unwanted {
                let _ = self.request_disconnect(dev_of(p));
            }
        }
    }

    /// Lets the scan task run until it sleeps again.
    fn run_scan(&mut self) {
        let mut run = self.scan.take().unwrap();
        let mut reply = ScanReply::Plain(true);
        loop {
            assert!(run.task.expects(&reply));
            let mut out = vec![];
            let next = run.task.step(&mut self.handler, reply, &mut out);
            self.apply(out);
            reply = match next {
                ScanNext::Ask(ScanRequest::Sleep(ms)) => {
                    run.wake = self.now + ms;
                    self.scan = Some(run);
                    return;
                }
                ScanNext::Ask(ScanRequest::List) => ScanReply::Listed(Ok(self.candidates())),
                ScanNext::Ask(ScanRequest::Describe(peripherals)) => ScanReply::Described(
                    peripherals
                        .into_iter()
                        .map(|p| Found { peripheral: p, device: Some(self.describe(dev_of(p))) })
                        .collect(),
                ),
                ScanNext::Ask(ScanRequest::Send(sink, devices)) => {
                    match sink {
                        Sink::Nobody => panic!("nobody to send to"),
                        Sink::Channel(n) => self.channels[n as usize].push(devices),
                        Sink::Caller => self.caller.push_back(devices),
                    }
                    ScanReply::Plain(true)
                }
                ScanNext::Ask(ScanRequest::StopScan) => {
                    self.scanning = false;
                    ScanReply::Plain(true)
                }
                ScanNext::Done => return,
                ScanNext::Failed => panic!("the scan broke off"),
            };
        }
    }

    /// The next time at which something happens by itself.
    fn next_time(&self) -> Option<u64> {
        let drops = self.drops.iter().map(|(t, _)| *t);
        drops.chain(self.scan.iter().map(|run| run.wake)).min()
    }

    /// Lets what happens by itself up to `time` happen.
    fn advance_to(&mut self, time: u64) {
        self.pump_events();
        while let Some(t) = self.next_time() {
            if t > time {
                break;
            }
            self.now = self.now.max(t);
            if self.scan.as_ref().is_some_and(|run| run.wake <= t) {
                self.run_scan();
            }
            let due: Vec<Dev> =
                self.drops.iter().filter(|(at, _)| *at <= t).map(|(_, dev)| *dev).collect();
            self.drops.retain(|(at, _)| *at > t);
            for dev in due {
                self.drop_link(dev);
            }
            self.pump_events();
        }
        self.now = self.now.max(time);
    }

    fn advance(&mut self, ms: u64) {
        self.advance_to(self.now + ms);
    }

    fn settle(&mut self) {
        self.advance(20);
    }

    /// Waits until a condition holds, at most so many milliseconds.
    fn wait_until(&mut self, max: u64, cond: impl Fn(&World) -> bool) -> bool {
        let deadline = self.now + max;
        loop {
            if cond(self) {
                return true;
            }
            if self.now >= deadline {
                return false;
            }
            self.advance(5);
        }
    }

    /// Runs a behaviour within a time limit.
    fn run_behaviour(&mut self, behaviour: OpBehaviour, limit: u64) -> Timed<()> {
        match behaviour {
            OpBehaviour::Works => Timed::Done(()),
            OpBehaviour::Delay(ms) if ms < limit => {
                self.advance(ms);
                Timed::Done(())
            }
            OpBehaviour::Delay(_) | OpBehaviour::Hang => {
                self.advance(limit);
                Timed::TimedOut
            }
            OpBehaviour::Fail(kind) => Timed::Failed(kind.to_error()),
        }
    }

    fn request_connect(&mut self, dev: Dev, limit: u64) -> Timed<()> {
        self.devices[dev].ops.push(Op::Connect);
        if !self.devices[dev].in_range || !self.devices[dev].known {
            return Timed::Failed(BackendError::DeviceNotFound);
        }
        if self.devices[dev].linked {
            return Timed::Done(());
        }
        let behaviour = match self.devices[dev].connect_queue.pop_front() {
            Some(behaviour) => behaviour,
            None => self.devices[dev].connect.clone(),
        };
        match behaviour {
            ConnectBehaviour::Works => self.establish_link(dev),
            ConnectBehaviour::OkAfter(ms) => {
                if ms >= limit {
                    self.advance(limit);
                    return Timed::TimedOut;
                }
                self.advance(ms);
                self.establish_link(dev);
            }
            ConnectBehaviour::Fail(kind) => return Timed::Failed(kind.to_error()),
            ConnectBehaviour::Hang => {}
            ConnectBehaviour::OkThenDrop(ms) => {
                self.establish_link(dev);
                self.drops.push((self.now + ms, dev));
            }
        }
        Timed::Done(())
    }

    fn request_disconnect(&mut self, dev: Dev) -> Result<(), BackendError> {
        self.devices[dev].ops.push(Op::Disconnect);
        match self.devices[dev].disconnect.clone() {
            OpBehaviour::Fail(kind) => return Err(kind.to_error()),
            OpBehaviour::Delay(ms) => self.advance(ms),
            OpBehaviour::Hang => panic!("a disconnect without a time limit hangs"),
            OpBehaviour::Works => {}
        }
        let emits = self.devices[dev].disconnect_emits_event;
        self.take_link_down(dev, emits);
        Ok(())
    }

    fn request_discovery(&mut self, dev: Dev, limit: u64) -> Timed<Vec<Service>> {
        self.devices[dev].ops.push(Op::DiscoverServices);
        if !self.devices[dev].linked {
            return Timed::Failed(BackendError::NotConnected);
        }
        match self.run_behaviour(self.devices[dev].discover.clone(), limit) {
            Timed::Done(()) => {
                if !self.devices[dev].linked {
                    return Timed::Failed(BackendError::NotConnected);
                }
                self.devices[dev].discovered = true;
                Timed::Done(self.devices[dev].services())
            }
            Timed::Failed(e) => Timed::Failed(e),
            Timed::TimedOut => Timed::TimedOut,
        }
    }

    /// Does what a call asks for.
    fn perform(&mut self, request: Request) -> Reply {
        match request {
            Request::FindAdapters => Reply::Adapters(Ok(vec![0])),
            Request::StartScan => {
                if self.adapter_state == CentralState::PoweredOff {
                    return Reply::Plain(Err(BackendError::NotConnected));
                }
                self.scanning = true;
                for d in &mut self.devices {
                    d.known = d.known || d.in_range;
                }
                Reply::Plain(Ok(()))
            }
            Request::StopScan => {
                self.scanning = false;
                Reply::Plain(Ok(()))
            }
            Request::NextDevices => loop {
                if let Some(devices) = self.caller.pop_front() {
                    return Reply::Devices(Some(devices));
                }
                match &self.scan {
                    Some(run) => self.advance_to(run.wake),
                    None => return Reply::Devices(None),
                }
            },
            Request::Retrieve(p) => {
                self.devices[dev_of(p)].known = true;
                Reply::Plain(Ok(()))
            }
            Request::IsConnected(p) => Reply::Flag(Ok(self.devices[dev_of(p)].linked)),
            Request::Connect(p, limit) => Reply::Connected(self.request_connect(dev_of(p), limit)),
            Request::Disconnect(p) => Reply::Plain(self.request_disconnect(dev_of(p))),
            Request::AwaitSignal { seen, timeout } => {
                let deadline = timeout.map(|ms| self.now + ms);
                loop {
                    self.pump_events();
                    if self.handler.signals() != seen {
                        return Reply::Signal(Signal::Changed);
                    }
                    match (self.next_time(), deadline) {
                        (Some(t), Some(d)) if t <= d => self.advance_to(t),
                        (Some(t), None) => self.advance_to(t),
                        (_, Some(d)) => {
                            self.advance_to(d);
                            return Reply::Signal(Signal::TimedOut);
                        }
                        (None, None) => panic!("waits forever"),
                    }
                }
            }
            Request::Sleep(ms) => {
                self.advance(ms);
                Reply::Plain(Ok(()))
            }
            Request::ReadServices(p) => {
                let d = &self.devices[dev_of(p)];
                Reply::Services(Timed::Done(if d.discovered { d.services() } else { vec![] }))
            }
            Request::DiscoverServices(p, limit) => {
                Reply::Services(self.request_discovery(dev_of(p), limit))
            }
            Request::ReadState => Reply::State(Ok(self.adapter_state)),
        }
    }

    fn counter(&mut self) -> usize {
        self.counters.push(0);
        self.counters.len() - 1
    }

    fn recorder(&mut self) -> usize {
        self.recorders.push(vec![]);
        self.recorders.len() - 1
    }

    fn connection_updates(&mut self) -> usize {
        self.updates.push(vec![]);
        self.handler.set_connection_update_channel(self.updates.len() as u64 - 1);
        self.updates.len() - 1
    }

    fn scanning_updates(&mut self) -> usize {
        self.updates.push(vec![]);
        self.handler.set_scanning_update_channel(self.updates.len() as u64 - 1);
        self.updates.len() - 1
    }

    fn drain(&mut self, channel: usize) -> Vec<bool> {
        std::mem::take(&mut self.updates[channel])
    }

    /// Calls `connect` with a counting callback.
    fn call_connect_to(&mut self, address: &str, counter: usize) -> Result<(), Error> {
        let mut out = vec![];
        let (mut call, mut next) =
            self.handler.connect(address, OnDisconnectHandler::from_sync(counter), false, &mut out);
        self.apply(out);
        loop {
            match next {
                Next::Done(result) => {
                    self.caller.clear();
                    return result;
                }
                Next::Ask(request) => {
                    let reply = self.perform(request);
                    assert_eq!(reply.kind(), request.kind());
                    assert!(call.expects(reply.kind()));
                    let mut out = vec![];
                    next = call.step(&mut self.handler, reply, &mut out);
                    self.apply(out);
                }
            }
        }
    }

    /// Scans, then connects to the device with a counting callback.
    fn connect(&mut self, dev: Dev) -> (Result<(), Error>, usize) {
        self.scan(ScanFilter::Unfiltered).expect("scan failed");
        let counter = self.counter();
        let address = self.address(dev);
        let result = self.call_connect_to(&address, counter);
        self.settle();
        (result, counter)
    }

    fn connect_ok(&mut self, dev: Dev) -> usize {
        let (result, counter) = self.connect(dev);
        result.expect("connect failed");
        assert!(self.handler.is_connected(), "handler not connected after connect");
        assert!(self.devices[dev].linked, "device not connected after connect");
        counter
    }

    fn disconnect(&mut self) -> Result<(), Error> {
        let (mut call, mut next) = self.handler.disconnect();
        loop {
            match next {
                Next::Done(result) => return result,
                Next::Ask(request) => {
                    let reply = self.perform(request);
                    assert!(call.expects(reply.kind()));
                    let mut out = vec![];
                    next = call.step(&mut self.handler, reply, &mut out);
                    self.apply(out);
                }
            }
        }
    }

    fn discover(&mut self, sink: Sink, timeout: u64, filter: ScanFilter) -> Result<(), Error> {
        let mut out = vec![];
        let (mut call, mut next) = self.handler.discover(sink, timeout, filter, false, &mut out);
        self.apply(out);
        loop {
            match next {
                Next::Done(result) => return result,
                Next::Ask(request) => {
                    let reply = self.perform(request);
                    assert!(call.expects(reply.kind()));
                    let mut out = vec![];
                    next = call.step(&mut self.handler, reply, &mut out);
                    self.apply(out);
                }
            }
        }
    }

    fn stop_scan(&mut self) -> Result<(), Error> {
        let mut out = vec![];
        let (mut call, mut next) = self.handler.stop_scan(&mut out);
        self.apply(out);
        loop {
            match next {
                Next::Done(result) => return result,
                Next::Ask(request) => {
                    let reply = self.perform(request);
                    assert!(call.expects(reply.kind()));
                    let mut out = vec![];
                    next = call.step(&mut self.handler, reply, &mut out);
                    self.apply(out);
                }
            }
        }
    }

    fn discover_services(&mut self, address: &str) -> Result<Vec<Service>, Error> {
        let (mut call, mut next) = self.handler.discover_services(address);
        loop {
            match next {
                Next::Done(result) => return result,
                Next::Ask(request) => {
                    let reply = self.perform(request);
                    assert!(call.expects(&reply));
                    let mut out = vec![];
                    next = call.step(&mut self.handler, reply, &mut out);
                    self.apply(out);
                }
            }
        }
    }

    fn get_adapter_state(&mut self) -> AdapterState {
        let mut out = vec![];
        let (mut call, mut next) = self.handler.get_adapter_state(&mut out);
        self.apply(out);
        loop {
            match next {
                Next::Done(result) => return result.unwrap(),
                Next::Ask(request) => {
                    let reply = self.perform(request);
                    assert!(call.expects(reply.kind()));
                    let mut out = vec![];
                    next = call.step(&mut self.handler, reply, &mut out);
                    self.apply(out);
                }
            }
        }
    }

    /// Runs a scan and returns the final device list.
    fn scan(&mut self, filter: ScanFilter) -> Result<Vec<BleDevice>, Error> {
        self.channels.push(vec![]);
        let channel = self.channels.len() - 1;
        self.discover(Sink::Channel(channel as u64), 400, filter)?;
        assert!(self.wait_until(5000, |w| !w.handler.is_scanning()), "scan did not finish");
        self.settle();
        Ok(self.channels[channel].pop().unwrap_or_default())
    }

    fn send_data(
        &mut self,
        c: u128,
        service: Option<u128>,
        data: &[u8],
        write_type: WriteType,
    ) -> Result<(), Error> {
        let request = self.handler.send_data(c, service, data.to_vec(), write_type)?;
        let GattRequest::Write { device, charac, data, write_type, timeout } = request else {
            panic!("not a write");
        };
        let dev = dev_of(device);
        self.devices[dev].ops.push(Op::Write(charac.uuid, data.clone(), write_type));
        if !self.devices[dev].linked {
            return sent(Timed::Failed(BackendError::NotConnected));
        }
        let outcome = self.run_behaviour(self.devices[dev].write.clone(), timeout);
        if let Timed::Done(()) = outcome {
            self.devices[dev].values.insert((charac.service_uuid, charac.uuid), data);
        }
        sent(outcome)
    }

    fn recv_data(&mut self, c: u128, service: Option<u128>) -> Result<Vec<u8>, Error> {
        let request = self.handler.recv_data(c, service)?;
        let GattRequest::Read { device, charac, timeout } = request else {
            panic!("not a read");
        };
        let dev = dev_of(device);
        self.devices[dev].ops.push(Op::Read(charac.uuid));
        if !self.devices[dev].linked {
            return received(Timed::Failed(BackendError::NotConnected));
        }
        received(match self.run_behaviour(self.devices[dev].read.clone(), timeout) {
            Timed::Done(()) => Timed::Done(
                self.devices[dev]
                    .values
                    .get(&(charac.service_uuid, charac.uuid))
                    .cloned()
                    .unwrap_or_default(),
            ),
            Timed::Failed(e) => Timed::Failed(e),
            Timed::TimedOut => Timed::TimedOut,
        })
    }

    fn subscribe(&mut self, c: u128, service: Option<u128>, n: usize) -> Result<(), Error> {
        let (call, request) = self.handler.subscribe(c, service, SubscriptionHandler::from(n))?;
        let GattRequest::Subscribe { device, charac, timeout } = request else {
            panic!("not a subscription");
        };
        let dev = dev_of(device);
        self.devices[dev].ops.push(Op::Subscribe(charac.uuid));
        let outcome = if self.devices[dev].linked {
            self.run_behaviour(self.devices[dev].subscribe.clone(), timeout)
        } else {
            Timed::Failed(BackendError::NotConnected)
        };
        if let Timed::Done(()) = outcome {
            self.devices[dev].subscriptions.insert((charac.service_uuid, charac.uuid));
        }
        call.finish(&mut self.handler, outcome)
    }

    fn unsubscribe(&mut self, c: u128) -> Result<(), Error> {
        let (call, request) = self.handler.unsubscribe(c)?;
        let GattRequest::Unsubscribe { device, charac, timeout } = request else {
            panic!("not the end of a subscription");
        };
        let dev = dev_of(device);
        self.devices[dev].ops.push(Op::Unsubscribe(charac.uuid));
        let outcome = if self.devices[dev].linked {
            self.run_behaviour(self.devices[dev].subscribe.clone(), timeout)
        } else {
            Timed::Failed(BackendError::NotConnected)
        };
        if let Timed::Done(()) = outcome {
            self.devices[dev].subscriptions.remove(&(charac.service_uuid, charac.uuid));
        }
        call.finish(&mut self.handler, outcome)
    }

    fn mtu(&self) -> Result<u16, Error> {
        Ok(self.devices[dev_of(self.handler.mtu()?)].mtu)
    }

    fn connected_device(&self) -> Result<BleDevice, Error> {
        Ok(self.describe(dev_of(self.handler.connected_device()?)))
    }

    fn count_ops(&self, dev: Dev, op: &Op) -> usize {
        self.devices[dev].ops.iter().filter(|o| *o == op).count()
    }

    /// Asserts that the handler holds no connection state at all.
    fn assert_disconnected(&mut self) {
        assert!(!self.handler.is_connected(), "is_connected() still true");
        assert!(matches!(self.connected_device(), Err(Error::NoDeviceConnected)));
        assert!(matches!(self.mtu(), Err(Error::NoDeviceConnected)));
        assert!(matches!(self.recv_data(CHARAC, None), Err(Error::NoDeviceConnected)));
    }
}

// connecting

#[test]
fn connect_happy_path() {
    let mut w = World::new();
    let device = w.stress_device();
    let updates = w.connection_updates();

    let counter = w.connect_ok(device);

    assert_eq!(w.devices[device].ops, vec![Op::Connect, Op::DiscoverServices]);
    assert_eq!(w.drain(updates), vec![true]);
    let connected = w.connected_device().unwrap();
    assert_eq!(connected.address, w.address(device));
    assert!(connected.is_connected);
    assert_eq!(w.mtu().unwrap(), 247);

    // characteristics of every service are usable
    w.send_data(CHARAC, None, &[1, 2, 3], WriteType::WithResponse).unwrap();
    w.send_data(CHARAC, Some(SERVICE2), &[4, 5], WriteType::WithoutResponse).unwrap();
    assert_eq!(w.devices[device].values.get(&(SERVICE, CHARAC)), Some(&vec![1, 2, 3]));
    assert_eq!(w.devices[device].values.get(&(SERVICE2, CHARAC)), Some(&vec![4, 5]));
    assert_eq!(w.recv_data(CHARAC, Some(SERVICE2)).unwrap(), vec![4, 5]);
    assert!(matches!(w.recv_data(CHARAC_MISSING, None), Err(Error::CharacNotAvailable(_))));

    assert_eq!(w.counters[counter], 0);
    assert!(w.handler.is_connected());
}

#[test]
fn connect_without_prior_scan() {
    let mut w = World::new();
    let device = w.stress_device();

    let start = w.now;
    let counter = w.counter();
    let address = w.address(device);
    w.call_connect_to(&address, counter).expect("connect without prior scan");
    assert!(w.handler.is_connected());
    assert!(w.devices[device].linked);
    assert!(!w.handler.is_scanning(), "scan left running");
    assert!(w.now - start < 1000, "connect sat out the whole scan: {}", w.now - start);
}

#[test]
fn reconnect_after_the_backend_forgot_the_peripheral() {
    let mut w = World::new();
    let device = w.stress_device();
    w.devices[device].forget_on_disconnect = true;

    w.connect_ok(device);
    w.disconnect().expect("disconnect failed");
    w.settle();
    assert!(!w.devices[device].known, "the backend kept the peripheral");

    // no scan in between: only the backend's record of the peripheral is gone
    let counter = w.counter();
    let address = w.address(device);
    w.call_connect_to(&address, counter).expect("reconnect after the backend forgot");
    assert!(w.handler.is_connected());
    assert!(w.devices[device].linked);
}

#[test]
fn discover_services_after_the_backend_forgot_the_peripheral() {
    let mut w = World::new();
    let device = w.stress_device();

    w.scan(ScanFilter::Unfiltered).expect("scan failed");
    w.devices[device].known = false;

    let address = w.address(device);
    let services = w.discover_services(&address).expect("discover_services failed");
    assert_eq!(services.len(), 2, "{services:?}");
}

#[test]
fn connect_without_prior_scan_missing_device_does_not_hang() {
    let mut w = World::new();
    // another device is around, so the scan does report devices
    w.other_device();

    let start = w.now;
    let counter = w.counter();
    let result = w.call_connect_to("11:22:33:44:55:66", counter);
    assert!(w.now - start < 60_000, "connect did not return");
    assert!(matches!(result, Err(Error::UnknownPeripheral(_))), "{result:?}");
    assert!(!w.handler.is_scanning(), "scan left running");
    w.assert_disconnected();
    assert_eq!(w.counters[counter], 0);
}

#[test]
fn connect_unknown_address_fails_cleanly() {
    let mut w = World::new();
    w.stress_device();

    let counter = w.counter();
    let result = w.call_connect_to("11:22:33:44:55:66", counter);
    assert!(matches!(result, Err(Error::UnknownPeripheral(_))), "{result:?}");
    w.assert_disconnected();
    assert_eq!(w.counters[counter], 0);
}

#[test]
fn connect_succeeds_after_retries() {
    let mut w = World::new();
    let device = w.stress_device();
    for _ in 0..2 {
        w.devices[device].connect_queue.push_back(ConnectBehaviour::Fail(FailKind::NotConnected));
    }

    let counter = w.connect_ok(device);
    assert_eq!(w.count_ops(device, &Op::Connect), 3);
    assert_eq!(w.counters[counter], 0);
}

#[test]
fn connect_gives_up_after_three_failures() {
    let mut w = World::new();
    let device = w.stress_device();
    let updates = w.connection_updates();
    w.devices[device].connect = ConnectBehaviour::Fail(FailKind::NotConnected);

    let (result, counter) = w.connect(device);
    assert!(matches!(result, Err(Error::Btleplug(_))), "{result:?}");
    assert_eq!(w.count_ops(device, &Op::Connect), 3);
    // what may be pending is cancelled
    assert_eq!(w.devices[device].ops.last(), Some(&Op::Disconnect));
    w.assert_disconnected();
    assert!(!w.devices[device].linked);
    // never connected: the callback must not run, but listeners hear "false"
    assert_eq!(w.counters[counter], 0);
    assert_eq!(w.drain(updates), vec![false]);

    // the next connect works again
    w.devices[device].connect = ConnectBehaviour::Works;
    w.connect_ok(device);
}

#[test]
fn connect_call_times_out() {
    let mut w = World::new();
    let device = w.stress_device();
    // longer than the time limit: the request itself times out
    w.devices[device].connect = ConnectBehaviour::OkAfter(10_000);

    let (result, counter) = w.connect(device);
    assert!(matches!(result, Err(Error::Timeout(_))), "{result:?}");
    assert_eq!(w.count_ops(device, &Op::Connect), 3);
    w.assert_disconnected();
    assert_eq!(w.counters[counter], 0);
}

#[test]
fn connect_event_never_arrives() {
    let mut w = World::new();
    let device = w.stress_device();
    w.devices[device].connect = ConnectBehaviour::Hang;

    let (result, counter) = w.connect(device);
    assert!(matches!(result, Err(Error::Timeout(_))), "{result:?}");
    // every attempt cancelled its pending connection
    assert_eq!(w.count_ops(device, &Op::Connect), 3);
    assert!(w.count_ops(device, &Op::Disconnect) >= 3, "{:?}", w.devices[device].ops);
    w.assert_disconnected();
    assert_eq!(w.counters[counter], 0);

    // the platform finishes the connection after the handler gave up
    w.devices[device].ops.clear();
    w.establish_link(device);
    assert!(w.wait_until(1000, |w| !w.devices[device].linked), "late connection not hung up");
    assert_eq!(w.devices[device].ops, vec![Op::Disconnect]);
    w.assert_disconnected();
}

#[test]
fn service_discovery_failure_tears_down_link() {
    let mut w = World::new();
    let device = w.stress_device();
    let updates = w.connection_updates();
    w.devices[device].discover = OpBehaviour::Fail(FailKind::Runtime("gatt".into()));

    let (result, counter) = w.connect(device);
    assert!(matches!(result, Err(Error::Btleplug(_))), "{result:?}");
    w.settle();
    assert!(!w.devices[device].linked, "link left open after failed discovery");
    w.assert_disconnected();
    assert_eq!(w.counters[counter], 0, "callback of a failed connect ran");
    assert!(!w.drain(updates).contains(&true), "reported connected");

    w.devices[device].discover = OpBehaviour::Works;
    w.connect_ok(device);
}

#[test]
fn service_discovery_timeout_tears_down_link() {
    let mut w = World::new();
    let device = w.stress_device();
    w.devices[device].discover = OpBehaviour::Hang;

    let (result, _) = w.connect(device);
    assert!(matches!(result, Err(Error::Timeout(_))), "{result:?}");
    w.settle();
    assert!(!w.devices[device].linked, "link left open after discovery timeout");
    w.assert_disconnected();
}

#[test]
fn connect_to_second_device_disconnects_first() {
    let mut w = World::new();
    let first = w.stress_device();
    let second = w.add_device(OTHER_ADDR, "second", vec![(SERVICE, vec![(CHARAC, READ | WRITE)])]);
    let updates = w.connection_updates();

    let first_counter = w.connect_ok(first);
    assert_eq!(w.drain(updates), vec![true]);
    let second_counter = w.connect_ok(second);

    assert!(!w.devices[first].linked, "first device still connected");
    assert!(w.devices[second].linked);
    assert!(w.devices[first].ops.contains(&Op::Disconnect));
    assert_eq!(w.counters[first_counter], 1, "callback of the first device");
    assert_eq!(w.counters[second_counter], 0);
    assert_eq!(w.drain(updates), vec![false, true]);
    assert_eq!(w.connected_device().unwrap().address, w.address(second));
}

#[test]
fn connect_same_device_twice_is_a_noop() {
    let mut w = World::new();
    let device = w.stress_device();

    let first_counter = w.connect_ok(device);
    w.devices[device].ops.clear();
    let second_counter = w.connect_ok(device);

    assert!(!w.devices[device].ops.contains(&Op::Disconnect), "{:?}", w.devices[device].ops);
    assert_eq!(w.counters[first_counter], 0);
    assert_eq!(w.counters[second_counter], 0);
    assert!(w.devices[device].linked);
}

#[test]
fn connect_out_of_range_device() {
    let mut w = World::new();
    let device = w.stress_device();
    w.scan(ScanFilter::Unfiltered).unwrap();
    w.devices[device].in_range = false;

    let (result, counter) = w.connect(device);
    assert!(result.is_err());
    w.assert_disconnected();
    assert_eq!(w.counters[counter], 0);

    w.devices[device].in_range = true;
    w.connect_ok(device);
}

#[test]
fn discover_services_without_connection() {
    let mut w = World::new();
    let device = w.stress_device();
    w.scan(ScanFilter::Unfiltered).unwrap();

    let address = w.address(device);
    let services = w.discover_services(&address).unwrap();
    assert_eq!(services.len(), 2);
    let uuids: Vec<_> = services.iter().map(|s| s.uuid).collect();
    assert!(uuids.contains(&SERVICE) && uuids.contains(&SERVICE2));
    // it disconnects again afterwards
    assert!(w.wait_until(2000, |w| !w.devices[device].linked), "still connected after discovery");
    w.assert_disconnected();
}

#[test]
fn discover_services_while_connected_keeps_connection() {
    let mut w = World::new();
    let device = w.stress_device();
    w.connect_ok(device);

    let address = w.address(device);
    let services = w.discover_services(&address).unwrap();
    assert_eq!(services.len(), 2);
    w.settle();
    assert!(w.devices[device].linked);
    assert!(w.handler.is_connected());
}

#[test]
fn discover_services_of_unknown_devices_fails() {
    let mut w = World::new();
    let device = w.stress_device();
    let address = w.address(device);
    assert!(matches!(w.discover_services(&address), Err(Error::UnknownPeripheral(a)) if a == address));

    // a device that cannot be connected leaves the handler disconnected
    w.scan(ScanFilter::Unfiltered).unwrap();
    w.devices[device].connect = ConnectBehaviour::Fail(FailKind::NotConnected);
    assert!(matches!(w.discover_services(&address), Err(Error::Btleplug(_))));
    w.assert_disconnected();
    // so does one whose services cannot be discovered, once it is disconnected
    w.devices[device].connect = ConnectBehaviour::Works;
    w.devices[device].discover = OpBehaviour::Hang;
    assert!(matches!(w.discover_services(&address), Err(Error::Timeout(c)) if c == "discover services"));
}

#[test]
fn discover_services_of_a_second_device_keeps_the_first() {
    let mut w = World::new();
    let device = w.stress_device();
    let other = w.add_device(OTHER_ADDR, "other", vec![(SERVICE2, vec![(CHARAC, READ)])]);
    let counter = w.connect_ok(device);
    let address = w.address(other);

    let services = w.discover_services(&address).unwrap();
    assert_eq!(services.len(), 1);
    w.settle();
    assert!(!w.devices[other].linked, "the second device is still connected");
    assert!(w.devices[device].linked && w.handler.is_connected());
    assert_eq!(w.handler.connected_device().unwrap().id, w.id(device));
    assert_eq!(w.counters[counter], 0);

    // nor does it matter that the second device cannot be connected, or is of no use
    w.devices[other].connect = ConnectBehaviour::Fail(FailKind::NotConnected);
    assert!(matches!(w.discover_services(&address), Err(Error::Btleplug(_))));
    w.devices[other].connect = ConnectBehaviour::Hang;
    assert!(matches!(w.discover_services(&address), Err(Error::Timeout(c)) if c == "connect event"));
    w.devices[other].connect = ConnectBehaviour::Works;
    w.devices[other].discover = OpBehaviour::Hang;
    assert!(matches!(w.discover_services(&address), Err(Error::Timeout(c)) if c == "discover services"));
    w.settle();
    assert!(!w.devices[other].linked, "the link that is of no use is still up");
    assert!(w.handler.is_connected());
    assert_eq!(w.handler.connected_device().unwrap().id, w.id(device));
    assert_eq!(w.counters[counter], 0);

    // the callback is that of the first device
    w.drop_link(device);
    w.settle();
    w.assert_disconnected();
    assert_eq!(w.counters[counter], 1);
}

#[test]
fn the_first_device_can_go_while_a_second_one_is_looked_up() {
    let mut w = World::new();
    let device = w.stress_device();
    let other = w.add_device(OTHER_ADDR, "other", vec![(SERVICE2, vec![(CHARAC, READ)])]);
    let counter = w.connect_ok(device);
    let address = w.address(other);

    let (mut call, mut next) = w.handler.discover_services(&address);
    let result = loop {
        match next {
            Next::Done(result) => break result,
            Next::Ask(request) => {
                if let Request::ReadServices(_) = request {
                    // the first device goes while the second one is connected
                    assert!(w.devices[other].linked);
                    w.drop_link(device);
                    w.pump_events();
                    assert_eq!(w.counters[counter], 1);
                    assert!(!w.handler.is_connected());
                }
                let reply = w.perform(request);
                let mut out = vec![];
                next = call.step(&mut w.handler, reply, &mut out);
                w.apply(out);
            }
        }
    };
    assert_eq!(result.unwrap().len(), 1);
    w.settle();
    assert!(!w.devices[other].linked);
    w.assert_disconnected();
    assert_eq!(w.counters[counter], 1);
}

#[test]
fn a_link_that_ends_while_it_is_asked_about_is_no_connection() {
    let mut w = World::new();
    let device = w.stress_device();
    w.scan(ScanFilter::Unfiltered).unwrap();
    w.devices[device].linked = true;
    let address = w.address(device);
    let counter = w.counter();
    let mut out = vec![];
    let (mut call, mut next) =
        w.handler.connect(&address, OnDisconnectHandler::from_sync(counter), false, &mut out);
    w.apply(out);
    let mut asked = 0;
    let result = loop {
        match next {
            Next::Done(result) => break result,
            Next::Ask(request) => {
                let reply = w.perform(request);
                if let Request::IsConnected(_) = request {
                    asked += 1;
                    if asked == 1 {
                        // the answer is "connected", and the end of the link is reported first
                        assert!(matches!(reply, Reply::Flag(Ok(true))));
                        w.drop_link(device);
                        w.pump_events();
                    }
                }
                let mut out = vec![];
                next = call.step(&mut w.handler, reply, &mut out);
                w.apply(out);
                assert!(!w.handler.is_connected() || w.handler.connected_device().is_ok());
            }
        }
    };
    // the next attempt has connected it
    result.unwrap();
    assert_eq!(asked, 2);
    assert!(w.handler.is_connected() && w.devices[device].linked);
    assert_eq!(w.counters[counter], 0);
}

#[test]
fn write_and_read_errors_are_reported() {
    let mut w = World::new();
    let device = w.stress_device();
    w.connect_ok(device);

    w.devices[device].write = OpBehaviour::Fail(FailKind::NotConnected);
    assert!(matches!(
        w.send_data(CHARAC, None, &[1], WriteType::WithResponse),
        Err(Error::Btleplug(_))
    ));
    w.devices[device].write = OpBehaviour::Hang;
    assert!(matches!(
        w.send_data(CHARAC, None, &[1], WriteType::WithResponse),
        Err(Error::Timeout(_))
    ));
    w.devices[device].read = OpBehaviour::Hang;
    assert!(matches!(w.recv_data(CHARAC, None), Err(Error::Timeout(_))));
    // the connection itself is unaffected by failed operations
    assert!(w.handler.is_connected());
    w.devices[device].write = OpBehaviour::Works;
    w.send_data(CHARAC, None, &[1], WriteType::WithResponse).unwrap();
}

// disconnecting

#[test]
fn user_disconnect() {
    let mut w = World::new();
    let device = w.stress_device();
    let updates = w.connection_updates();
    let counter = w.connect_ok(device);
    w.drain(updates);

    w.disconnect().unwrap();
    assert!(!w.devices[device].linked);
    w.assert_disconnected();
    assert_eq!(w.counters[counter], 1);
    assert_eq!(w.drain(updates), vec![false]);

    // disconnecting again is an error, nothing else happens
    assert!(matches!(w.disconnect(), Err(Error::NoDeviceConnected)));
    assert_eq!(w.counters[counter], 1);

    w.connect_ok(device);
}

#[test]
fn link_drops_mid_session() {
    let mut w = World::new();
    let device = w.stress_device();
    let updates = w.connection_updates();
    let counter = w.connect_ok(device);
    w.drain(updates);

    assert!(w.drop_link(device));
    assert!(w.wait_until(1000, |w| !w.handler.is_connected()), "dropped link not noticed");
    w.settle();
    w.assert_disconnected();
    assert_eq!(w.counters[counter], 1, "callback count");
    assert_eq!(w.drain(updates), vec![false]);
    assert!(matches!(
        w.send_data(CHARAC, None, &[1], WriteType::WithResponse),
        Err(Error::NoDeviceConnected)
    ));

    let counter = w.connect_ok(device);
    assert_eq!(w.counters[counter], 0);
}

#[test]
fn disconnect_when_link_silently_gone() {
    let mut w = World::new();
    let device = w.stress_device();
    let counter = w.connect_ok(device);

    // the adapter lost the link but never said so
    assert!(w.drop_link_silently(device));
    w.settle();
    assert!(w.handler.is_connected(), "precondition: handler still believes it is connected");

    w.disconnect().unwrap();
    w.assert_disconnected();
    assert_eq!(w.counters[counter], 1);
    w.connect_ok(device);
}

#[test]
fn operation_on_silently_gone_link_fails_without_state_change() {
    let mut w = World::new();
    let device = w.stress_device();
    let counter = w.connect_ok(device);
    assert!(w.drop_link_silently(device));

    let result = w.send_data(CHARAC, None, &[1], WriteType::WithResponse);
    assert!(matches!(result, Err(Error::Btleplug(_))), "{result:?}");
    // nobody told the handler; it must still allow a clean disconnect
    w.disconnect().unwrap();
    w.assert_disconnected();
    assert_eq!(w.counters[counter], 1);
}

#[test]
fn disconnect_without_disconnect_event() {
    let mut w = World::new();
    let device = w.stress_device();
    let counter = w.connect_ok(device);
    w.devices[device].disconnect_emits_event = false;

    let start = w.now;
    w.disconnect().unwrap();
    assert!(w.now - start >= short_timeouts().disconnect, "did not wait for the event");
    assert!(!w.devices[device].linked);
    w.assert_disconnected();
    assert_eq!(w.counters[counter], 1);
}

#[test]
fn disconnect_call_fails() {
    let mut w = World::new();
    let device = w.stress_device();
    let counter = w.connect_ok(device);
    w.devices[device].disconnect = OpBehaviour::Fail(FailKind::Runtime("busy".into()));

    // the state is repaired after the time limit
    w.disconnect().unwrap();
    w.assert_disconnected();
    assert_eq!(w.counters[counter], 1);
}

#[test]
fn adapter_powered_off_while_connected() {
    let mut w = World::new();
    let device = w.stress_device();
    let updates = w.connection_updates();
    let counter = w.connect_ok(device);
    w.drain(updates);

    w.set_adapter_state(CentralState::PoweredOff);
    assert!(w.wait_until(1000, |w| !w.handler.is_connected()), "power off not noticed");
    w.settle();
    w.assert_disconnected();
    assert_eq!(w.counters[counter], 1);
    assert_eq!(w.drain(updates), vec![false]);
    assert_eq!(w.get_adapter_state(), AdapterState::Off);

    w.set_adapter_state(CentralState::PoweredOn);
    w.settle();
    assert_eq!(w.get_adapter_state(), AdapterState::On);
    assert_eq!(w.counters[counter], 1);
    w.connect_ok(device);
}

#[test]
fn foreign_disconnect_event_is_ignored() {
    let mut w = World::new();
    let device = w.stress_device();
    let other = w.other_device();
    let counter = w.connect_ok(device);

    w.emit(CentralEvent::DeviceDisconnected(w.id(other)));
    w.settle();
    assert!(w.handler.is_connected());
    assert!(w.devices[device].linked);
    assert_eq!(w.counters[counter], 0);
}

#[test]
fn spurious_connect_event_is_hung_up() {
    let mut w = World::new();
    let device = w.stress_device();
    let other = w.other_device();
    w.scan(ScanFilter::Unfiltered).unwrap();

    // a link nobody asked for
    w.establish_link(other);
    assert!(w.wait_until(1000, |w| !w.devices[other].linked), "unrequested link was not closed");
    assert_eq!(w.devices[other].ops, vec![Op::Disconnect]);
    w.assert_disconnected();

    // while connected to `device` a foreign connect event is hung up too
    let counter = w.connect_ok(device);
    w.devices[other].ops.clear();
    w.establish_link(other);
    assert!(w.wait_until(1000, |w| !w.devices[other].linked));
    assert!(w.handler.is_connected());
    assert!(w.devices[device].linked);
    assert_eq!(w.counters[counter], 0);
}

#[test]
fn duplicate_disconnect_events_run_callback_once() {
    let mut w = World::new();
    let device = w.stress_device();
    let counter = w.connect_ok(device);

    w.drop_link(device);
    w.emit(CentralEvent::DeviceDisconnected(w.id(device)));
    w.emit(CentralEvent::DeviceDisconnected(w.id(device)));
    w.settle();
    w.assert_disconnected();
    assert_eq!(w.counters[counter], 1);
}

#[test]
fn link_drops_right_after_connect() {
    let mut w = World::new();
    let device = w.stress_device();
    w.devices[device].connect = ConnectBehaviour::OkThenDrop(1);

    // The drop may hit before or after service discovery; either way the handler must end up
    // disconnected with the callback run at most once.
    let (result, counter) = w.connect(device);
    w.settle();
    assert!(w.wait_until(3000, |w| !w.handler.is_connected()), "{result:?}");
    w.settle();
    w.assert_disconnected();
    let callbacks = w.counters[counter];
    assert!(
        (result.is_ok() && callbacks == 1) || (result.is_err() && callbacks == 0),
        "connect result {result:?} but callback ran {callbacks} times"
    );

    w.devices[device].connect = ConnectBehaviour::Works;
    w.connect_ok(device);
}

#[test]
fn link_drops_during_service_discovery() {
    let mut w = World::new();
    let device = w.stress_device();
    w.devices[device].discover = OpBehaviour::Delay(500);
    w.devices[device].drop_after_connect = Some(100);

    let (result, counter) = w.connect(device);
    assert!(result.is_err(), "connect succeeded on a dropped link");
    w.settle();
    w.assert_disconnected();
    assert_eq!(w.counters[counter], 0, "callback of a failed connect ran");
}

/// The backend may still hand out services it has cached for a link that is gone.
#[test]
fn cached_services_of_a_lost_link_are_no_connection() {
    let mut w = World::new();
    let device = w.stress_device();
    w.scan(ScanFilter::Unfiltered).unwrap();
    let counter = w.counter();
    let address = w.address(device);

    let mut out = vec![];
    let (mut call, mut next) =
        w.handler.connect(&address, OnDisconnectHandler::from_async(counter), false, &mut out);
    w.apply(out);
    let result = loop {
        match next {
            Next::Done(result) => break result,
            Next::Ask(request) => {
                let reply = if let Request::DiscoverServices(..) = request {
                    w.drop_link(device);
                    w.pump_events();
                    Reply::Services(Timed::Done(w.devices[device].services()))
                } else {
                    w.perform(request)
                };
                let mut out = vec![];
                next = call.step(&mut w.handler, reply, &mut out);
                w.apply(out);
            }
        }
    };
    assert!(matches!(result, Err(Error::NoDeviceConnected)), "{result:?}");
    w.assert_disconnected();
    assert_eq!(w.counters[counter], 0);
}

// notifications

#[test]
fn notifications_are_delivered_in_order() {
    let mut w = World::new();
    let device = w.stress_device();
    w.connect_ok(device);
    let r = w.recorder();

    w.subscribe(CHARAC_NOTIFY, None, r).unwrap();
    assert!(w.devices[device].subscriptions.contains(&(SERVICE, CHARAC_NOTIFY)));

    for i in 0..100u32 {
        assert!(w.notify(device, SERVICE, CHARAC_NOTIFY, i.to_le_bytes().to_vec()));
    }
    assert!(w.wait_until(1000, |w| w.recorders[r].len() == 100), "{}", w.recorders[r].len());
    let expected: Vec<Vec<u8>> = (0..100u32).map(|i| i.to_le_bytes().to_vec()).collect();
    assert_eq!(w.recorders[r], expected);
}

#[test]
fn subscription_is_scoped_to_service() {
    let mut w = World::new();
    let device = w.stress_device();
    w.connect_ok(device);
    let r = w.recorder();

    // CHARAC exists in SERVICE and SERVICE2; subscribe to the SERVICE2 one
    w.subscribe(CHARAC, Some(SERVICE2), r).unwrap();
    assert_eq!(w.devices[device].subscriptions, [(SERVICE2, CHARAC)].into_iter().collect());

    // a notification of the same uuid in the other service is not delivered
    assert!(!w.notify(device, SERVICE, CHARAC, vec![1]));
    w.forward(device, SERVICE, CHARAC, vec![1]);
    assert!(w.notify(device, SERVICE2, CHARAC, vec![2]));
    w.settle();
    assert_eq!(w.recorders[r], vec![vec![2]]);
}

#[test]
fn unsubscribe_stops_delivery() {
    let mut w = World::new();
    let device = w.stress_device();
    w.connect_ok(device);
    let r = w.recorder();

    w.subscribe(CHARAC_NOTIFY, None, r).unwrap();
    w.notify(device, SERVICE, CHARAC_NOTIFY, vec![1]);
    w.settle();
    w.unsubscribe(CHARAC_NOTIFY).unwrap();
    assert!(w.devices[device].subscriptions.is_empty());
    assert!(!w.notify(device, SERVICE, CHARAC_NOTIFY, vec![2]));
    w.forward(device, SERVICE, CHARAC_NOTIFY, vec![2]);
    w.settle();
    assert_eq!(w.recorders[r], vec![vec![1]]);
    assert!(w.devices[device].ops.contains(&Op::Unsubscribe(CHARAC_NOTIFY)));
}

#[test]
fn unsubscribe_leaves_other_subscriptions() {
    let mut w = World::new();
    let device = w.stress_device();
    w.connect_ok(device);
    let (a, b, c) = (w.recorder(), w.recorder(), w.recorder());
    w.subscribe(CHARAC_NOTIFY, None, a).unwrap();
    w.subscribe(CHARAC, None, b).unwrap();
    w.subscribe(CHARAC_NOTIFY, Some(SERVICE), c).unwrap();
    assert_eq!(w.handler.listener_count(), 3);

    // a request that fails changes nothing
    w.devices[device].subscribe = OpBehaviour::Fail(FailKind::NotSupported);
    assert!(w.unsubscribe(CHARAC_NOTIFY).is_err());
    assert_eq!(w.handler.listener_count(), 3);

    w.devices[device].subscribe = OpBehaviour::Works;
    w.unsubscribe(CHARAC_NOTIFY).unwrap();
    assert_eq!(w.handler.listener_count(), 1);
    w.notify(device, SERVICE, CHARAC, vec![7]);
    w.forward(device, SERVICE, CHARAC_NOTIFY, vec![8]);
    assert_eq!(w.recorders[a].len() + w.recorders[c].len(), 0);
    assert_eq!(w.recorders[b], vec![vec![7]]);
    assert!(matches!(w.unsubscribe(CHARAC_MISSING), Err(Error::CharacNotAvailable(_))));
}

#[test]
fn subscribe_errors() {
    let mut w = World::new();
    let device = w.stress_device();
    let r = w.recorder();

    assert!(matches!(w.subscribe(CHARAC_NOTIFY, None, r), Err(Error::NoDeviceConnected)));
    w.connect_ok(device);
    assert!(matches!(w.subscribe(CHARAC_MISSING, None, r), Err(Error::CharacNotAvailable(_))));
    w.devices[device].subscribe = OpBehaviour::Fail(FailKind::NotSupported);
    assert!(matches!(w.subscribe(CHARAC_NOTIFY, None, r), Err(Error::Btleplug(_))));
    w.devices[device].subscribe = OpBehaviour::Hang;
    assert!(matches!(w.subscribe(CHARAC_NOTIFY, None, r), Err(Error::Timeout(_))));
    assert!(w.devices[device].subscriptions.is_empty());
    assert!(w.handler.is_connected());
}

#[test]
fn listeners_are_cleared_on_disconnect() {
    let mut w = World::new();
    let device = w.stress_device();
    w.connect_ok(device);
    let r = w.recorder();
    w.subscribe(CHARAC_NOTIFY, None, r).unwrap();

    w.drop_link(device);
    assert!(w.wait_until(1000, |w| !w.handler.is_connected()));
    w.settle();

    // reconnect and subscribe with a new callback: the old listener must not receive anything
    w.connect_ok(device);
    let dummy = w.recorder();
    w.subscribe(CHARAC_NOTIFY, None, dummy).unwrap();
    w.notify(device, SERVICE, CHARAC_NOTIFY, vec![9]);
    w.settle();
    assert!(w.recorders[r].is_empty(), "stale listener received data");
    assert_eq!(w.recorders[dummy], vec![vec![9]]);
}

#[test]
fn async_callback_and_burst() {
    let mut w = World::new();
    let device = w.stress_device();
    w.connect_ok(device);
    let r = w.recorder();
    let (call, request) =
        w.handler.subscribe(CHARAC_NOTIFY, None, SubscriptionHandler::from_async(r)).unwrap();
    assert!(matches!(request, GattRequest::Subscribe { timeout: 1000, .. }));
    w.devices[device].subscriptions.insert((SERVICE, CHARAC_NOTIFY));
    call.finish(&mut w.handler, Timed::Done(())).unwrap();

    for i in 0..1000u32 {
        w.notify(device, SERVICE, CHARAC_NOTIFY, i.to_le_bytes().to_vec());
    }
    assert!(w.wait_until(60_000, |w| w.recorders[r].len() == 1000), "{}", w.recorders[r].len());
    let first: Vec<u32> = w.recorders[r]
        .iter()
        .take(5)
        .map(|d| u32::from_le_bytes(d[..].try_into().unwrap()))
        .collect();
    assert_eq!(first, vec![0, 1, 2, 3, 4]);
    assert!(w.handler.is_connected());
}

#[test]
fn notification_after_drop_is_not_delivered() {
    let mut w = World::new();
    let device = w.stress_device();
    let counter = w.connect_ok(device);
    let r = w.recorder();
    w.subscribe(CHARAC_NOTIFY, None, r).unwrap();

    w.drop_link(device);
    assert!(!w.notify(device, SERVICE, CHARAC_NOTIFY, vec![1]));
    w.settle();
    assert!(w.recorders[r].is_empty());
    assert_eq!(w.counters[counter], 1);
}

// scanning

#[test]
fn scan_finds_devices_in_range() {
    let mut w = World::new();
    let device = w.stress_device();
    let other = w.other_device();

    let devices = w.scan(ScanFilter::Unfiltered).unwrap();
    let addresses: Vec<_> = devices.iter().map(|d| d.address.clone()).collect();
    assert_eq!(devices.len(), 2, "{addresses:?}");
    assert!(addresses.contains(&w.address(device)));
    assert!(addresses.contains(&w.address(other)));

    let stress = devices.iter().find(|d| d.address == w.address(device)).unwrap();
    assert_eq!(stress.name, "stress");
    assert_eq!(stress.services, vec![SERVICE, SERVICE2]);
    assert_eq!(
        stress.manufacturer_data.get(&MANUFACTURER_ID),
        Some(&MANUFACTURER_DATA.to_vec())
    );
    assert!(!stress.is_connected);
    assert!(!w.scanning, "scan was not stopped on the adapter");
}

#[test]
fn out_of_range_device_is_not_found() {
    let mut w = World::new();
    let device = w.stress_device();
    let other = w.other_device();
    w.devices[device].in_range = false;

    let devices = w.scan(ScanFilter::Unfiltered).unwrap();
    assert_eq!(devices.len(), 1);
    assert_eq!(devices[0].address, w.address(other));

    w.devices[device].in_range = true;
    let devices = w.scan(ScanFilter::Unfiltered).unwrap();
    assert_eq!(devices.len(), 2);
}

#[test]
fn scan_filters() {
    let mut w = World::new();
    let device = w.stress_device();
    w.other_device();
    let address = w.address(device);

    let filters = vec![
        ScanFilter::Service(SERVICE),
        ScanFilter::AnyService(vec![SERVICE2, CHARAC_MISSING]),
        ScanFilter::AllServices(vec![SERVICE, SERVICE2]),
        ScanFilter::ManufacturerData(MANUFACTURER_ID, MANUFACTURER_DATA.to_vec()),
        ScanFilter::ManufacturerDataMasked(
            MANUFACTURER_ID,
            vec![0x21, 0x00, 0x00, 0x00],
            vec![0xff, 0x00, 0x00, 0x00],
        ),
    ];
    for filter in filters {
        let devices = w.scan(filter).unwrap();
        assert_eq!(devices.len(), 1, "{devices:?}");
        assert_eq!(devices[0].address, address);
    }

    assert!(w.scan(ScanFilter::Service(CHARAC_MISSING)).unwrap().is_empty());
    assert!(w
        .scan(ScanFilter::ManufacturerData(MANUFACTURER_ID, vec![0x00, 0x00, 0x00, 0x00]))
        .unwrap()
        .is_empty());
    assert!(matches!(
        w.discover(
            Sink::Nobody,
            100,
            ScanFilter::ManufacturerDataMasked(MANUFACTURER_ID, vec![1], vec![1, 2]),
        ),
        Err(Error::InvalidFilterMask)
    ));
}

#[test]
fn scanning_state_is_reported() {
    let mut w = World::new();
    w.stress_device();
    let updates = w.scanning_updates();

    w.discover(Sink::Nobody, 400, ScanFilter::Unfiltered).unwrap();
    assert!(w.handler.is_scanning());
    assert!(w.scanning);
    assert_eq!(w.drain(updates), vec![true]);

    assert!(w.wait_until(5000, |w| !w.scanning));
    w.settle();
    assert!(!w.handler.is_scanning());
    assert_eq!(w.drain(updates), vec![false]);
}

#[test]
fn stop_scan_ends_scan_early() {
    let mut w = World::new();
    w.stress_device();
    let updates = w.scanning_updates();

    w.discover(Sink::Nobody, 60_000, ScanFilter::Unfiltered).unwrap();
    w.settle();
    assert!(w.scanning);
    w.stop_scan().unwrap();
    w.settle();
    assert!(!w.scanning);
    assert!(!w.handler.is_scanning());
    assert_eq!(w.drain(updates), vec![true, false]);
}

#[test]
fn second_scan_replaces_first() {
    let mut w = World::new();
    w.stress_device();

    w.discover(Sink::Nobody, 60_000, ScanFilter::Unfiltered).unwrap();
    w.settle();
    let devices = w.scan(ScanFilter::Unfiltered).unwrap();
    assert_eq!(devices.len(), 1);
    assert!(!w.scanning);
    assert!(!w.handler.is_scanning());
}

#[test]
fn scans_poll_at_least_once_and_forget_what_was_found() {
    let mut w = World::new();
    let device = w.stress_device();
    w.scan(ScanFilter::Unfiltered).unwrap();
    w.devices[device].in_range = false;

    // 100 ms is shorter than a poll, which is made all the same
    w.channels.push(vec![]);
    let channel = w.channels.len() - 1;
    let start = w.now;
    w.discover(Sink::Channel(channel as u64), 100, ScanFilter::Unfiltered).unwrap();
    assert!(w.wait_until(5000, |w| !w.handler.is_scanning()));
    assert_eq!(w.now - start, 200);
    // no device in range, so nothing is sent
    assert!(w.channels[channel].is_empty());
    let address = w.address(device);
    assert!(matches!(w.discover_services(&address), Err(Error::UnknownPeripheral(_))));

    // five polls in a second
    w.devices[device].in_range = true;
    w.discover(Sink::Channel(channel as u64), 1199, ScanFilter::Unfiltered).unwrap();
    assert!(w.wait_until(5000, |w| !w.handler.is_scanning()));
    assert_eq!(w.channels[channel].len(), 5);
}

#[test]
fn scans_need_an_adapter_that_is_on() {
    let mut w = World::new();
    w.set_adapter_state(CentralState::PoweredOff);
    assert!(matches!(
        w.discover(Sink::Nobody, 100, ScanFilter::Unfiltered),
        Err(Error::Btleplug(BackendError::NotConnected))
    ));
    assert!(!w.handler.is_scanning());
    let counter = w.counter();
    assert!(matches!(w.call_connect_to("11:22:33:44:55:66", counter), Err(Error::Btleplug(_))));

    // without any adapter nothing can be done at all
    let mut handler: Handler<usize, usize> = Handler::new(short_timeouts());
    let mut out = vec![];
    let (mut call, next) =
        handler.discover(Sink::Nobody, 100, ScanFilter::Unfiltered, true, &mut out);
    assert!(matches!(next, Next::Ask(Request::FindAdapters)));
    let next = call.step(&mut handler, Reply::Adapters(Ok(vec![])), &mut out);
    assert!(matches!(next, Next::Done(Err(Error::NoAdapters))));
    let (mut call, _) = handler.stop_scan(&mut out);
    let next =
        call.step(&mut handler, Reply::Adapters(Err(BackendError::PermissionDenied)), &mut out);
    assert!(matches!(next, Next::Done(Err(Error::Btleplug(BackendError::PermissionDenied)))));
    let (mut call, _) = handler.get_adapter_state(&mut out);
    let next = call.step(&mut handler, Reply::Adapters(Ok(vec![])), &mut out);
    assert!(matches!(next, Next::Done(Ok(AdapterState::Unknown))));
    assert!(out.is_empty());
}

#[test]
fn a_scan_breaks_off_when_devices_cannot_be_listed_or_sent() {
    let mut w = World::new();
    w.stress_device();
    w.discover(Sink::Channel(0), 1000, ScanFilter::Unfiltered).unwrap();
    let mut run = w.scan.take().unwrap();
    let mut out = vec![];
    let next = run.task.step(&mut w.handler, ScanReply::Plain(true), &mut out);
    assert!(matches!(next, ScanNext::Ask(ScanRequest::List)));
    let next = run.task.step(
        &mut w.handler,
        ScanReply::Listed(Err(BackendError::NoAdapterAvailable)),
        &mut out,
    );
    assert!(matches!(next, ScanNext::Failed));
    assert!(out.is_empty());
    assert!(!w.handler.is_scanning());

    w.discover(Sink::Channel(0), 1000, ScanFilter::Unfiltered).unwrap();
    let mut run = w.scan.take().unwrap();
    run.task.step(&mut w.handler, ScanReply::Plain(true), &mut out);
    let candidates = w.candidates();
    run.task.step(&mut w.handler, ScanReply::Listed(Ok(candidates)), &mut out);
    let found = Found { peripheral: peripheral(0, DEVICE_ADDR), device: Some(w.describe(0)) };
    let next = run.task.step(&mut w.handler, ScanReply::Described(vec![found]), &mut out);
    assert!(matches!(next, ScanNext::Ask(ScanRequest::Send(Sink::Channel(0), d)) if d.len() == 1));
    let next = run.task.step(&mut w.handler, ScanReply::Plain(false), &mut out);
    assert!(matches!(next, ScanNext::Failed));
    assert!(!w.handler.is_scanning());
}

// settings

#[test]
fn settings_are_kept() {
    let mut handler: Handler<usize, usize> = Handler::new(short_timeouts());
    assert_eq!(handler.timeouts().connect, 2000);
    handler.set_timeouts(Timeouts { connect: 5, ..short_timeouts() });
    assert_eq!(handler.timeouts().connect, 5);
    assert_eq!(handler.timeouts().read, 1000);
    assert_eq!(handler.get_write_behaviour(), (0, false));
    handler.set_write_behaviour(Some(70), true);
    assert_eq!(handler.get_write_behaviour(), (70, true));
    handler.set_write_behaviour(None, false);
    assert_eq!(handler.get_write_behaviour(), (0, false));
    assert!(!handler.allows_ibeacons());
}

#[test]
fn callbacks_are_taken_once() {
    let mut callback = OnDisconnectHandler::from_sync(7);
    assert!(matches!(callback.take(), OnDisconnectHandler::Sync(7)));
    assert!(matches!(callback, OnDisconnectHandler::Unset));
    assert!(matches!(callback.take(), OnDisconnectHandler::Unset));
    assert!(matches!(OnDisconnectHandler::from_async(8), OnDisconnectHandler::Async(8)));
    assert!(matches!(SubscriptionHandler::from_async(9), SubscriptionHandler::Async(9)));
}

#[test]
fn the_event_pump_is_started_again_after_it_ended() {
    let mut w = World::new();
    w.stress_device();
    w.scan(ScanFilter::Unfiltered).unwrap();
    assert!(w.pump);
    w.pump = false;
    w.handler.event_pump_ended();
    w.scan(ScanFilter::Unfiltered).unwrap();
    assert!(w.pump);
}

// a long session

#[derive(Debug, Clone, Copy)]
enum Step {
    Connect,
    Disconnect,
    DropLink,
    DropLinkSilently,
    Hide,
    Show,
    PowerOff,
    PowerOn,
    NotifyBurst,
    SpuriousConnect,
    SpuriousDisconnect,
    WriteRead,
    Subscribe,
    FlakyConnects,
    SlowDiscovery,
    HangingConnect,
}

const STEPS: &[Step] = &[
    Step::Connect,
    Step::Connect,
    Step::Connect,
    Step::Disconnect,
    Step::Disconnect,
    Step::DropLink,
    Step::DropLink,
    Step::DropLinkSilently,
    Step::Hide,
    Step::Show,
    Step::PowerOff,
    Step::PowerOn,
    Step::NotifyBurst,
    Step::SpuriousConnect,
    Step::SpuriousDisconnect,
    Step::WriteRead,
    Step::WriteRead,
    Step::Subscribe,
    Step::FlakyConnects,
    Step::SlowDiscovery,
    Step::HangingConnect,
];

/// A small generator of pseudo-random numbers.
struct Rng(u64);

impl Rng {
    fn below(&mut self, n: u64) -> u64 {
        self.0 = self.0.wrapping_mul(6364136223846793005).wrapping_add(1442695040888963407);
        (self.0 >> 33) % n
    }
}

struct Model {
    /// Connections the handler reported established
    established: usize,
    /// The callback that counts the connections that ended
    counter: usize,
    /// Whether the last established connection is still up in the handler's eyes
    handler_connected: bool,
}

fn connect_step(w: &mut World, device: Dev, model: &mut Model) -> Result<(), Error> {
    let address = w.address(device);
    let result = w.call_connect_to(&address, model.counter);
    if result.is_ok() {
        // connecting to the already connected device reuses the connection
        if !model.handler_connected {
            model.established += 1;
        }
        model.handler_connected = true;
    }
    result
}

/// What must hold whenever no operation is in flight.
fn check_invariants(w: &World, device: Dev, model: &mut Model, step: &str) {
    if w.handler.is_connected() {
        assert!(w.devices[device].linked, "[{step}] handler connected but device link is down");
        assert!(w.connected_device().is_ok(), "[{step}] connected but no device");
    } else {
        assert!(matches!(w.connected_device(), Err(Error::NoDeviceConnected)), "[{step}]");
        assert!(matches!(w.mtu(), Err(Error::NoDeviceConnected)), "[{step}]");
        model.handler_connected = false;
    }
    let callbacks = w.counters[model.counter];
    let ended = model.established - usize::from(model.handler_connected);
    assert_eq!(callbacks, ended, "[{step}] {callbacks} callbacks for {ended} ended connections");
}

fn quiesce(w: &mut World, device: Dev) {
    w.wait_until(3000, |w| w.handler.is_connected() == w.devices[device].linked);
    w.settle();
}

#[test]
fn randomized_connection_stress() {
    let mut rng = Rng(1);
    let mut w = World::new();
    let device = w.stress_device();
    let other = w.other_device();
    let counter = w.counter();
    let mut model = Model { established: 0, counter, handler_connected: false };
    let notified = w.recorder();
    w.scan(ScanFilter::Unfiltered).unwrap();

    for i in 0..3000 {
        let step = STEPS[rng.below(STEPS.len() as u64) as usize];
        let label = format!("#{i} {step:?}");
        match step {
            Step::Connect => {
                if w.adapter_state == CentralState::PoweredOff {
                    w.set_adapter_state(CentralState::PoweredOn);
                }
                let _ = connect_step(&mut w, device, &mut model);
            }
            Step::Disconnect => {
                let _ = w.disconnect();
            }
            Step::DropLink => {
                w.drop_link(device);
            }
            Step::DropLinkSilently => {
                w.drop_link_silently(device);
                // the handler can only find out through an operation
                let _ = w.recv_data(CHARAC, None);
                if w.handler.is_connected() && !w.devices[device].linked {
                    // the desync is repaired by a disconnect
                    let _ = w.disconnect();
                }
            }
            Step::Hide => w.devices[device].in_range = false,
            Step::Show => w.devices[device].in_range = true,
            Step::PowerOff => w.set_adapter_state(CentralState::PoweredOff),
            Step::PowerOn => w.set_adapter_state(CentralState::PoweredOn),
            Step::NotifyBurst => {
                for k in 0..rng.below(199) + 1 {
                    w.notify(device, SERVICE, CHARAC_NOTIFY, vec![k as u8]);
                }
            }
            Step::SpuriousConnect => w.establish_link(other),
            Step::SpuriousDisconnect => {
                w.emit(CentralEvent::DeviceDisconnected(w.id(other)));
                w.emit(CentralEvent::DeviceDisconnected(w.id(device)));
            }
            Step::WriteRead => {
                let data: Vec<u8> = (0..rng.below(49) + 1).map(|k| k as u8).collect();
                let write = w.send_data(CHARAC, Some(SERVICE), &data, WriteType::WithResponse);
                let read = w.recv_data(CHARAC, Some(SERVICE));
                if let (Ok(()), Ok(read)) = (write, read) {
                    assert_eq!(read, data, "[{label}] read back different data");
                }
            }
            Step::Subscribe => {
                let _ = w.subscribe(CHARAC_NOTIFY, None, notified);
            }
            Step::FlakyConnects => {
                for _ in 0..rng.below(3) + 1 {
                    w.devices[device]
                        .connect_queue
                        .push_back(ConnectBehaviour::Fail(FailKind::NotConnected));
                }
                let _ = connect_step(&mut w, device, &mut model);
                w.devices[device].connect_queue.clear();
            }
            Step::SlowDiscovery => {
                w.devices[device].discover = OpBehaviour::Delay(rng.below(1500));
                let _ = connect_step(&mut w, device, &mut model);
                w.devices[device].discover = OpBehaviour::Works;
            }
            Step::HangingConnect => {
                w.devices[device].connect = ConnectBehaviour::Hang;
                let _ = connect_step(&mut w, device, &mut model);
                w.devices[device].connect = ConnectBehaviour::Works;
                if rng.below(2) == 0 {
                    // the platform completes the connection late
                    w.establish_link(device);
                }
            }
        }
        quiesce(&mut w, device);
        assert!(
            w.wait_until(1000, |w| !w.devices[other].linked),
            "[{label}] unrequested link to the other device kept open"
        );
        check_invariants(&w, device, &mut model, &label);
    }

    // clean end: everything can still connect and disconnect
    w.devices[device].in_range = true;
    if w.adapter_state == CentralState::PoweredOff {
        w.set_adapter_state(CentralState::PoweredOn);
    }
    if w.handler.is_connected() {
        w.disconnect().unwrap();
    }
    w.scan(ScanFilter::Unfiltered).unwrap();
    connect_step(&mut w, device, &mut model).expect("final connect failed");
    w.disconnect().unwrap();
    quiesce(&mut w, device);
    check_invariants(&w, device, &mut model, "final");
    assert!(model.established > 100);
}
