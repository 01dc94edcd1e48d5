//! The android backend: what it remembers, and what it asks of the Kotlin side.

use crate::android::bridge::answer_error;
use crate::android::payload::deserialize_base64;
use crate::android::tree::{collect_services, services_of, views, ListedService};
use crate::error::{joined, BackendError, Error, ErrorView};
use crate::handler::CentralState;
use crate::index::lookup;
use crate::models::{
    addr_chars, Address, CharacId, Properties, Service, Timeouts, Uuid, WriteType,
};
use std::collections::{HashMap, HashSet};
use vstd::prelude::*;

pub mod bridge;
pub mod payload;
pub mod tree;

verus! {

/// The time limit of commands that only read what the Kotlin side already has, in
/// milliseconds.
pub const IPC_DEFAULT_TIMEOUT_MS: u64 = 5000;

/// The time limit of a permission request, which waits for the user, in milliseconds.
pub const PERMISSION_TIMEOUT_MS: u64 = 300_000;

/// The MTU that is requested unless the application asks for another one.
pub const DEFAULT_REQUESTED_MTU: u16 = 517;

/// The MTU of a link on which none was negotiated.
pub const DEFAULT_MTU: u16 = 23;

/// A command to the Kotlin side.
#[derive(Debug)]
pub enum Command {
    CheckPermissions { ask_if_denied: bool, allow_ibeacons: bool },
    ClearPeripherals,
    Events { channel: u64 },
    StartScan { services: Vec<Uuid>, allow_ibeacons: bool, on_device: u64 },
    StopScan,
    RetrievePeripheral { address: Address },
    AdapterState,
    IsBonded { address: Address },
    IsConnected { address: Address },
    Connect { address: Address },
    RequestMtu { address: Address, mtu: u16 },
    Disconnect { address: Address },
    DiscoverServices { address: Address },
    Services { address: Address },
    Write {
        address: Address,
        charac: CharacId,
        data: Vec<u8>,
        with_response: bool,
        timeout: u32,
        skip_waiting: bool,
    },
    Read { address: Address, charac: CharacId },
    Subscribe { address: Address, charac: CharacId },
    Unsubscribe { address: Address, charac: CharacId },
    Notifications { address: Address, channel: u64 },
}

impl Command {
    /// The name under which the Kotlin side knows the command.
    pub open spec fn spec_name(self) -> Seq<char> {
        match self {
            Command::CheckPermissions { .. } => "check_permissions"@,
            Command::ClearPeripherals => "clear_peripherals"@,
            Command::Events { .. } => "events"@,
            Command::StartScan { .. } => "start_scan"@,
            Command::StopScan => "stop_scan"@,
            Command::RetrievePeripheral { .. } => "retrieve_peripheral"@,
            Command::AdapterState => "adapter_state"@,
            Command::IsBonded { .. } => "is_bonded"@,
            Command::IsConnected { .. } => "is_connected"@,
            Command::Connect { .. } => "connect"@,
            Command::RequestMtu { .. } => "request_mtu"@,
            Command::Disconnect { .. } => "disconnect"@,
            Command::DiscoverServices { .. } => "discover_services"@,
            Command::Services { .. } => "services"@,
            Command::Write { .. } => "write"@,
            Command::Read { .. } => "read"@,
            Command::Subscribe { .. } => "subscribe"@,
            Command::Unsubscribe { .. } => "unsubscribe"@,
            Command::Notifications { .. } => "notifications"@,
        }
    }

    /// The name under which the Kotlin side knows the command.
    pub fn name(&self) -> (name: &'static str)
        ensures
            name@ == self.spec_name(),
    {
        match self {
            Command::CheckPermissions { .. } => "check_permissions",
            Command::ClearPeripherals => "clear_peripherals",
            Command::Events { .. } => "events",
            Command::StartScan { .. } => "start_scan",
            Command::StopScan => "stop_scan",
            Command::RetrievePeripheral { .. } => "retrieve_peripheral",
            Command::AdapterState => "adapter_state",
            Command::IsBonded { .. } => "is_bonded",
            Command::IsConnected { .. } => "is_connected",
            Command::Connect { .. } => "connect",
            Command::RequestMtu { .. } => "request_mtu",
            Command::Disconnect { .. } => "disconnect",
            Command::DiscoverServices { .. } => "discover_services",
            Command::Services { .. } => "services",
            Command::Write { .. } => "write",
            Command::Read { .. } => "read",
            Command::Subscribe { .. } => "subscribe",
            Command::Unsubscribe { .. } => "unsubscribe",
            Command::Notifications { .. } => "notifications",
        }
    }
}

/// A command and the time limit of the operation it carries out, in milliseconds.
#[derive(Debug)]
pub struct Invoke {
    pub command: Command,
    pub timeout: u64,
}

/// How a failed call is reported to the handler.
pub fn ble_err(e: Error) -> (backend: BackendError)
    ensures
        backend matches BackendError::RuntimeError(text) && text@ == e@.text(),
{
    BackendError::RuntimeError(e.message())
}

/// Asks whether the application may use Bluetooth. With `ask_if_denied` a user who denied
/// that before is asked again.
pub fn check_permissions(ask_if_denied: bool, allow_ibeacons: bool) -> (invoke: Invoke)
    ensures
        invoke == (Invoke {
            command: Command::CheckPermissions { ask_if_denied, allow_ibeacons },
            timeout: PERMISSION_TIMEOUT_MS,
        }),
{
    Invoke {
        command: Command::CheckPermissions { ask_if_denied, allow_ibeacons },
        timeout: PERMISSION_TIMEOUT_MS,
    }
}

/// A device as the Kotlin side describes it.
#[derive(Clone, Debug)]
pub struct Peripheral {
    pub id: u64,
    pub address: Address,
    pub name: String,
    pub rssi: i16,
    pub manufacturer_data: HashMap<u16, Vec<u8>>,
    pub service_data: HashMap<Uuid, Vec<u8>>,
    pub services: Vec<Uuid>,
    pub tx_power_level: Option<i16>,
}

impl Peripheral {
    /// What the device advertises.
    pub fn properties(&self) -> (properties: Properties)
        ensures
            properties.rssi == Some(self.rssi),
            properties.services@ == self.services@,
            properties.manufacturer_data@ == self.manufacturer_data@,
    {
        let services = self.services.clone();
        proof {
            assert(services@ =~= self.services@);
        }
        Properties {
            rssi: Some(self.rssi),
            services,
            manufacturer_data: self.manufacturer_data.clone(),
        }
    }
}

/// The backend itself; there is one adapter.
pub struct Manager;

impl Manager {
    /// Opens the backend.
    pub fn new() -> (manager: Self)
        ensures
            manager == Manager,
    {
        Manager
    }

    /// The numbers of the adapters: the phone has one.
    pub fn adapters(&self) -> (adapters: Vec<u64>)
        ensures
            adapters@ == seq![0u64],
    {
        let mut adapters: Vec<u64> = Vec::new();
        adapters.push(0);
        proof {
            assert(adapters@ =~= seq![0u64]);
        }
        adapters
    }
}

/// What the backend remembers.
pub struct Adapter {
    devices: HashMap<u64, Peripheral>,
    services: HashMap<u64, Vec<Service>>,
    mtus: HashMap<u64, u16>,
    linked: HashSet<u64>,
    scan_task: Option<u64>,
    requested_mtu: u16,
}

/// The state of an [`Adapter`].
#[verifier::ext_equal]
pub ghost struct AdapterView {
    /// The devices of the last scan, and those that were looked up since.
    pub devices: Map<u64, Peripheral>,
    /// The services that were discovered on the links that are up.
    pub services: Map<u64, Vec<Service>>,
    /// The MTUs that were negotiated, by device.
    pub mtus: Map<u64, u16>,
    /// The devices whose links have come up and are not known to have ended.
    pub linked: Set<u64>,
    /// The task that takes in what a scan finds.
    pub scan_task: Option<u64>,
    /// The MTU to request; zero for none.
    pub requested_mtu: u16,
}

impl View for Adapter {
    type V = AdapterView;

    closed spec fn view(&self) -> AdapterView {
        AdapterView {
            devices: self.devices@,
            services: self.services@,
            mtus: self.mtus@,
            linked: self.linked@,
            scan_task: self.scan_task,
            requested_mtu: self.requested_mtu,
        }
    }
}

impl AdapterView {
    /// After the services of a device were forgotten: they belong to a link that is going.
    pub open spec fn forgetting(self, id: u64) -> Self {
        AdapterView { services: self.services.remove(id), ..self }
    }

    /// After all devices were forgotten. A device that is found anew starts without an MTU, but
    /// a link that is up keeps its own.
    pub open spec fn without_devices(self) -> Self {
        AdapterView { devices: Map::empty(), mtus: self.mtus.restrict(self.linked), ..self }
    }

    /// After a scan has found a device. It starts without an MTU, unless its link is up.
    pub open spec fn with_device(self, device: Peripheral) -> Self {
        AdapterView {
            devices: self.devices.insert(device.id, device),
            mtus: if self.linked.contains(device.id) {
                self.mtus
            } else {
                self.mtus.remove(device.id)
            },
            ..self
        }
    }

    /// While a link to a device is to come up, of which nothing is known yet.
    pub open spec fn connecting(self, id: u64) -> Self {
        AdapterView { mtus: self.mtus.remove(id), ..self.forgetting(id).unlinked(id) }
    }

    /// After the link to a device has ended, or is about to.
    pub open spec fn unlinked(self, id: u64) -> Self {
        AdapterView { linked: self.linked.remove(id), ..self }
    }
}

/// A command about one device, with a time limit.
pub open spec fn invoke(command: Command, timeout: u64) -> Invoke {
    Invoke { command, timeout }
}

/// How the failure of a call shows in a result.
pub open spec fn failed<T>(result: Result<T, BackendError>, e: Error) -> bool {
    result matches Err(BackendError::RuntimeError(text)) && text@ == e@.text()
}

/// The keys of a map, each once, in no particular order.
fn map_keys<V>(map: &HashMap<u64, V>) -> (ids: Vec<u64>)
    ensures
        ids@.no_duplicates(),
        forall|id: u64| ids@.contains(id) <==> #[trigger] map@.dom().contains(id),
{
    broadcast use vstd::std_specs::hash::group_hash_axioms;

    let ghost keys = vstd::std_specs::iter::IteratorSpec::remaining(
        &vstd::std_specs::hash::spec_keys_iter(map),
    ).unref();
    let mut ids: Vec<u64> = Vec::new();
    for id in it: map.keys()
        invariant
            it.seq().unref() == keys,
            ids@ == keys.take(it.index() as int),
    {
        ids.push(*id);
    }
    proof {
        assert(ids@ =~= keys);
        assert forall|id: u64| ids@.contains(id) <==> #[trigger] map@.dom().contains(id) by {
            assert(keys.to_set().contains(id) <==> keys.contains(id));
        }
    }
    ids
}

impl Adapter {
    /// A backend that knows no devices.
    pub fn new() -> (adapter: Self)
        ensures
            adapter@ == (AdapterView {
                devices: Map::empty(),
                services: Map::empty(),
                mtus: Map::empty(),
                linked: Set::empty(),
                scan_task: None,
                requested_mtu: DEFAULT_REQUESTED_MTU,
            }),
    {
        Adapter {
            devices: HashMap::new(),
            services: HashMap::new(),
            mtus: HashMap::new(),
            linked: HashSet::new(),
            scan_task: None,
            requested_mtu: DEFAULT_REQUESTED_MTU,
        }
    }

    /// Sets the MTU that is requested when a device is connected; zero for none.
    pub fn set_android_mtu_request(&mut self, mtu: u16)
        ensures
            final(self)@ == (AdapterView { requested_mtu: mtu, ..old(self)@ }),
    {
        self.requested_mtu = mtu;
    }

    fn forget_devices(&mut self)
        ensures
            final(self)@ == old(self)@.without_devices(),
    {
        broadcast use vstd::std_specs::hash::group_hash_axioms;

        let ghost before = self.mtus@;
        let ghost linked = self.linked@;
        self.devices.clear();
        let mut kept: HashMap<u64, u16> = HashMap::new();
        let ids = map_keys(&self.mtus);
        let mut i: usize = 0;
        while i < ids.len()
            invariant
                i <= ids@.len(),
                before == self.mtus@,
                linked == self.linked@,
                forall|id: u64| ids@.contains(id) <==> #[trigger] before.dom().contains(id),
                forall|id: u64| #[trigger]
                    kept@.dom().contains(id) <==> linked.contains(id) && ids@.take(
                        i as int,
                    ).contains(id),
                forall|id: u64| #[trigger] kept@.dom().contains(id) ==> kept@[id] == before[id],
            decreases ids.len() - i,
        {
            let id: u64 = ids[i];
            proof {
                assert(ids@.contains(id));
                assert(before.dom().contains(id));
                assert(ids@.take(i + 1) =~= ids@.take(i as int).push(id));
                assert forall|other: u64| ids@.take(i + 1).contains(other) <==> (other == id
                    || ids@.take(i as int).contains(other)) by {
                    let taken = ids@.take(i as int);
                    if taken.contains(other) {
                        let k = choose|k: int| 0 <= k < taken.len() && taken[k] == other;
                        assert(taken.push(id)[k] == other);
                    }
                    assert(taken.push(id)[taken.len() as int] == id);
                }
            }
            if self.linked.contains(&id) {
                match self.mtus.get(&id) {
                    Some(mtu) => {
                        let _ = kept.insert(id, *mtu);
                    },
                    None => {},
                }
            }
            i = i + 1;
        }
        proof {
            assert(ids@.take(i as int) =~= ids@);
            assert(kept@ =~= before.restrict(linked));
        }
        self.mtus = kept;
    }

    /// Forgets all devices, here and on the Kotlin side.
    pub fn clear_peripherals(&mut self) -> (invoke: Invoke)
        ensures
            final(self)@ == old(self)@.without_devices(),
            invoke == self::invoke(Command::ClearPeripherals, IPC_DEFAULT_TIMEOUT_MS),
    {
        self.forget_devices();
        Invoke { command: Command::ClearPeripherals, timeout: IPC_DEFAULT_TIMEOUT_MS }
    }

    /// Asks for the events of the adapter to be sent to a channel.
    pub fn events(&self, channel: u64) -> (invoke: Invoke)
        ensures
            invoke == self::invoke(Command::Events { channel }, IPC_DEFAULT_TIMEOUT_MS),
    {
        Invoke { command: Command::Events { channel }, timeout: IPC_DEFAULT_TIMEOUT_MS }
    }

    /// Starts a scan whose results arrive on the channel `on_device`, where a task that goes by
    /// the number of the channel takes them in. Returns the task of the scan before, which has
    /// to be stopped, so that only the new scan's results are taken in. What was found before
    /// is forgotten even if the channel could not be opened.
    pub fn start_scan(
        &mut self,
        services: Vec<Uuid>,
        allow_ibeacons: bool,
        on_device: Result<u64, Error>,
    ) -> (started: Result<(Invoke, Option<u64>), BackendError>)
        ensures
            match on_device {
                Err(e) => failed(started, e) && final(self)@ == old(self)@.without_devices(),
                Ok(channel) => {
                    &&& final(self)@ == (AdapterView {
                        scan_task: Some(channel),
                        ..old(self)@.without_devices()
                    })
                    &&& started == Ok::<(Invoke, Option<u64>), BackendError>(
                        (
                            invoke(
                                Command::StartScan { services, allow_ibeacons, on_device: channel },
                                IPC_DEFAULT_TIMEOUT_MS,
                            ),
                            old(self)@.scan_task,
                        ),
                    )
                },
            },
    {
        self.forget_devices();
        match on_device {
            Err(e) => Err(ble_err(e)),
            Ok(channel) => {
                let previous = self.scan_task;
                self.scan_task = Some(channel);
                Ok(
                    (
                        Invoke {
                            command: Command::StartScan {
                                services,
                                allow_ibeacons,
                                on_device: channel,
                            },
                            timeout: IPC_DEFAULT_TIMEOUT_MS,
                        },
                        previous,
                    ),
                )
            },
        }
    }

    /// Takes in a device that a scan has found, in place of what was known of it.
    pub fn device_found(&mut self, device: Peripheral)
        ensures
            final(self)@ == old(self)@.with_device(device),
    {
        broadcast use vstd::std_specs::hash::group_hash_axioms;

        if !self.linked.contains(&device.id) {
            let _ = self.mtus.remove(&device.id);
        }
        let _ = self.devices.insert(device.id, device);
    }

    /// Stops the scan. [`Self::scan_stopped`] takes the answer.
    pub fn stop_scan(&self) -> (invoke: Invoke)
        ensures
            invoke == self::invoke(Command::StopScan, IPC_DEFAULT_TIMEOUT_MS),
    {
        Invoke { command: Command::StopScan, timeout: IPC_DEFAULT_TIMEOUT_MS }
    }

    /// Takes the answer to a request to stop the scan. Returns the task that has to be
    /// stopped; if the request failed, the task goes on.
    pub fn scan_stopped(&mut self, answer: Result<(), Error>) -> (task: Result<
        Option<u64>,
        BackendError,
    >)
        ensures
            match answer {
                Ok(_) => {
                    &&& final(self)@ == (AdapterView { scan_task: None, ..old(self)@ })
                    &&& task == Ok::<Option<u64>, BackendError>(old(self)@.scan_task)
                },
                Err(e) => final(self)@ == old(self)@ && failed(task, e),
            },
    {
        match answer {
            Ok(_) => Ok(self.scan_task.take()),
            Err(e) => Err(ble_err(e)),
        }
    }

    /// The device with this id.
    pub fn peripheral(&self, id: u64) -> (device: Result<&Peripheral, BackendError>)
        ensures
            device is Ok <==> self@.devices.dom().contains(id),
            device matches Ok(device) ==> *device == self@.devices[id],
            device matches Err(e) ==> e == BackendError::DeviceNotFound,
    {
        broadcast use vstd::std_specs::hash::group_hash_axioms;

        match self.devices.get(&id) {
            Some(device) => Ok(device),
            None => Err(BackendError::DeviceNotFound),
        }
    }

    /// The devices that are known, by their ids, each once. They come in no particular order.
    pub fn peripherals(&self) -> (ids: Vec<u64>)
        ensures
            ids@.no_duplicates(),
            forall|id: u64| ids@.contains(id) <==> #[trigger] self@.devices.dom().contains(id),
    {
        map_keys(&self.devices)
    }

    /// A device cannot be added by hand.
    pub fn add_peripheral(&self) -> (result: Result<(), BackendError>)
        ensures
            result matches Err(BackendError::NotSupported(what)) && what@ == "add_peripheral"@,
    {
        Err(BackendError::NotSupported("add_peripheral".to_owned()))
    }

    /// What the adapter is called.
    pub fn adapter_info(&self) -> (info: String)
        ensures
            info@ == "android"@,
    {
        "android".to_owned()
    }

    /// Asks for the state of the adapter. [`adapter_state`] reads the answer.
    pub fn adapter_state(&self) -> (invoke: Invoke)
        ensures
            invoke == self::invoke(Command::AdapterState, IPC_DEFAULT_TIMEOUT_MS),
    {
        Invoke { command: Command::AdapterState, timeout: IPC_DEFAULT_TIMEOUT_MS }
    }

    /// Asks whether the phone is bonded with a device.
    pub fn is_bonded(&self, address: Address) -> (invoke: Invoke)
        ensures
            invoke == self::invoke(Command::IsBonded { address }, IPC_DEFAULT_TIMEOUT_MS),
    {
        Invoke { command: Command::IsBonded { address }, timeout: IPC_DEFAULT_TIMEOUT_MS }
    }

    /// Asks whether a device is connected.
    pub fn is_connected(&self, address: Address) -> (invoke: Invoke)
        ensures
            invoke == self::invoke(Command::IsConnected { address }, IPC_DEFAULT_TIMEOUT_MS),
    {
        Invoke { command: Command::IsConnected { address }, timeout: IPC_DEFAULT_TIMEOUT_MS }
    }

    /// The MTU of the link to a device: the one that was negotiated, or the default.
    pub fn mtu(&self, id: u64) -> (mtu: u16)
        ensures
            mtu == match lookup(self@.mtus, id) {
                Some(mtu) => mtu,
                None => DEFAULT_MTU,
            },
    {
        broadcast use vstd::std_specs::hash::group_hash_axioms;

        match self.mtus.get(&id) {
            Some(mtu) => *mtu,
            None => DEFAULT_MTU,
        }
    }

    fn forget_services(&mut self, id: u64)
        ensures
            final(self)@ == old(self)@.forgetting(id),
    {
        broadcast use vstd::std_specs::hash::group_hash_axioms;

        let _ = self.services.remove(&id);
    }

    /// Connects a device. [`Self::connected`] takes the answer. Nothing is known of the link
    /// that is to come up: neither its services nor its MTU.
    pub fn connect(&mut self, id: u64, address: Address, timeouts: &Timeouts) -> (invoke: Invoke)
        ensures
            final(self)@ == old(self)@.connecting(id),
            invoke == self::invoke(Command::Connect { address }, timeouts.connect),
    {
        broadcast use vstd::std_specs::hash::group_hash_axioms;

        self.forget_services(id);
        let _ = self.mtus.remove(&id);
        let _ = self.linked.remove(&id);
        Invoke { command: Command::Connect { address }, timeout: timeouts.connect }
    }

    /// Takes the answer to a request to connect. Returns a request for an MTU, if one is
    /// wanted; [`Self::mtu_granted`] takes its answer.
    pub fn connected(
        &mut self,
        id: u64,
        address: Address,
        timeouts: &Timeouts,
        answer: Result<(), Error>,
    ) -> (request: Result<Option<Invoke>, BackendError>)
        ensures
            match answer {
                Err(e) => failed(request, e) && final(self)@ == old(self)@,
                Ok(_) => {
                    &&& final(self)@ == (AdapterView {
                        linked: old(self)@.linked.insert(id),
                        ..old(self)@
                    })
                    &&& request == Ok::<Option<Invoke>, BackendError>(
                        if old(self)@.requested_mtu > 0 {
                            Some(
                                invoke(
                                    Command::RequestMtu { address, mtu: old(self)@.requested_mtu },
                                    timeouts.connect,
                                ),
                            )
                        } else {
                            None
                        },
                    )
                },
            },
    {
        broadcast use vstd::std_specs::hash::group_hash_axioms;

        match answer {
            Err(e) => Err(ble_err(e)),
            Ok(_) => {
                let _ = self.linked.insert(id);
                if self.requested_mtu > 0 {
                    Ok(
                        Some(
                            Invoke {
                                command: Command::RequestMtu { address, mtu: self.requested_mtu },
                                timeout: timeouts.connect,
                            },
                        ),
                    )
                } else {
                    Ok(None)
                }
            },
        }
    }

    /// Takes the answer to a request for an MTU.
    pub fn mtu_granted(&mut self, id: u64, answer: Result<u16, Error>) -> (result: Result<
        (),
        BackendError,
    >)
        ensures
            match answer {
                Ok(mtu) => {
                    &&& result is Ok
                    &&& final(self)@ == (AdapterView {
                        mtus: old(self)@.mtus.insert(id, mtu),
                        ..old(self)@
                    })
                },
                Err(e) => failed(result, e) && final(self)@ == old(self)@,
            },
    {
        broadcast use vstd::std_specs::hash::group_hash_axioms;

        match answer {
            Ok(mtu) => {
                let _ = self.mtus.insert(id, mtu);
                Ok(())
            },
            Err(e) => Err(ble_err(e)),
        }
    }

    /// Disconnects a device.
    pub fn disconnect(&mut self, id: u64, address: Address, timeouts: &Timeouts) -> (invoke: Invoke)
        ensures
            final(self)@ == old(self)@.forgetting(id).unlinked(id),
            invoke == self::invoke(Command::Disconnect { address }, timeouts.disconnect),
    {
        self.forget_services(id);
        self.link_ended(id);
        Invoke { command: Command::Disconnect { address }, timeout: timeouts.disconnect }
    }

    /// Takes note that the link to a device has ended.
    pub fn link_ended(&mut self, id: u64)
        ensures
            final(self)@ == old(self)@.unlinked(id),
    {
        broadcast use vstd::std_specs::hash::group_hash_axioms;

        let _ = self.linked.remove(&id);
    }

    /// Discovers the services of a device. [`Self::services_discovered`] takes the answer.
    pub fn discover_services(&self, address: Address, timeouts: &Timeouts) -> (invoke: Invoke)
        ensures
            invoke == self::invoke(
                Command::DiscoverServices { address },
                timeouts.discover_services,
            ),
    {
        Invoke {
            command: Command::DiscoverServices { address },
            timeout: timeouts.discover_services,
        }
    }

    /// Takes the answer to a request to discover services. Returns a request to list them;
    /// [`Self::fetch_services`] takes its answer.
    pub fn services_discovered(&self, address: Address, answer: Result<(), Error>) -> (request:
        Result<Invoke, BackendError>)
        ensures
            match answer {
                Err(e) => failed(request, e),
                Ok(_) => request == Ok::<Invoke, BackendError>(
                    invoke(Command::Services { address }, IPC_DEFAULT_TIMEOUT_MS),
                ),
            },
    {
        match answer {
            Err(e) => Err(ble_err(e)),
            Ok(_) => Ok(
                Invoke { command: Command::Services { address }, timeout: IPC_DEFAULT_TIMEOUT_MS },
            ),
        }
    }

    /// Takes in the services that the Kotlin side lists for a device.
    pub fn fetch_services(
        &mut self,
        id: u64,
        answer: Result<Vec<ListedService>, Error>,
    ) -> (result: Result<(), BackendError>)
        ensures
            match answer {
                Err(e) => failed(result, e) && final(self)@ == old(self)@,
                Ok(listed) => {
                    &&& result is Ok
                    &&& final(self)@.services.dom().contains(id)
                    &&& views(final(self)@.services[id]@) == services_of(listed@)
                    &&& final(self)@ == (AdapterView {
                        services: old(self)@.services.insert(id, final(self)@.services[id]),
                        ..old(self)@
                    })
                },
            },
    {
        broadcast use vstd::std_specs::hash::group_hash_axioms;

        match answer {
            Err(e) => Err(ble_err(e)),
            Ok(listed) => {
                let services = collect_services(&listed);
                let _ = self.services.insert(id, services);
                Ok(())
            },
        }
    }

    /// The services that were discovered on the link to a device; `None` before that.
    pub fn services(&self, id: u64) -> (services: Option<&Vec<Service>>)
        ensures
            services is Some <==> self@.services.dom().contains(id),
            services matches Some(services) ==> *services == self@.services[id],
    {
        broadcast use vstd::std_specs::hash::group_hash_axioms;

        self.services.get(&id)
    }

    /// Writes to a characteristic. Zero as `write_timeout` stands for the time limit of the
    /// handler, so that a write does not wait forever on the Kotlin side.
    pub fn write(
        &self,
        address: Address,
        charac: CharacId,
        data: Vec<u8>,
        write_type: WriteType,
        write_timeout: u32,
        skip_waiting: bool,
        timeouts: &Timeouts,
    ) -> (invoke: Invoke)
        ensures
            invoke == self::invoke(
                Command::Write {
                    address,
                    charac,
                    data,
                    with_response: write_type == WriteType::WithResponse,
                    timeout: queue_limit(write_timeout, timeouts.write),
                    skip_waiting,
                },
                timeouts.write,
            ),
    {
        let timeout: u32 = if write_timeout != 0 {
            write_timeout
        } else if timeouts.write > u32::MAX as u64 {
            u32::MAX
        } else {
            timeouts.write as u32
        };
        Invoke {
            command: Command::Write {
                address,
                charac,
                data,
                with_response: write_type == WriteType::WithResponse,
                timeout,
                skip_waiting,
            },
            timeout: timeouts.write,
        }
    }

    /// Reads a characteristic. [`value_read`] takes the answer.
    pub fn read(&self, address: Address, charac: CharacId, timeouts: &Timeouts) -> (invoke: Invoke)
        ensures
            invoke == self::invoke(Command::Read { address, charac }, timeouts.read),
    {
        Invoke { command: Command::Read { address, charac }, timeout: timeouts.read }
    }

    /// Subscribes to a characteristic.
    pub fn subscribe(&self, address: Address, charac: CharacId, timeouts: &Timeouts) -> (invoke:
        Invoke)
        ensures
            invoke == self::invoke(Command::Subscribe { address, charac }, timeouts.subscribe),
    {
        Invoke { command: Command::Subscribe { address, charac }, timeout: timeouts.subscribe }
    }

    /// Ends the subscription to a characteristic.
    pub fn unsubscribe(&self, address: Address, charac: CharacId, timeouts: &Timeouts) -> (invoke:
        Invoke)
        ensures
            invoke == self::invoke(Command::Unsubscribe { address, charac }, timeouts.subscribe),
    {
        Invoke { command: Command::Unsubscribe { address, charac }, timeout: timeouts.subscribe }
    }

    /// Asks for the notifications of a device to be sent to a channel.
    pub fn notifications(&self, address: Address, channel: u64) -> (invoke: Invoke)
        ensures
            invoke == self::invoke(
                Command::Notifications { address, channel },
                IPC_DEFAULT_TIMEOUT_MS,
            ),
    {
        Invoke {
            command: Command::Notifications { address, channel },
            timeout: IPC_DEFAULT_TIMEOUT_MS,
        }
    }

    /// Descriptors cannot be written.
    pub fn write_descriptor(&self) -> (result: Result<(), BackendError>)
        ensures
            result matches Err(BackendError::NotSupported(what)) && what@ == "write_descriptor"@,
    {
        Err(BackendError::NotSupported("write_descriptor".to_owned()))
    }

    /// Descriptors cannot be read.
    pub fn read_descriptor(&self) -> (result: Result<Vec<u8>, BackendError>)
        ensures
            result matches Err(BackendError::NotSupported(what)) && what@ == "read_descriptor"@,
    {
        Err(BackendError::NotSupported("read_descriptor".to_owned()))
    }
}

/// How long a write may wait on the Kotlin side, in milliseconds: what was set, or else the
/// time limit of the handler as far as it can be expressed.
pub open spec fn queue_limit(write_timeout: u32, limit: u64) -> u32 {
    if write_timeout != 0 {
        write_timeout
    } else if limit > u32::MAX {
        u32::MAX
    } else {
        limit as u32
    }
}

/// The state that the name of an adapter state stands for.
pub open spec fn named_state(name: Seq<char>) -> Option<CentralState> {
    if name == "unknown"@ {
        Some(CentralState::Unknown)
    } else if name == "off"@ {
        Some(CentralState::PoweredOff)
    } else if name == "on"@ {
        Some(CentralState::PoweredOn)
    } else {
        None
    }
}

/// Reads the answer to a request for the state of the adapter.
pub fn adapter_state(answer: Result<String, Error>) -> (state: Result<CentralState, BackendError>)
    ensures
        match answer {
            Err(e) => failed(state, e),
            Ok(name) => match named_state(name@) {
                Some(s) => state == Ok::<CentralState, BackendError>(s),
                None => state matches Err(BackendError::RuntimeError(text)) && text@
                    == "unknown adapter state: "@ + name@,
            },
        },
{
    match answer {
        Err(e) => Err(ble_err(e)),
        Ok(name) => {
            if name == "unknown".to_owned() {
                Ok(CentralState::Unknown)
            } else if name == "off".to_owned() {
                Ok(CentralState::PoweredOff)
            } else if name == "on".to_owned() {
                Ok(CentralState::PoweredOn)
            } else {
                Err(
                    BackendError::RuntimeError(joined("unknown adapter state: ", name.as_str())),
                )
            }
        },
    }
}

/// The bytes that `btleplug`'s `BDAddr` reads from a text, if it is an address.
pub uninterp spec fn bd_addr(text: Seq<char>) -> Option<Seq<u8>>;

/// Calls the `FromStr` of `btleplug::api::BDAddr`.
///
/// Claimed: the outcome depends on the text alone, and what [`addr_chars`] writes is read
/// back. Texts that are not ASCII are left out, because on some of them the call panics.
#[verifier::external_body]
fn read_address(text: &str) -> (address: Option<Address>)
    requires
        vstd::string::is_ascii(text),
    ensures
        match address {
            Some(address) => bd_addr(text@) == Some(address@),
            None => bd_addr(text@) is None,
        },
        forall|a: Address| text@ == #[trigger] addr_chars(a) ==> address == Some(a),
{
    match text.parse::<btleplug::api::BDAddr>() {
        Ok(address) => Some(address.into_inner()),
        Err(_) => None,
    }
}

/// A call that looks devices up again by their ids, under way.
pub struct RetrieveCall {
    /// The ids that are left, last one first.
    left: Vec<String>,
    /// The devices found so far.
    found: Vec<u64>,
}

/// The state of a [`RetrieveCall`].
#[verifier::ext_equal]
pub ghost struct RetrieveView {
    /// The ids that are left, last one first.
    pub left: Seq<String>,
    /// The devices found so far.
    pub found: Seq<u64>,
}

impl View for RetrieveCall {
    type V = RetrieveView;

    closed spec fn view(&self) -> RetrieveView {
        RetrieveView { left: self.left@, found: self.found@ }
    }
}

/// What looking up devices does next.
pub enum RetrieveNext {
    Ask(Invoke),
    /// The devices are known, by these ids.
    Done(Vec<u64>),
    Failed(BackendError),
}

/// The address that an id stands for, from what is read from its text: an id with letters
/// that no address has stands for none.
pub open spec fn id_address(id: Seq<char>, read: Option<Seq<u8>>) -> Option<Seq<u8>> {
    if vstd::utf8::is_ascii_chars(id) {
        read
    } else {
        None
    }
}

/// What looking up devices does next, once the next address was read from its id: it asks
/// for the device, or fails if there is no such address; without any id left it is done.
pub open spec fn retrieve_next(
    call: RetrieveView,
    read: Option<Seq<u8>>,
    next: RetrieveNext,
) -> bool {
    if call.left.len() == 0 {
        next matches RetrieveNext::Done(found) && found@ == call.found
    } else {
        match id_address(call.left.last()@, read) {
            None => next == RetrieveNext::Failed(BackendError::DeviceNotFound),
            Some(bytes) => next matches RetrieveNext::Ask(i) && i.timeout == IPC_DEFAULT_TIMEOUT_MS
                && (i.command matches Command::RetrievePeripheral { address } && address@
                == bytes),
        }
    }
}

/// An id that is the text of an address is asked for under that address.
pub open spec fn asks_for_addresses(call: RetrieveView, next: RetrieveNext) -> bool {
    forall|a: Address|
        call.left.len() > 0 && call.left.last()@ == #[trigger] addr_chars(a) ==> next
            == RetrieveNext::Ask(
            invoke(Command::RetrievePeripheral { address: a }, IPC_DEFAULT_TIMEOUT_MS),
        )
}

proof fn lemma_addresses_are_ascii(a: Address)
    ensures
        vstd::utf8::is_ascii_chars(addr_chars(a)),
{
    assert forall|i: int| 0 <= i < addr_chars(a).len() implies '\0' <= #[trigger] addr_chars(a)[i]
        <= '\u{7f}' by {
        let x = a[i / 3] as int;
        assert(0 <= x / 16 < 16 && 0 <= x % 16 < 16);
    }
}

impl Adapter {
    /// Looks devices up again by their ids, so that one that was lost can be used without a
    /// scan. Looking them up by their services is not possible on android.
    pub fn retrieve_peripherals(
        &self,
        identifiers: Option<Vec<String>>,
        by_services: bool,
    ) -> (started: Result<(RetrieveCall, RetrieveNext), BackendError>)
        ensures
            started is Ok <==> identifiers is Some && !by_services,
            started matches Err(e) ==> e matches BackendError::NotSupported(what) && what@
                == "retrieve_peripherals"@,
            started matches Ok((call, next)) ==> {
                &&& call@ == (RetrieveView {
                    left: (identifiers->0)@.reverse(),
                    found: Seq::empty(),
                })
                &&& retrieve_next(call@, bd_addr(call@.left.last()@), next)
                &&& asks_for_addresses(call@, next)
            },
    {
        match identifiers {
            Some(identifiers) => {
                if by_services {
                    return Err(BackendError::NotSupported("retrieve_peripherals".to_owned()));
                }
                let call = RetrieveCall { left: reversed(identifiers), found: Vec::new() };
                let next = call.next();
                Ok((call, next))
            },
            None => Err(BackendError::NotSupported("retrieve_peripherals".to_owned())),
        }
    }
}

fn reversed(list: Vec<String>) -> (reverse: Vec<String>)
    ensures
        reverse@ == list@.reverse(),
{
    let mut list = list;
    let ghost all = list@;
    let mut reverse: Vec<String> = Vec::new();
    loop
        invariant
            list@.len() + reverse@.len() == all.len(),
            list@ == all.take(list@.len() as int),
            reverse@ == all.reverse().take(reverse@.len() as int),
        ensures
            reverse@ == all.reverse(),
        decreases list@.len(),
    {
        match list.pop() {
            Some(x) => {
                reverse.push(x);
                proof {
                    let n = reverse@.len() as int;
                    assert(all.reverse()[n - 1] == x);
                    assert(reverse@ =~= all.reverse().take(n));
                }
            },
            None => {
                proof {
                    assert(reverse@ =~= all.reverse());
                }
                break;
            },
        }
    }
    reverse
}

/// The devices after one was looked up. What a scan has found out about a device is kept:
/// the Kotlin side answers without having seen an advertisement.
pub open spec fn retrieved(
    devices: Map<u64, Peripheral>,
    device: Peripheral,
) -> Map<u64, Peripheral> {
    if devices.dom().contains(device.id) {
        devices
    } else {
        devices.insert(device.id, device)
    }
}

impl RetrieveCall {
    /// Goes on with the next id, once the address that it stands for was read.
    pub fn resume(&self, read: Option<Address>) -> (next: RetrieveNext)
        ensures
            retrieve_next(
                self@,
                match read {
                    Some(address) => Some(address@),
                    None => None,
                },
                next,
            ),
            self@.left.len() > 0 && vstd::utf8::is_ascii_chars(self@.left.last()@) ==> match read {
                Some(address) => next == RetrieveNext::Ask(
                    invoke(Command::RetrievePeripheral { address }, IPC_DEFAULT_TIMEOUT_MS),
                ),
                None => next is Failed,
            },
    {
        if self.left.len() == 0 {
            let mut found: Vec<u64> = Vec::new();
            let mut i: usize = 0;
            while i < self.found.len()
                invariant
                    i <= self.found@.len(),
                    found@ == self.found@.take(i as int),
                decreases self.found.len() - i,
            {
                found.push(self.found[i]);
                i = i + 1;
                proof {
                    assert(self.found@.take(i as int) =~= self.found@.take(i - 1).push(
                        self.found@[i - 1],
                    ));
                }
            }
            proof {
                assert(found@ =~= self.found@);
            }
            return RetrieveNext::Done(found);
        }
        if !self.left[self.left.len() - 1].as_str().is_ascii() {
            return RetrieveNext::Failed(BackendError::DeviceNotFound);
        }
        match read {
            None => RetrieveNext::Failed(BackendError::DeviceNotFound),
            Some(address) => RetrieveNext::Ask(
                Invoke {
                    command: Command::RetrievePeripheral { address },
                    timeout: IPC_DEFAULT_TIMEOUT_MS,
                },
            ),
        }
    }

    fn next(&self) -> (next: RetrieveNext)
        ensures
            retrieve_next(self@, bd_addr(self@.left.last()@), next),
            asks_for_addresses(self@, next),
    {
        proof {
            assert forall|a: Address| #![trigger addr_chars(a)] vstd::utf8::is_ascii_chars(
                addr_chars(a),
            ) by {
                lemma_addresses_are_ascii(a);
            }
        }
        if self.left.len() == 0 {
            return self.resume(None);
        }
        let id = self.left[self.left.len() - 1].as_str();
        if !id.is_ascii() {
            return self.resume(None);
        }
        self.resume(read_address(id))
    }

    /// Goes on after the answer to the last request.
    pub fn step(&mut self, adapter: &mut Adapter, answer: Result<Peripheral, Error>) -> (next:
        RetrieveNext)
        requires
            old(self)@.left.len() > 0,
        ensures
            match answer {
                Err(e) => {
                    &&& final(self)@ == old(self)@
                    &&& final(adapter)@ == old(adapter)@
                    &&& next matches RetrieveNext::Failed(BackendError::RuntimeError(text))
                        && text@ == e@.text()
                },
                Ok(device) => {
                    &&& final(self)@ == (RetrieveView {
                        left: old(self)@.left.drop_last(),
                        found: old(self)@.found.push(device.id),
                    })
                    &&& final(adapter)@ == (AdapterView {
                        devices: retrieved(old(adapter)@.devices, device),
                        ..old(adapter)@
                    })
                    &&& retrieve_next(final(self)@, bd_addr(final(self)@.left.last()@), next)
                    &&& asks_for_addresses(final(self)@, next)
                },
            },
    {
        broadcast use vstd::std_specs::hash::group_hash_axioms;

        match answer {
            Err(e) => RetrieveNext::Failed(ble_err(e)),
            Ok(device) => {
                let id: u64 = device.id;
                if !adapter.devices.contains_key(&id) {
                    let _ = adapter.devices.insert(id, device);
                }
                let _ = self.left.pop();
                self.found.push(id);
                self.next()
            },
        }
    }
}

/// The value that was read, from what its text has decoded to. A text that is not base64
/// makes the answer one that does not have the form that was expected.
pub fn value_decoded(decoded: Result<Vec<u8>, String>) -> (value: Result<Vec<u8>, BackendError>)
    ensures
        match decoded {
            Ok(bytes) => value == Ok::<Vec<u8>, BackendError>(bytes),
            Err(why) => value matches Err(BackendError::RuntimeError(text)) && text@
                == unreadable_value(why@),
        },
{
    match decoded {
        Ok(bytes) => Ok(bytes),
        Err(why) => Err(ble_err(answer_error("read", why.as_str()))),
    }
}

/// The text of the error for a value that is not base64.
pub open spec fn unreadable_value(why: Seq<char>) -> Seq<char> {
    ErrorView::Android("could not deserialize the answer of "@ + "read"@ + ": "@ + why).text()
}

/// Takes the answer to a request to read a characteristic, which holds the value in base64.
pub fn value_read(answer: Result<String, Error>) -> (value: Result<Vec<u8>, BackendError>)
    ensures
        match answer {
            Err(e) => failed(value, e),
            Ok(text) => match payload::base64_bytes(text@) {
                Ok(bytes) => value matches Ok(v) && v@ == bytes,
                Err(why) => value matches Err(BackendError::RuntimeError(text)) && text@
                    == unreadable_value(why),
            },
        },
{
    match answer {
        Ok(text) => value_decoded(deserialize_base64(text.as_str())),
        Err(e) => Err(ble_err(e)),
    }
}

/// A notification as the Kotlin side sends it.
pub struct SentNotification {
    pub uuid: Uuid,
    pub service_uuid: Uuid,
    /// The data in base64.
    pub data: String,
}

/// A notification of a device.
pub struct ValueNotification {
    pub uuid: Uuid,
    pub service_uuid: Uuid,
    pub value: Vec<u8>,
}

/// The notification that was sent, from what its data has decoded to. One whose data is not
/// base64 is dropped.
pub fn notification(uuid: Uuid, service_uuid: Uuid, data: Result<Vec<u8>, String>) -> (received:
    Option<ValueNotification>)
    ensures
        received == match data {
            Ok(value) => Some(ValueNotification { uuid, service_uuid, value }),
            Err(_) => None,
        },
{
    match data {
        Ok(value) => Some(ValueNotification { uuid, service_uuid, value }),
        Err(_) => None,
    }
}

/// Reads a notification. One whose data is not base64 is dropped.
pub fn read_notification(sent: &SentNotification) -> (received: Option<ValueNotification>)
    ensures
        match payload::base64_bytes(sent.data@) {
            Ok(bytes) => received matches Some(n) && n.uuid == sent.uuid && n.service_uuid
                == sent.service_uuid && n.value@ == bytes,
            Err(_) => received is None,
        },
{
    notification(sent.uuid, sent.service_uuid, deserialize_base64(sent.data.as_str()))
}

/// A device that a scan reports has the default MTU until one is negotiated, and a device that
/// is connected starts with it, too; a scan does not change the MTU of a link that is up.
pub proof fn mtus_belong_to_the_link(a: AdapterView, device: Peripheral)
    ensures
        ({
            let scanned = a.without_devices().with_device(device);
            if a.linked.contains(device.id) {
                lookup(scanned.mtus, device.id) == lookup(a.mtus, device.id)
            } else {
                lookup(scanned.mtus, device.id) is None
            }
        }),
        lookup(a.connecting(device.id).mtus, device.id) is None,
{
}

/// The services of a device are those that were discovered on the link that is up: they are
/// forgotten when the device is connected or disconnected, and those of other devices stay.
pub proof fn services_belong_to_the_link(a: AdapterView, id: u64, other: u64)
    ensures
        !a.forgetting(id).services.dom().contains(id),
        other != id ==> lookup(a.forgetting(id).services, other) == lookup(a.services, other),
        a.forgetting(id).devices == a.devices,
{
}

} // verus!
