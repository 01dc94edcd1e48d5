//! The state that a user interface shows, and what changes it.

use crate::error::{Error, ErrorView};
use crate::models::BleDevice;
use vstd::prelude::*;

verus! {

/// How far the start has got.
#[derive(Debug)]
pub enum InitState {
    /// Still starting.
    Pending,
    /// The handler is there.
    Ready,
    /// The start failed, with this message.
    Failed(String),
}

/// What a user interface shows.
pub struct Ble {
    init: InitState,
    scanning: bool,
    devices: Vec<BleDevice>,
    connected: Option<BleDevice>,
}

/// The state of a [`Ble`].
#[verifier::ext_equal]
pub ghost struct BleView {
    /// How far the start has got.
    pub init: InitState,
    /// Whether a scan is running.
    pub scanning: bool,
    /// The devices that the current or last scan has found.
    pub devices: Seq<BleDevice>,
    /// The connected device.
    pub connected: Option<BleDevice>,
}

impl View for Ble {
    type V = BleView;

    closed spec fn view(&self) -> BleView {
        BleView {
            init: self.init,
            scanning: self.scanning,
            devices: self.devices@,
            connected: self.connected,
        }
    }
}

impl BleView {
    /// After the device shown as connected has changed.
    pub open spec fn showing(self, connected: Option<BleDevice>) -> Self {
        BleView { connected, ..self }
    }
}

impl Ble {
    /// What is shown while the handler is being set up.
    pub fn new() -> (ble: Self)
        ensures
            ble@ == (BleView {
                init: InitState::Pending,
                scanning: false,
                devices: Seq::empty(),
                connected: None,
            }),
    {
        Ble { init: InitState::Pending, scanning: false, devices: Vec::new(), connected: None }
    }

    /// The start is over.
    pub fn started(&mut self, result: Result<(), Error>)
        ensures
            final(self)@ == (BleView { init: final(self)@.init, ..old(self)@ }),
            match result {
                Ok(_) => final(self)@.init is Ready,
                Err(e) => final(self)@.init matches InitState::Failed(text) && text@ == e@.text(),
            },
    {
        self.init = match result {
            Ok(_) => InitState::Ready,
            Err(e) => InitState::Failed(e.message()),
        };
    }

    /// How far the start has got.
    pub fn init_state(&self) -> (state: &InitState)
        ensures
            *state == self@.init,
    {
        &self.init
    }

    /// Whether the handler is there.
    pub fn is_ready(&self) -> (ready: bool)
        ensures
            ready == (self@.init is Ready),
    {
        match &self.init {
            InitState::Ready => true,
            _ => false,
        }
    }

    /// Whether a scan is running.
    pub fn scanning(&self) -> (scanning: bool)
        ensures
            scanning == self@.scanning,
    {
        self.scanning
    }

    /// The devices that the current or last scan has found.
    pub fn devices(&self) -> (devices: &Vec<BleDevice>)
        ensures
            devices@ == self@.devices,
    {
        &self.devices
    }

    /// The connected device.
    pub fn connected(&self) -> (device: &Option<BleDevice>)
        ensures
            *device == self@.connected,
    {
        &self.connected
    }

    /// Whether a device is connected.
    pub fn is_connected(&self) -> (connected: bool)
        ensures
            connected == (self@.connected is Some),
    {
        self.connected.is_some()
    }

    /// A scan has begun or ended.
    pub fn scanning_changed(&mut self, scanning: bool)
        ensures
            final(self)@ == (BleView { scanning, ..old(self)@ }),
    {
        self.scanning = scanning;
    }

    /// A connection has begun or ended. When it has begun, `device` is the connected device
    /// if the backend can describe it; what is shown is replaced only then.
    pub fn connection_changed(&mut self, is_connected: bool, device: Option<BleDevice>)
        ensures
            final(self)@ == if !is_connected {
                old(self)@.showing(None)
            } else if device is Some {
                old(self)@.showing(device)
            } else {
                old(self)@
            },
    {
        if is_connected {
            if device.is_some() {
                self.connected = device;
            }
        } else {
            self.connected = None;
        }
    }

    /// The user starts a scan: the earlier results go. It takes a handler.
    pub fn scan(&mut self, initialized: bool) -> (result: Result<(), Error>)
        ensures
            result is Ok <==> initialized,
            result matches Err(e) ==> e@ == ErrorView::HandlerNotInitialized && final(self)@
                == old(self)@,
            initialized ==> final(self)@ == (BleView { devices: Seq::empty(), ..old(self)@ }),
    {
        if !initialized {
            return Err(Error::HandlerNotInitialized);
        }
        self.devices = Vec::new();
        Ok(())
    }

    /// The scan reports devices.
    pub fn devices_found(&mut self, devices: Vec<BleDevice>)
        ensures
            final(self)@ == (BleView { devices: devices@, ..old(self)@ }),
    {
        self.devices = devices;
    }

    /// The user's call to connect is over: if it succeeded, `device` is the connected device
    /// if the backend can describe it.
    pub fn connect(&mut self, result: Result<(), Error>, device: Option<BleDevice>) -> (outcome:
        Result<(), Error>)
        ensures
            outcome == result,
            final(self)@ == if result is Ok {
                old(self)@.showing(device)
            } else {
                old(self)@
            },
    {
        if result.is_ok() {
            self.connected = device;
        }
        result
    }

    /// The user's call to disconnect is over. Whatever came of it, no device is shown.
    pub fn disconnect(&mut self, result: Result<(), Error>) -> (outcome: Result<(), Error>)
        ensures
            outcome == result,
            final(self)@ == old(self)@.showing(None),
    {
        self.connected = None;
        result
    }
}

/// Keeps a user interface subscribed to a characteristic: a subscription belongs to one
/// link, so it is renewed whenever another device is connected.
pub struct NotificationHook {
    address: Option<String>,
    value: Option<Vec<u8>>,
}

/// The state of a [`NotificationHook`].
#[verifier::ext_equal]
pub ghost struct HookView {
    /// The address of the device that was last seen connected.
    pub address: Option<Seq<char>>,
    /// The latest notification.
    pub value: Option<Vec<u8>>,
}

impl View for NotificationHook {
    type V = HookView;

    closed spec fn view(&self) -> HookView {
        HookView { address: text_of(self.address), value: self.value }
    }
}

/// A text, if there is one.
pub open spec fn text_of(text: Option<String>) -> Option<Seq<char>> {
    match text {
        Some(text) => Some(text@),
        None => None,
    }
}

/// The address of the device that is shown as connected.
pub open spec fn shown_address(ble: BleView) -> Option<Seq<char>> {
    match ble.connected {
        Some(device) => Some(device.address@),
        None => None,
    }
}

fn connected_address(ble: &Ble) -> (address: Option<String>)
    ensures
        text_of(address) == shown_address(ble@),
{
    match &ble.connected {
        Some(device) => Some(device.address.clone()),
        None => None,
    }
}

impl NotificationHook {
    /// Begins. Returns whether to subscribe at once.
    pub fn new(ble: &Ble) -> (started: (NotificationHook, bool))
        ensures
            started.0@ == (HookView { address: shown_address(ble@), value: None }),
            started.1 == (ble@.connected is Some),
    {
        let address = connected_address(ble);
        let subscribe = address.is_some();
        (NotificationHook { address, value: None }, subscribe)
    }

    /// The device shown as connected may have changed. Returns whether to subscribe: only
    /// the address matters, not what else is known of the device.
    pub fn connection_changed(&mut self, ble: &Ble) -> (subscribe: bool)
        ensures
            final(self)@ == (HookView { address: shown_address(ble@), ..old(self)@ }),
            subscribe == (ble@.connected is Some && old(self)@.address != shown_address(ble@)),
    {
        let address = connected_address(ble);
        let changed = match (&self.address, &address) {
            (Some(before), Some(now)) => *before != *now,
            (None, None) => false,
            _ => true,
        };
        let subscribe = address.is_some() && changed;
        self.address = address;
        subscribe
    }

    /// A notification has arrived.
    pub fn notified(&mut self, data: Vec<u8>)
        ensures
            final(self)@ == (HookView { value: Some(data), ..old(self)@ }),
    {
        self.value = Some(data);
    }

    /// The latest notification.
    pub fn value(&self) -> (value: &Option<Vec<u8>>)
        ensures
            *value == self@.value,
    {
        &self.value
    }

    /// Ends. Returns whether to unsubscribe: without a connection there is nothing to end.
    pub fn dropped(self, ble: &Ble) -> (unsubscribe: bool)
        ensures
            unsubscribe == (ble@.connected is Some),
    {
        ble.is_connected()
    }
}

} // verus!
