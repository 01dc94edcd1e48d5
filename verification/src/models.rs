//! The data that passes between the handler, the backend and the application.

use std::collections::HashMap;
use vstd::prelude::*;

verus! {

/// A uuid, by its 128 bits.
pub type Uuid = u128;

/// A Bluetooth device address, in the order in which it is written down.
pub type Address = [u8; 6];

/// A device the backend knows: the number by which the backend finds it, and its address.
#[derive(Clone, Copy, Debug)]
pub struct Peripheral {
    pub id: u64,
    pub address: Address,
}

/// The upper-case hex digit of a value below 16.
pub open spec fn upper_hex(d: int) -> char {
    if d < 10 {
        (d + 48) as char
    } else {
        (d + 55) as char
    }
}

/// An address in text: six pairs of upper-case hex digits with colons between them.
pub open spec fn addr_chars(address: Address) -> Seq<char> {
    Seq::new(
        17,
        |i: int|
            if i % 3 == 0 {
                upper_hex(address[i / 3] as int / 16)
            } else if i % 3 == 1 {
                upper_hex(address[i / 3] as int % 16)
            } else {
                ':'
            },
    )
}

/// `String::push` appends the character to the text.
pub assume_specification[ String::push ](text: &mut String, c: char)
    ensures
        final(text)@ == old(text)@.push(c),
;

fn hex_digit(d: u8) -> (c: char)
    requires
        d < 16,
    ensures
        c == upper_hex(d as int),
{
    if d < 10 {
        (d + 48) as char
    } else {
        (d + 55) as char
    }
}

/// The text of an address.
pub fn fmt_addr(address: Address) -> (text: String)
    ensures
        text@ == addr_chars(address),
{
    let mut text = String::new();
    let mut i: usize = 0;
    while i < 6
        invariant
            i <= 6,
            text@ == addr_chars(address).take(if i == 6 {
                17
            } else {
                3 * i as int
            }),
        decreases 6 - i,
    {
        let ghost before = text@;
        let byte: u8 = address[i];
        text.push(hex_digit(byte / 16));
        text.push(hex_digit(byte % 16));
        if i < 5 {
            text.push(':');
        }
        i = i + 1;
        proof {
            let full = addr_chars(address);
            let n = 3 * (i - 1);
            assert(full[n] == upper_hex(byte as int / 16));
            assert(full[n + 1] == upper_hex(byte as int % 16));
            if i < 6 {
                assert(full[n + 2] == ':');
                assert(text@ =~= full.take(3 * i as int));
            } else {
                assert(text@ =~= full.take(17));
            }
        }
    }
    proof {
        assert(addr_chars(address).take(17) =~= addr_chars(address));
    }
    text
}

/// Two addresses with the same text are the same.
pub proof fn fmt_addr_is_injective(a: Address, b: Address)
    requires
        addr_chars(a) == addr_chars(b),
    ensures
        a == b,
{
    assert forall|i: int| 0 <= i < 6 implies a[i] == b[i] by {
        assert(addr_chars(a)[3 * i] == addr_chars(b)[3 * i]);
        assert(addr_chars(a)[3 * i + 1] == addr_chars(b)[3 * i + 1]);
        let x = a[i] as int;
        let y = b[i] as int;
        assert((3 * i) / 3 == i && (3 * i + 1) / 3 == i);
        assert((3 * i) % 3 == 0 && (3 * i + 1) % 3 == 1);
        assert(addr_chars(a)[3 * i] == upper_hex(x / 16));
        assert(addr_chars(a)[3 * i + 1] == upper_hex(x % 16));
        assert(upper_hex(x / 16) == upper_hex(y / 16));
        assert(upper_hex(x % 16) == upper_hex(y % 16));
        assert(x / 16 == y / 16);
        assert(x % 16 == y % 16);
    }
    assert(a =~= b);
}

/// How long each kind of request may take, in milliseconds.
#[derive(Clone, Copy, Debug)]
pub struct Timeouts {
    pub connect: u64,
    pub discover_services: u64,
    pub read: u64,
    pub write: u64,
    pub subscribe: u64,
    pub disconnect: u64,
}

/// Whether the Bluetooth adapter is switched on.
#[derive(Clone, Copy, Debug, PartialEq, Eq, Structural)]
pub enum AdapterState {
    Unknown,
    Off,
    On,
}

/// Whether a write waits for the device to confirm it.
#[derive(Clone, Copy, Debug, PartialEq, Eq, Structural)]
pub enum WriteType {
    WithResponse,
    WithoutResponse,
}

/// What a scan reports of a device.
#[derive(Clone, Debug)]
pub struct BleDevice {
    pub address: String,
    pub name: String,
    pub rssi: Option<i16>,
    pub is_connected: bool,
    pub is_bonded: bool,
    pub tx_power_level: Option<i16>,
    pub services: Vec<Uuid>,
    pub manufacturer_data: HashMap<u16, Vec<u8>>,
    pub service_data: HashMap<Uuid, Vec<u8>>,
}

/// Which devices a scan reports.
#[derive(Clone, Debug)]
pub enum ScanFilter {
    /// Every device.
    Unfiltered,
    /// Devices that advertise this service.
    Service(Uuid),
    /// Devices that advertise at least one of these services.
    AnyService(Vec<Uuid>),
    /// Devices that advertise all of these services.
    AllServices(Vec<Uuid>),
    /// Devices whose manufacturer data under this key is exactly this.
    ManufacturerData(u16, Vec<u8>),
    /// Devices whose manufacturer data under this key equals the data (second) in the
    /// bits of the mask (third).
    ManufacturerDataMasked(u16, Vec<u8>, Vec<u8>),
}

/// What a device advertises, as far as filters look at it.
#[derive(Clone, Debug)]
pub struct Properties {
    pub rssi: Option<i16>,
    pub services: Vec<Uuid>,
    pub manufacturer_data: HashMap<u16, Vec<u8>>,
}

/// A descriptor of a characteristic.
#[derive(Clone, Copy, Debug, PartialEq, Eq, Structural)]
pub struct Descriptor {
    pub uuid: Uuid,
    pub service_uuid: Uuid,
    pub characteristic_uuid: Uuid,
}

/// A characteristic of a service. `properties` are the eight property bits.
#[derive(Clone, Debug)]
pub struct Characteristic {
    pub uuid: Uuid,
    pub service_uuid: Uuid,
    pub properties: u8,
    pub descriptors: Vec<Descriptor>,
}

/// A service of a device.
#[derive(Clone, Debug)]
pub struct Service {
    pub uuid: Uuid,
    pub primary: bool,
    pub characteristics: Vec<Characteristic>,
}

/// What names a characteristic on a device: its own uuid and its service's.
#[derive(Clone, Copy, Debug, PartialEq, Eq, Structural)]
pub struct CharacId {
    pub uuid: Uuid,
    pub service_uuid: Uuid,
}

/// The ids of the characteristics in a service, in order.
pub open spec fn charac_ids(characteristics: Seq<Characteristic>) -> Seq<CharacId> {
    characteristics.map_values(
        |c: Characteristic| CharacId { uuid: c.uuid, service_uuid: c.service_uuid },
    )
}

/// The ids of all characteristics of a device, service by service.
pub open spec fn all_charac_ids(services: Seq<Service>) -> Seq<CharacId>
    decreases services.len(),
{
    if services.len() == 0 {
        Seq::empty()
    } else {
        all_charac_ids(services.drop_last()) + charac_ids(services.last().characteristics@)
    }
}

/// Collects the ids of all characteristics of a device, service by service.
pub fn collect_characs(services: &Vec<Service>) -> (ids: Vec<CharacId>)
    ensures
        ids@ == all_charac_ids(services@),
{
    let mut ids: Vec<CharacId> = Vec::new();
    let mut i: usize = 0;
    while i < services.len()
        invariant
            i <= services.len(),
            ids@ == all_charac_ids(services@.take(i as int)),
        decreases services.len() - i,
    {
        let characteristics = &services[i].characteristics;
        let ghost done = ids@;
        let mut j: usize = 0;
        while j < characteristics.len()
            invariant
                j <= characteristics.len(),
                ids@ == done + charac_ids(characteristics@).take(j as int),
            decreases characteristics.len() - j,
        {
            ids.push(
                CharacId {
                    uuid: characteristics[j].uuid,
                    service_uuid: characteristics[j].service_uuid,
                },
            );
            j = j + 1;
            proof {
                assert(charac_ids(characteristics@).take(j as int) =~= charac_ids(
                    characteristics@,
                ).take(j - 1).push(charac_ids(characteristics@)[j - 1]));
            }
        }
        i = i + 1;
        proof {
            assert(services@.take(i as int).drop_last() =~= services@.take(i - 1));
            assert(charac_ids(characteristics@).take(j as int) =~= charac_ids(characteristics@));
        }
    }
    proof {
        assert(services@.take(i as int) =~= services@);
    }
    ids
}

} // verus!
