//! What the android backend remembers and makes of what it is sent.

use crate::android::bridge::{answer_result, Answer, BridgeView};
use crate::android::payload::{decoded_map, json_value, payload_value};
use crate::android::tree::{
    characteristic_of, descriptors_of, service_of, services_of, set_of,
    sets_hold_what_was_put_in, CharacteristicView, ListedCharacteristic, ListedService, Ranked,
    ServiceView,
};
use crate::android::{
    asks_for_addresses, named_state, queue_limit, retrieve_next, retrieved, unreadable_value,
    AdapterView, Command, Peripheral, RetrieveNext, RetrieveView,
};
use crate::error::{BackendError, ErrorView};
use crate::handler::CentralState;
use crate::index::lookup;
use crate::models::{addr_chars, Address, Characteristic, Descriptor, Service, Uuid};
use vstd::prelude::*;

verus! {

/// Of a link that is to come up nothing is known, whatever was known of the one before; all
/// else stays as it was.
pub proof fn new_links_start_afresh(a: AdapterView, id: u64, other: u64)
    ensures
        ({
            let b = a.connecting(id);
            &&& lookup(b.mtus, id) is None
            &&& lookup(b.services, id) is None
            &&& !b.linked.contains(id)
            &&& other != id ==> {
                &&& lookup(b.mtus, other) == lookup(a.mtus, other)
                &&& lookup(b.services, other) == lookup(a.services, other)
                &&& b.linked.contains(other) == a.linked.contains(other)
            }
            &&& b.devices == a.devices
            &&& b.scan_task == a.scan_task
            &&& b.requested_mtu == a.requested_mtu
        }),
{
}

/// A device that is disconnected has no link and no services any more; its MTU, its description
/// and all other devices stay.
pub proof fn ended_links_are_forgotten(a: AdapterView, id: u64, other: u64)
    ensures
        ({
            let b = a.forgetting(id).unlinked(id);
            &&& lookup(b.services, id) is None
            &&& !b.linked.contains(id)
            &&& !a.unlinked(id).linked.contains(id)
            &&& a.unlinked(id).services == a.services
            &&& other != id ==> {
                &&& lookup(b.services, other) == lookup(a.services, other)
                &&& b.linked.contains(other) == a.linked.contains(other)
            }
            &&& b.mtus == a.mtus
            &&& b.devices == a.devices
            &&& b.scan_task == a.scan_task
            &&& b.requested_mtu == a.requested_mtu
        }),
{
}

/// Forgetting the devices leaves none, and of the MTUs exactly those of links that are up; the
/// links and their services stay.
pub proof fn forgotten_devices_keep_their_links(a: AdapterView, id: u64)
    ensures
        ({
            let b = a.without_devices();
            &&& lookup(b.devices, id) is None
            &&& a.linked.contains(id) ==> lookup(b.mtus, id) == lookup(a.mtus, id)
            &&& !a.linked.contains(id) ==> lookup(b.mtus, id) is None
            &&& b.services == a.services
            &&& b.linked == a.linked
            &&& b.scan_task == a.scan_task
            &&& b.requested_mtu == a.requested_mtu
        }),
{
}

/// A device that a scan has found is known as it was found last. It has no MTU unless its link
/// is up; other devices stay as they were.
pub proof fn found_devices_are_known(a: AdapterView, device: Peripheral, other: u64)
    ensures
        ({
            let b = a.with_device(device);
            &&& lookup(b.devices, device.id) == Some(device)
            &&& a.linked.contains(device.id) ==> lookup(b.mtus, device.id) == lookup(
                a.mtus,
                device.id,
            )
            &&& !a.linked.contains(device.id) ==> lookup(b.mtus, device.id) is None
            &&& other != device.id ==> {
                &&& lookup(b.devices, other) == lookup(a.devices, other)
                &&& lookup(b.mtus, other) == lookup(a.mtus, other)
            }
            &&& b.services == a.services
            &&& b.linked == a.linked
            &&& b.scan_task == a.scan_task
            &&& b.requested_mtu == a.requested_mtu
        }),
{
}

/// A device that was looked up is known afterwards: as a scan has found it, if one has, and
/// otherwise as it was looked up. Other devices stay as they were.
pub proof fn retrieved_devices_are_known(
    devices: Map<u64, Peripheral>,
    device: Peripheral,
    other: u64,
)
    ensures
        ({
            let after = retrieved(devices, device);
            &&& lookup(after, device.id) == match lookup(devices, device.id) {
                Some(known) => Some(known),
                None => Some(device),
            }
            &&& other != device.id ==> lookup(after, other) == lookup(devices, other)
        }),
{
}

/// Looking up devices asks for the address that the next id stands for, and fails without
/// asking if it stands for none. With no id left it returns all that was found, in order.
pub proof fn lookups_ask_for_every_id(
    call: RetrieveView,
    read: Option<Seq<u8>>,
    next: RetrieveNext,
    address: Address,
)
    requires
        retrieve_next(call, read, next),
    ensures
        call.left.len() == 0 ==> (next matches RetrieveNext::Done(found) && found@ == call.found),
        call.left.len() > 0 && vstd::utf8::is_ascii_chars(call.left.last()@) && read is Some ==> (
        next matches RetrieveNext::Ask(i) && i.timeout == 5000 && (
        i.command matches Command::RetrievePeripheral { address } && address@ == read->0)),
        call.left.len() > 0 && (read is None || !vstd::utf8::is_ascii_chars(call.left.last()@))
            ==> next == RetrieveNext::Failed(BackendError::DeviceNotFound),
        asks_for_addresses(call, next) && call.left.len() > 0 && call.left.last()@ == addr_chars(
            address,
        ) ==> (next matches RetrieveNext::Ask(i) && i.timeout == 5000 && i.command
            == Command::RetrievePeripheral { address }),
{
}

/// A write waits for as long as was set. If nothing was set, it waits as long as the handler
/// does, as far as that can be expressed.
pub proof fn writes_wait_as_long_as_they_should(write_timeout: u32, limit: u64)
    ensures
        write_timeout != 0 ==> queue_limit(write_timeout, limit) == write_timeout,
        queue_limit(0, limit) <= limit,
        limit <= 0xffff_ffff ==> queue_limit(0, limit) == limit,
        limit > 0xffff_ffff ==> queue_limit(0, limit) == 0xffff_ffff,
{
}

/// Each of the three names of adapter states stands for its state, and no other text does.
pub proof fn states_go_by_their_names(name: Seq<char>)
    ensures
        named_state(name) == Some(CentralState::PoweredOn) <==> name == "on"@,
        named_state(name) == Some(CentralState::PoweredOff) <==> name == "off"@,
        named_state(name) == Some(CentralState::Unknown) <==> name == "unknown"@,
{
    reveal_strlit("on");
    reveal_strlit("off");
    reveal_strlit("unknown");
    assert("on"@.len() == 2 && "off"@.len() == 3 && "unknown"@.len() == 7);
}

/// The result of a call is what the other side has answered. An error names the command and
/// what went wrong: what the other side has said, that it will not answer, or that the call has
/// run out of time.
pub proof fn answers_are_passed_on<T>(value: T, message: String, cmd: Seq<char>)
    ensures
        answer_result(Answer::Answered(Ok(value)), cmd) == Ok::<T, ErrorView>(value),
        answer_result(Answer::<T>::Answered(Err(message)), cmd) == Err::<T, ErrorView>(
            ErrorView::Android(cmd + " failed: "@ + message@),
        ),
        answer_result(Answer::<T>::Dropped, cmd) == Err::<T, ErrorView>(
            ErrorView::Android(cmd + " failed: "@ + "the android side dropped the call"@),
        ),
        answer_result(Answer::<T>::TimedOut, cmd) == Err::<T, ErrorView>(ErrorView::Timeout(cmd)),
{
}

/// A value that cannot be read is an error that says of which command and why.
pub proof fn unreadable_values_say_why(why: Seq<char>)
    ensures
        unreadable_value(why) =~= "android: "@ + "could not deserialize the answer of "@ + "read"@
            + ": "@ + why,
{
}

/// A new call or channel takes the next id and leaves every other one as it was.
pub proof fn ids_are_given_out_once<P, C>(b: BridgeView<P, C>, p: P, c: C, other: u64)
    ensures
        lookup(b.calling(p).pending, b.next_id) == Some(p),
        lookup(b.opening(c).channels, b.next_id) == Some(c),
        b.calling(p).channels == b.channels,
        b.opening(c).pending == b.pending,
        other != b.next_id ==> lookup(b.calling(p).pending, other) == lookup(b.pending, other),
        other != b.next_id ==> lookup(b.opening(c).channels, other) == lookup(b.channels, other),
        b.calling(p).next_id != b.next_id,
        b.opening(c).next_id == b.calling(p).next_id,
        b.next_id < u64::MAX ==> b.calling(p).next_id == b.next_id + 1,
{
    assert(b.next_id.wrapping_add(1) != b.next_id);
}

/// An empty payload reads as `null`, and any other as the JSON in it.
pub proof fn payloads_are_json(payload: Seq<char>)
    ensures
        payload.len() == 0 ==> payload_value(payload) == Ok::<Seq<char>, Seq<char>>("null"@),
        payload.len() > 0 ==> payload_value(payload) == json_value(payload),
{
}

/// Entries make up a map exactly if all of their texts decode. Then every key leads to the
/// bytes of its last entry, and to nothing if it has none; otherwise the error is that of the
/// first text that does not decode.
pub proof fn last_entries_count<K>(
    keys: Seq<K>,
    decoded: Seq<Result<Seq<u8>, Seq<char>>>,
    key: K,
    i: int,
)
    requires
        keys.len() == decoded.len(),
    ensures
        decoded_map(keys, decoded) is Ok <==> forall|k: int|
            0 <= k < decoded.len() ==> (#[trigger] decoded[k]) is Ok,
        decoded_map(keys, decoded) matches Ok(map) ==> {
            &&& map.dom().contains(key) <==> keys.contains(key)
            &&& 0 <= i < keys.len() && keys[i] == key && (forall|k: int|
                i < k < keys.len() ==> #[trigger] keys[k] != key) ==> map[key] == decoded[i]->Ok_0
        },
        0 <= i < keys.len() && decoded[i] is Err && (forall|k: int|
            0 <= k < i ==> (#[trigger] decoded[k]) is Ok) ==> decoded_map(keys, decoded) == Err::<
            Map<K, Seq<u8>>,
            Seq<char>,
        >(decoded[i]->Err_0),
    decreases keys.len(),
{
    if keys.len() > 0 {
        let keys1 = keys.drop_last();
        let decoded1 = decoded.drop_last();
        let n = keys.len() - 1;
        last_entries_count(keys1, decoded1, key, i);
        assert(forall|k: int| 0 <= k < n ==> decoded1[k] == decoded[k]);
        assert(forall|k: int| 0 <= k < n ==> keys1[k] == keys[k]);
        if decoded_map(keys1, decoded1) is Err {
            let k = choose|k: int| 0 <= k < n && (#[trigger] decoded1[k]) is Err;
            assert(decoded[k] is Err);
        } else {
            assert forall|k: int| 0 <= k < n implies (#[trigger] decoded[k]) is Ok by {
                assert(decoded1[k] is Ok);
            }
        }
        if keys.contains(key) {
            let k = choose|k: int| 0 <= k < keys.len() && keys[k] == key;
            if k < n {
                assert(keys1[k] == key);
            }
        }
        if keys1.contains(key) {
            let k = choose|k: int| 0 <= k < n && keys1[k] == key;
            assert(keys[k] == key);
        }
        assert(keys[n] == keys.last());
        assert(decoded[n] == decoded.last());
        if 0 <= i < n && keys[i] == key && (forall|k: int|
            i < k < keys.len() ==> #[trigger] keys[k] != key) {
            assert(keys[n] != key);
            assert(forall|k: int| i < k < n ==> #[trigger] keys1[k] != key) by {
                assert forall|k: int| i < k < n implies #[trigger] keys1[k] != key by {
                    assert(keys[k] != key);
                }
            }
        }
        if 0 <= i < n && decoded[i] is Err && (forall|k: int|
            0 <= k < i ==> (#[trigger] decoded[k]) is Ok) {
            assert forall|k: int| 0 <= k < i implies (#[trigger] decoded1[k]) is Ok by {
                assert(decoded[k] is Ok);
            }
        }
    }
}

/// The services of a device are those that were listed, each once, ordered by uuid and the
/// secondary ones ahead of the primary ones.
pub proof fn listed_services_are_collected(listed: Seq<ListedService>, service: ServiceView)
    ensures
        services_of(listed).contains(service) <==> exists|i: int|
            0 <= i < listed.len() && service_of(#[trigger] listed[i]) == service,
        services_of(listed).no_duplicates(),
        forall|i: int, j: int|
            0 <= i < j < services_of(listed).len() ==> {
                let a = #[trigger] services_of(listed)[i];
                let b = #[trigger] services_of(listed)[j];
                a.uuid < b.uuid || (a.uuid == b.uuid && (!a.primary || b.primary))
            },
{
    let all = listed.map_values(|s: ListedService| service_of(s));
    let set = services_of(listed);
    sets_hold_what_was_put_in::<Service>(all);
    if set.contains(service) {
        assert(all.contains(service));
        let i = choose|i: int| 0 <= i < all.len() && all[i] == service;
        assert(service_of(listed[i]) == service);
    }
    if exists|i: int| 0 <= i < listed.len() && service_of(#[trigger] listed[i]) == service {
        let i = choose|i: int|
            0 <= i < listed.len() && service_of(#[trigger] listed[i]) == service;
        assert(all[i] == service);
        assert(all.contains(service));
    }
    assert forall|i: int, j: int|
        0 <= i < set.len() && 0 <= j < set.len() && i != j implies set[i] != set[j] by {
        if i < j {
            <Service as Ranked>::before_is_strict(set[i], set[j]);
        } else {
            <Service as Ranked>::before_is_strict(set[j], set[i]);
        }
    }
}

/// A service has its uuid and its kind from the list, and holds the characteristics that were
/// listed with it, each once and ordered by uuid.
pub proof fn services_hold_their_characteristics(s: ListedService, c: CharacteristicView)
    ensures
        service_of(s).uuid == s.uuid,
        service_of(s).primary == s.primary,
        service_of(s).characteristics.contains(c) <==> exists|j: int|
            0 <= j < s.characs@.len() && characteristic_of(#[trigger] s.characs@[j], s.uuid) == c,
        forall|i: int, j: int|
            0 <= i < j < service_of(s).characteristics.len() ==> (
            #[trigger] service_of(s).characteristics[i]).uuid <= (
            #[trigger] service_of(s).characteristics[j]).uuid,
        service_of(s).characteristics.no_duplicates(),
{
    let all = s.characs@.map_values(|c: ListedCharacteristic| characteristic_of(c, s.uuid));
    let set = service_of(s).characteristics;
    sets_hold_what_was_put_in::<Characteristic>(all);
    if set.contains(c) {
        assert(all.contains(c));
        let j = choose|j: int| 0 <= j < all.len() && all[j] == c;
        assert(characteristic_of(s.characs@[j], s.uuid) == c);
    }
    if exists|j: int|
        0 <= j < s.characs@.len() && characteristic_of(#[trigger] s.characs@[j], s.uuid) == c {
        let j = choose|j: int|
            0 <= j < s.characs@.len() && characteristic_of(#[trigger] s.characs@[j], s.uuid) == c;
        assert(all[j] == c);
        assert(all.contains(c));
    }
    assert forall|i: int, j: int|
        0 <= i < set.len() && 0 <= j < set.len() && i != j implies set[i] != set[j] by {
        if i < j {
            <Characteristic as Ranked>::before_is_strict(set[i], set[j]);
        } else {
            <Characteristic as Ranked>::before_is_strict(set[j], set[i]);
        }
    }
}

/// A characteristic has its uuid and properties from the list and belongs to its service; it
/// holds the descriptors that were listed with it, each once and ordered by uuid.
pub proof fn characteristics_hold_their_descriptors(
    c: ListedCharacteristic,
    service: Uuid,
    uuid: Uuid,
)
    ensures
        ({
            let v = characteristic_of(c, service);
            &&& v.uuid == c.uuid
            &&& v.service_uuid == service
            &&& v.properties == c.properties
            &&& v.descriptors.contains(
                Descriptor { uuid, service_uuid: service, characteristic_uuid: c.uuid },
            ) <==> c.descriptors@.contains(uuid)
            &&& forall|i: int|
                0 <= i < v.descriptors.len() ==> {
                    let d = #[trigger] v.descriptors[i];
                    d.service_uuid == service && d.characteristic_uuid == c.uuid
                }
            &&& forall|i: int, j: int|
                0 <= i < j < v.descriptors.len() ==> (#[trigger] v.descriptors[i]).uuid < (
                #[trigger] v.descriptors[j]).uuid
        }),
{
    let v = characteristic_of(c, service);
    let make = |uuid: Uuid|
        Descriptor { uuid, service_uuid: service, characteristic_uuid: c.uuid };
    let all = c.descriptors@.map_values(make);
    let d = make(uuid);
    assert(v.descriptors == descriptors_of(c.descriptors@, c.uuid, service));
    assert(v.descriptors == set_of::<Descriptor>(all));
    sets_hold_what_was_put_in::<Descriptor>(all);
    if c.descriptors@.contains(uuid) {
        let k = choose|k: int| 0 <= k < c.descriptors@.len() && c.descriptors@[k] == uuid;
        assert(all[k] == d);
        assert(all.contains(d));
    }
    if v.descriptors.contains(d) {
        assert(all.contains(d));
        let k = choose|k: int| 0 <= k < all.len() && all[k] == d;
        assert(c.descriptors@[k] == uuid);
    }
    assert forall|i: int| 0 <= i < v.descriptors.len() implies ({
        let d = #[trigger] v.descriptors[i];
        d.service_uuid == service && d.characteristic_uuid == c.uuid
    }) by {
        assert(v.descriptors.contains(v.descriptors[i]));
        assert(all.contains(v.descriptors[i]));
    }
    assert forall|i: int, j: int| 0 <= i < j < v.descriptors.len() implies (
    #[trigger] v.descriptors[i]).uuid < (#[trigger] v.descriptors[j]).uuid by {
        <Descriptor as Ranked>::before_is_strict(
            v.descriptors[i],
            v.descriptors[j],
        );
    }
}

/// Commands go by their names, whatever they hold.
pub proof fn commands_go_by_their_names(c: Command)
    ensures
        c is CheckPermissions ==> c.spec_name() == "check_permissions"@,
        c is ClearPeripherals ==> c.spec_name() == "clear_peripherals"@,
        c is Events ==> c.spec_name() == "events"@,
        c is StartScan ==> c.spec_name() == "start_scan"@,
        c is StopScan ==> c.spec_name() == "stop_scan"@,
        c is RetrievePeripheral ==> c.spec_name() == "retrieve_peripheral"@,
        c is AdapterState ==> c.spec_name() == "adapter_state"@,
        c is IsBonded ==> c.spec_name() == "is_bonded"@,
        c is IsConnected ==> c.spec_name() == "is_connected"@,
        c is Connect ==> c.spec_name() == "connect"@,
        c is RequestMtu ==> c.spec_name() == "request_mtu"@,
        c is Disconnect ==> c.spec_name() == "disconnect"@,
        c is DiscoverServices ==> c.spec_name() == "discover_services"@,
        c is Services ==> c.spec_name() == "services"@,
        c is Write ==> c.spec_name() == "write"@,
        c is Read ==> c.spec_name() == "read"@,
        c is Subscribe ==> c.spec_name() == "subscribe"@,
        c is Unsubscribe ==> c.spec_name() == "unsubscribe"@,
        c is Notifications ==> c.spec_name() == "notifications"@,
{
}

} // verus!
