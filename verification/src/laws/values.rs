//! What the smaller functions give for what they are given.

use crate::error::{lower_hex, BackendError, ErrorView};
use crate::exchange::{timed_result, Timed};
use crate::filter::{filtering_keeps_the_right_devices, kept, sifted, Candidate};
use crate::handler::adapter::{adapter_state, first_adapter};
use crate::handler::gatt::{
    characs_are_found, find_charac, is_charac, subscribed, target, unsubscribed, SubscribeCall,
};
use crate::handler::{CentralState, HandlerView, Listener};
use crate::index::{
    by_address, described, lex_le, not_after, put_by_address, reports_are_in_order, Found,
};
use crate::models::{
    addr_chars, all_charac_ids, charac_ids, upper_hex, AdapterState, Address, BleDevice, CharacId,
    Characteristic, Peripheral, ScanFilter, Service, Uuid,
};
use vstd::prelude::*;
use vstd::utf8::encode_utf8;

verus! {

/// What a filter asks for: any device if there is none, and otherwise a device whose signal is
/// received and that advertises the service, one of the services, all of the services, exactly
/// this manufacturer data, or manufacturer data that agrees in the bits of the mask.
pub open spec fn wanted(c: Candidate, filter: ScanFilter) -> bool {
    let seen = c.properties is Some && c.properties->0.rssi is Some;
    let services = c.properties->0.services@;
    let data = c.properties->0.manufacturer_data@;
    match filter {
        ScanFilter::Unfiltered => true,
        ScanFilter::Service(uuid) => seen && exists|i: int|
            0 <= i < services.len() && #[trigger] services[i] == uuid,
        ScanFilter::AnyService(uuids) => seen && exists|i: int, j: int|
            0 <= i < services.len() && 0 <= j < uuids@.len() && #[trigger] services[i]
                == #[trigger] uuids@[j],
        ScanFilter::AllServices(uuids) => seen && forall|j: int|
            0 <= j < uuids@.len() ==> services.contains(#[trigger] uuids@[j]),
        ScanFilter::ManufacturerData(key, value) => seen && data.dom().contains(key)
            && data[key]@ =~= value@,
        ScanFilter::ManufacturerDataMasked(key, value, mask) => seen && data.dom().contains(key)
            && forall|i: int|
            0 <= i < data[key]@.len() && i < value@.len() && i < mask@.len()
                ==> #[trigger] data[key]@[i] & mask@[i] == value@[i] & mask@[i],
    }
}

/// A device is kept exactly if the filter asks for it.
pub proof fn devices_are_kept_if_wanted(c: Candidate, filter: ScanFilter)
    ensures
        kept(c, filter) <==> wanted(c, filter),
{
    let services = c.properties->0.services@;
    match filter {
        ScanFilter::AnyService(uuids) => {
            if kept(c, filter) {
                let uuid = choose|uuid: Uuid| #[trigger]
                    services.contains(uuid) && uuids@.contains(uuid);
                let i = choose|i: int| 0 <= i < services.len() && services[i] == uuid;
                let j = choose|j: int| 0 <= j < uuids@.len() && uuids@[j] == uuid;
                assert(services[i] == uuids@[j]);
            }
            if wanted(c, filter) {
                let (i, j) = choose|i: int, j: int|
                    0 <= i < services.len() && 0 <= j < uuids@.len() && #[trigger] services[i]
                        == #[trigger] uuids@[j];
                assert(services.contains(services[i]));
                assert(uuids@.contains(uuids@[j]));
            }
        },
        ScanFilter::AllServices(uuids) => {
            if kept(c, filter) {
                assert forall|j: int| 0 <= j < uuids@.len() implies services.contains(
                    #[trigger] uuids@[j],
                ) by {
                    assert(uuids@.contains(uuids@[j]));
                }
            }
        },
        _ => {},
    }
}

/// Filtering keeps exactly the devices that the filter asks for, each as often as it was there.
pub proof fn filters_keep_what_they_ask_for(list: Seq<Candidate>, filter: ScanFilter)
    ensures
        ({
            let out = sifted(list, filter, list.len());
            &&& forall|c: Candidate| #[trigger]
                out.contains(c) <==> list.contains(c) && wanted(c, filter)
            &&& forall|c: Candidate|
                wanted(c, filter) ==> #[trigger] out.to_multiset().count(c)
                    == list.to_multiset().count(c)
        }),
{
    broadcast use vstd::multiset::group_multiset_axioms;
    broadcast use vstd::seq_lib::group_to_multiset_ensures;

    let out = sifted(list, filter, list.len());
    filtering_keeps_the_right_devices(list, filter);
    assert forall|c: Candidate| #[trigger]
        out.contains(c) <==> list.contains(c) && wanted(c, filter) by {
        devices_are_kept_if_wanted(c, filter);
        assert(out.contains(c) <==> out.to_multiset().count(c) > 0);
        assert(list.contains(c) <==> list.to_multiset().count(c) > 0);
    }
    assert forall|c: Candidate|
        wanted(c, filter) implies #[trigger] out.to_multiset().count(c)
            == list.to_multiset().count(c) by {
        devices_are_kept_if_wanted(c, filter);
    }
}

proof fn lemma_filter_multiset<A>(s: Seq<A>, f: spec_fn(A) -> bool)
    ensures
        s.filter(f).to_multiset() =~= s.to_multiset().filter(f),
    decreases s.len(),
{
    broadcast use vstd::multiset::group_multiset_axioms;
    broadcast use vstd::seq_lib::group_to_multiset_ensures;

    reveal(Seq::filter);
    if s.len() > 0 {
        lemma_filter_multiset(s.drop_last(), f);
        assert(s =~= s.drop_last().push(s.last()));
        assert(s.to_multiset() =~= s.drop_last().to_multiset().insert(s.last()));
    } else {
        assert(s.to_multiset() =~= vstd::multiset::Multiset::empty());
    }
}

proof fn lemma_map_filter(s: Seq<Candidate>, p: Peripheral)
    ensures
        s.map_values(|c: Candidate| c.peripheral).filter(|q: Peripheral| q == p).len() == s.filter(
            |c: Candidate| c.peripheral == p,
        ).len(),
    decreases s.len(),
{
    reveal(Seq::filter);
    if s.len() > 0 {
        lemma_map_filter(s.drop_last(), p);
        let all = s.map_values(|c: Candidate| c.peripheral);
        assert(all.drop_last() =~= s.drop_last().map_values(|c: Candidate| c.peripheral));
    }
}

/// The peripherals that filtering leaves: each as often as it was listed with properties that
/// the filter asks for.
pub proof fn peripherals_are_kept_as_often(list: Seq<Candidate>, filter: ScanFilter, p: Peripheral)
    ensures
        sifted(list, filter, list.len()).map_values(|c: Candidate| c.peripheral).filter(
            |q: Peripheral| q == p,
        ).len() == list.filter(|c: Candidate| c.peripheral == p && wanted(c, filter)).len(),
{
    broadcast use vstd::multiset::group_multiset_axioms;
    broadcast use vstd::seq_lib::group_to_multiset_ensures;

    let out = sifted(list, filter, list.len());
    let is_p = |c: Candidate| c.peripheral == p;
    let keep = |c: Candidate| kept(c, filter);
    let both = |c: Candidate| c.peripheral == p && wanted(c, filter);
    lemma_map_filter(out, p);
    lemma_filter_multiset(out, is_p);
    lemma_filter_multiset(list, both);
    filtering_keeps_the_right_devices(list, filter);
    assert forall|c: Candidate| #[trigger] kept(c, filter) == wanted(c, filter) by {
        devices_are_kept_if_wanted(c, filter);
    }
    assert(out.to_multiset().filter(is_p) =~= list.to_multiset().filter(both));
    assert(out.filter(is_p).len() == out.filter(is_p).to_multiset().len());
    assert(list.filter(both).len() == list.filter(both).to_multiset().len());
}

proof fn lemma_each_service(c: Candidate, filter: ScanFilter, j: int)
    requires
        filter is AllServices,
        kept(c, filter),
        0 <= j < filter->AllServices_0@.len(),
    ensures
        kept(c, ScanFilter::Service(filter->AllServices_0@[j])),
{
    let uuids = filter->AllServices_0@;
    assert(uuids.contains(uuids[j]));
    assert(c.properties->0.services@.contains(uuids[j]));
}

/// How the filters on services relate: one of several services is any of them, all of several
/// is each of them, and no filter on services keeps a device that advertises none, unless it
/// asks for none.
pub proof fn service_filters_agree(c: Candidate, uuids: Vec<Uuid>)
    ensures
        kept(c, ScanFilter::AnyService(uuids)) <==> exists|j: int|
            0 <= j < uuids@.len() && kept(c, ScanFilter::Service(#[trigger] uuids@[j])),
        uuids@.len() > 0 ==> (kept(c, ScanFilter::AllServices(uuids)) <==> forall|j: int|
            0 <= j < uuids@.len() ==> kept(c, ScanFilter::Service(#[trigger] uuids@[j]))),
{
    let services = c.properties->0.services@;
    devices_are_kept_if_wanted(c, ScanFilter::AnyService(uuids));
    devices_are_kept_if_wanted(c, ScanFilter::AllServices(uuids));
    assert forall|j: int| 0 <= j < uuids@.len() implies kept(
        c,
        ScanFilter::Service(#[trigger] uuids@[j]),
    ) == wanted(c, ScanFilter::Service(uuids@[j])) by {
        devices_are_kept_if_wanted(c, ScanFilter::Service(uuids@[j]));
    }
    if kept(c, ScanFilter::AnyService(uuids)) {
        let (i, j) = choose|i: int, j: int|
            0 <= i < services.len() && 0 <= j < uuids@.len() && #[trigger] services[i]
                == #[trigger] uuids@[j];
        assert(wanted(c, ScanFilter::Service(uuids@[j])));
    }
    if kept(c, ScanFilter::AllServices(uuids)) {
        assert forall|j: int| 0 <= j < uuids@.len() implies kept(
            c,
            ScanFilter::Service(#[trigger] uuids@[j]),
        ) by {
            lemma_each_service(c, ScanFilter::AllServices(uuids), j);
        }
    }
    if uuids@.len() > 0 && forall|j: int|
        0 <= j < uuids@.len() ==> kept(c, ScanFilter::Service(#[trigger] uuids@[j])) {
        assert(kept(c, ScanFilter::Service(uuids@[0])));
        assert forall|j: int| 0 <= j < uuids@.len() implies services.contains(
            #[trigger] uuids@[j],
        ) by {
            assert(kept(c, ScanFilter::Service(uuids@[j])));
        }
    }
}

/// A report holds every device that the backend described, each as often as it was described.
pub proof fn descriptions_are_reported(found: Seq<Found>, device: BleDevice)
    ensures
        by_address(described(found)).to_multiset().count(device) == found.map_values(
            |f: Found| f.device,
        ).to_multiset().count(Some(device)),
{
    reports_are_in_order(described(found));
    lemma_described_counts(found, device);
}

proof fn lemma_described_counts(found: Seq<Found>, device: BleDevice)
    ensures
        described(found).to_multiset().count(device) == found.map_values(
            |f: Found| f.device,
        ).to_multiset().count(Some(device)),
    decreases found.len(),
{
    broadcast use vstd::multiset::group_multiset_axioms;
    broadcast use vstd::seq_lib::group_to_multiset_ensures;

    let pick = |f: Found| f.device;
    let all = found.map_values(pick);
    if found.len() == 0 {
        assert(described(found).to_multiset() =~= vstd::multiset::Multiset::empty());
        assert(all.to_multiset() =~= vstd::multiset::Multiset::empty());
    } else {
        lemma_described_counts(found.drop_last(), device);
        let rest = found.drop_last().map_values(pick);
        assert(all =~= rest.push(found.last().device));
        assert(all.to_multiset() =~= rest.to_multiset().insert(found.last().device));
        match found.last().device {
            Some(d) => {
                let before = described(found.drop_last());
                assert(described(found) =~= before.push(d));
                assert(described(found).to_multiset() =~= before.to_multiset().insert(d));
            },
            None => {},
        }
    }
}

proof fn lemma_lex_reflexive(a: Seq<u8>)
    ensures
        lex_le(a, a),
    decreases a.len(),
{
    if a.len() > 0 {
        lemma_lex_reflexive(a.skip(1));
    }
}

proof fn lemma_put_filter(devices: Seq<BleDevice>, device: BleDevice, address: Seq<char>)
    ensures
        put_by_address(devices, device).filter(|d: BleDevice| d.address@ == address)
            =~= devices.push(device).filter(|d: BleDevice| d.address@ == address),
    decreases devices.len(),
{
    reveal(Seq::filter);
    assert(devices.push(device).drop_last() =~= devices);
    if devices.len() == 0 || not_after(devices.last(), device) {
    } else {
        let rest = devices.drop_last();
        let last = devices.last();
        let inner = put_by_address(rest, device);
        let f = |d: BleDevice| d.address@ == address;
        lemma_put_filter(rest, device, address);
        lemma_lex_reflexive(encode_utf8(device.address@));
        assert(rest.push(device).drop_last() =~= rest);
        assert(inner.push(last).drop_last() =~= inner);
        assert(!f(last) || !f(device));
        assert(rest.push(device).filter(f) == if f(device) {
            rest.filter(f).push(device)
        } else {
            rest.filter(f)
        });
        assert(devices.filter(f) == if f(last) {
            rest.filter(f).push(last)
        } else {
            rest.filter(f)
        });
        assert(devices.push(device).filter(f) == if f(device) {
            devices.filter(f).push(device)
        } else {
            devices.filter(f)
        });
        assert(inner.push(last).filter(f) == if f(last) {
            inner.filter(f).push(last)
        } else {
            inner.filter(f)
        });
    }
}

/// A report is ordered by the bytes of the addresses, and devices with one address stay in the
/// order in which they were described.
pub proof fn reports_are_sorted(devices: Seq<BleDevice>, address: Seq<char>)
    ensures
        by_address(devices).filter(|d: BleDevice| d.address@ == address) =~= devices.filter(
            |d: BleDevice| d.address@ == address,
        ),
        forall|i: int, j: int|
            0 <= i < j < by_address(devices).len() ==> lex_le(
                encode_utf8((#[trigger] by_address(devices)[i]).address@),
                encode_utf8((#[trigger] by_address(devices)[j]).address@),
            ),
    decreases devices.len(),
{
    reveal(Seq::filter);
    reports_are_in_order(devices);
    if devices.len() > 0 {
        let rest = devices.drop_last();
        reports_are_sorted(rest, address);
        lemma_put_filter(by_address(rest), devices.last(), address);
        assert(by_address(rest).push(devices.last()).drop_last() =~= by_address(rest));
    }
}

/// A report is empty exactly if nothing was described.
pub proof fn only_descriptions_are_reported(found: Seq<Found>)
    ensures
        by_address(described(found)).len() > 0 <==> exists|i: int|
            0 <= i < found.len() && (#[trigger] found[i]).device is Some,
{
    broadcast use vstd::seq_lib::group_to_multiset_ensures;

    let report = by_address(described(found));
    let pick = |f: Found| f.device;
    let all = found.map_values(pick);
    if report.len() > 0 {
        descriptions_are_reported(found, report[0]);
        assert(report.contains(report[0]));
        assert(report.to_multiset().count(report[0]) > 0);
        assert(all.contains(Some(report[0])));
        let i = choose|i: int| 0 <= i < all.len() && all[i] == Some(report[0]);
        assert(found[i].device is Some);
    }
    if exists|i: int| 0 <= i < found.len() && (#[trigger] found[i]).device is Some {
        let i = choose|i: int| 0 <= i < found.len() && (#[trigger] found[i]).device is Some;
        let device = found[i].device->0;
        descriptions_are_reported(found, device);
        assert(all[i] == Some(device));
        assert(all.contains(Some(device)));
        assert(all.to_multiset().count(Some(device)) > 0);
        assert(report.contains(device));
    }
}

/// Texts are ordered as their first difference is, and one that goes on comes after one that
/// ends.
pub proof fn order_is_by_the_first_difference(a: Seq<u8>, b: Seq<u8>)
    ensures
        lex_le(a, b) <==> (a.len() <= b.len() && a =~= b.take(a.len() as int)) || exists|k: int|
            0 <= k < a.len() && k < b.len() && a.take(k) =~= b.take(k) && #[trigger] a[k] < b[k],
    decreases a.len(),
{
    if a.len() > 0 && b.len() > 0 {
        let a1 = a.skip(1);
        let b1 = b.skip(1);
        if a[0] != b[0] {
            if a[0] < b[0] {
                assert(a.take(0) =~= b.take(0));
            } else {
                assert forall|k: int| 0 <= k < a.len() && k < b.len() && a.take(k) =~= b.take(
                    k,
                ) implies !(#[trigger] a[k] < b[k]) by {
                    if k > 0 {
                        assert(a.take(k)[0] == b.take(k)[0]);
                    }
                }
                if a.len() <= b.len() && a =~= b.take(a.len() as int) {
                    assert(a[0] == b.take(a.len() as int)[0]);
                }
            }
        } else {
            order_is_by_the_first_difference(a1, b1);
            if lex_le(a1, b1) {
                if a1.len() <= b1.len() && a1 =~= b1.take(a1.len() as int) {
                    assert forall|i: int| 0 <= i < a.len() implies a[i] == b[i] by {
                        if i > 0 {
                            assert(a1[i - 1] == b1.take(a1.len() as int)[i - 1]);
                        }
                    }
                    assert(a =~= b.take(a.len() as int));
                } else {
                    let k = choose|k: int|
                        0 <= k < a1.len() && k < b1.len() && a1.take(k) =~= b1.take(k)
                            && #[trigger] a1[k] < b1[k];
                    assert forall|i: int| 0 <= i < k + 1 implies a[i] == b[i] by {
                        if i > 0 {
                            assert(a1.take(k)[i - 1] == b1.take(k)[i - 1]);
                        }
                    }
                    assert(a.take(k + 1) =~= b.take(k + 1));
                    assert(a[k + 1] < b[k + 1]);
                }
            }
            if a.len() <= b.len() && a =~= b.take(a.len() as int) {
                assert forall|i: int| 0 <= i < a1.len() implies a1[i] == b1[i] by {
                    assert(a[i + 1] == b.take(a.len() as int)[i + 1]);
                }
                assert(a1 =~= b1.take(a1.len() as int));
            }
            if exists|k: int|
                0 <= k < a.len() && k < b.len() && a.take(k) =~= b.take(k) && #[trigger] a[k]
                    < b[k] {
                let k = choose|k: int|
                    0 <= k < a.len() && k < b.len() && a.take(k) =~= b.take(k) && #[trigger] a[k]
                        < b[k];
                assert forall|i: int| 0 <= i < k - 1 implies a1[i] == b1[i] by {
                    assert(a.take(k)[i + 1] == b.take(k)[i + 1]);
                }
                assert(a1.take(k - 1) =~= b1.take(k - 1));
                assert(a1[k - 1] < b1[k - 1]);
            }
        }
    } else if a.len() == 0 {
        assert(a =~= b.take(0));
    }
}

/// The value of an upper-case hex digit.
pub open spec fn digit(c: char) -> int {
    if '0' <= c <= '9' {
        c as int - '0' as int
    } else if 'A' <= c <= 'F' {
        c as int - 'A' as int + 10
    } else {
        -1
    }
}

/// The text of an address is six pairs of hex digits with colons between them, and each pair
/// reads as the byte in its place.
pub proof fn addresses_read_as_their_bytes(a: Address, i: int)
    requires
        0 <= i < 6,
    ensures
        addr_chars(a).len() == 17,
        digit(addr_chars(a)[3 * i]) * 16 + digit(addr_chars(a)[3 * i + 1]) == a[i],
        0 <= digit(addr_chars(a)[3 * i]) < 16,
        0 <= digit(addr_chars(a)[3 * i + 1]) < 16,
        i < 5 ==> addr_chars(a)[3 * i + 2] == ':',
{
    let x = a[i] as int;
    assert((3 * i) / 3 == i && (3 * i + 1) / 3 == i);
    assert((3 * i) % 3 == 0 && (3 * i + 1) % 3 == 1 && (3 * i + 2) % 3 == 2);
    assert(addr_chars(a)[3 * i] == upper_hex(x / 16));
    assert(addr_chars(a)[3 * i + 1] == upper_hex(x % 16));
    assert(0 <= x / 16 < 16 && 0 <= x % 16 < 16);
    assert(x == x / 16 * 16 + x % 16);
}

/// Every characteristic of every service is collected under its own uuid and its service's,
/// and nothing else is.
pub proof fn all_characteristics_are_collected(services: Seq<Service>, id: CharacId)
    ensures
        all_charac_ids(services).contains(id) <==> exists|i: int, j: int|
            0 <= i < services.len() && 0 <= j < services[i].characteristics@.len() && (
            #[trigger] services[i].characteristics@[j]).uuid == id.uuid
                && services[i].characteristics@[j].service_uuid == id.service_uuid,
    decreases services.len(),
{
    if services.len() > 0 {
        let rest = services.drop_last();
        let last = services.last().characteristics@;
        let ids = charac_ids(last);
        let n = services.len() - 1;
        all_characteristics_are_collected(rest, id);
        let all = all_charac_ids(services);
        assert(all == all_charac_ids(rest) + ids);
        if all.contains(id) {
            let k = choose|k: int| 0 <= k < all.len() && all[k] == id;
            if k < all_charac_ids(rest).len() {
                assert(all_charac_ids(rest)[k] == id);
                let (i, j) = choose|i: int, j: int|
                    0 <= i < rest.len() && 0 <= j < rest[i].characteristics@.len() && (
                    #[trigger] rest[i].characteristics@[j]).uuid == id.uuid
                        && rest[i].characteristics@[j].service_uuid == id.service_uuid;
                assert(services[i].characteristics@[j].uuid == id.uuid);
            } else {
                let j = k - all_charac_ids(rest).len();
                assert(ids[j] == id);
                assert(services[n].characteristics@[j].uuid == id.uuid);
            }
        }
        if exists|i: int, j: int|
            0 <= i < services.len() && 0 <= j < services[i].characteristics@.len() && (
            #[trigger] services[i].characteristics@[j]).uuid == id.uuid
                && services[i].characteristics@[j].service_uuid == id.service_uuid {
            let (i, j) = choose|i: int, j: int|
                0 <= i < services.len() && 0 <= j < services[i].characteristics@.len() && (
                #[trigger] services[i].characteristics@[j]).uuid == id.uuid
                    && services[i].characteristics@[j].service_uuid == id.service_uuid;
            if i < n {
                assert(rest[i].characteristics@[j].uuid == id.uuid);
                let k = choose|k: int|
                    0 <= k < all_charac_ids(rest).len() && all_charac_ids(rest)[k] == id;
                assert(all[k] == id);
            } else {
                assert(ids[j] == id);
                assert(all[all_charac_ids(rest).len() + j] == id);
            }
        }
    }
}

/// The characteristics come service by service: those of more services begin with those of
/// fewer, and go on with those of the next service in its order.
pub proof fn characteristics_come_in_order(services: Seq<Service>, next: Service)
    ensures
        ({
            let before = all_charac_ids(services);
            let after = all_charac_ids(services.push(next));
            &&& after.len() == before.len() + next.characteristics@.len()
            &&& after.take(before.len() as int) =~= before
            &&& forall|j: int|
                0 <= j < next.characteristics@.len() ==> (#[trigger] next.characteristics@[j]).uuid
                    == after[before.len() + j].uuid && next.characteristics@[j].service_uuid
                    == after[before.len() + j].service_uuid
        }),
{
    assert(services.push(next).drop_last() =~= services);
}

/// A call about a characteristic takes a connected device that has it, in the service if one is
/// given: it is about the first such characteristic. The errors say what is missing, the device
/// first.
pub proof fn calls_are_about_the_first_match<D, N>(
    h: HandlerView<D, N>,
    uuid: Uuid,
    service: Option<Uuid>,
    i: int,
)
    ensures
        ({
            let matches = |k: int|
                0 <= k < h.characs.len() && h.characs[k].uuid == uuid && (service is None
                    || h.characs[k].service_uuid == service->0);
            &&& h.connected_dev is None ==> target(h, uuid, service) == Err::<
                (Peripheral, CharacId),
                ErrorView,
            >(ErrorView::NoDeviceConnected)
            &&& h.connected_dev is Some && (forall|k: int| !#[trigger] matches(k)) ==> target(
                h,
                uuid,
                service,
            ) == Err::<(Peripheral, CharacId), ErrorView>(
                ErrorView::CharacNotAvailable(crate::error::uuid_chars(uuid)),
            )
            &&& h.connected_dev is Some && matches(i) && (forall|k: int|
                k < i ==> !#[trigger] matches(k)) ==> target(h, uuid, service) == Ok::<
                (Peripheral, CharacId),
                ErrorView,
            >((h.connected_dev->0, h.characs[i]))
        }),
{
    let matches = |k: int|
        0 <= k < h.characs.len() && h.characs[k].uuid == uuid && (service is None
            || h.characs[k].service_uuid == service->0);
    if forall|k: int| !#[trigger] matches(k) {
        characs_are_found(h.characs, uuid, service);
        assert forall|k: int| 0 <= k < h.characs.len() implies !is_charac(
            #[trigger] h.characs[k],
            uuid,
            service,
        ) by {
            assert(!matches(k));
        }
    }
    if matches(i) && (forall|k: int| k < i ==> !#[trigger] matches(k)) {
        assert forall|k: int| 0 <= k < i implies !is_charac(
            #[trigger] h.characs[k],
            uuid,
            service,
        ) by {
            assert(!matches(k));
        }
        lemma_first(h.characs, uuid, service, i);
    }
}

proof fn lemma_first(characs: Seq<CharacId>, uuid: Uuid, service: Option<Uuid>, i: int)
    requires
        0 <= i < characs.len(),
        is_charac(characs[i], uuid, service),
        forall|k: int|
            0 <= k < i ==> !is_charac(#[trigger] characs[k], uuid, service),
    ensures
        find_charac(characs, uuid, service) == Some(characs[i]),
    decreases i,
{
    if i > 0 {
        let rest = characs.skip(1);
        assert(!is_charac(characs[0], uuid, service));
        assert forall|k: int| 0 <= k < i - 1 implies !is_charac(
            #[trigger] rest[k],
            uuid,
            service,
        ) by {
            assert(rest[k] == characs[k + 1]);
        }
        lemma_first(rest, uuid, service, i - 1);
    }
}

/// A subscription that was made comes behind those there were, under the uuids of its
/// characteristic and service; one that failed leaves all as it was.
pub proof fn subscriptions_are_added<D, N>(h: HandlerView<D, N>, call: SubscribeCall<N>)
    ensures
        ({
            let h2 = subscribed(h, call, true);
            &&& h2 == (HandlerView { listeners: h2.listeners, ..h })
            &&& h2.listeners == h.listeners.push(
                Listener {
                    uuid: call.charac.uuid,
                    service: call.charac.service_uuid,
                    callback: call.callback,
                },
            )
        }),
        subscribed(h, call, false) == h,
{
}

/// Ending the subscriptions to a characteristic drops them, in whatever service they are, and
/// leaves the others in their order; a request that failed leaves all as it was.
pub proof fn subscriptions_are_dropped<D, N>(h: HandlerView<D, N>, uuid: Uuid, more: Listener<N>)
    ensures
        unsubscribed(h, uuid, false) == h,
        unsubscribed(h, uuid, true) == (HandlerView {
            listeners: unsubscribed(h, uuid, true).listeners,
            ..h
        }),
        h.listeners.len() == 0 ==> unsubscribed(h, uuid, true).listeners.len() == 0,
        ({
            let with = HandlerView { listeners: h.listeners.push(more), ..h };
            unsubscribed(with, uuid, true).listeners == if more.uuid == uuid {
                unsubscribed(h, uuid, true).listeners
            } else {
                unsubscribed(h, uuid, true).listeners.push(more)
            }
        }),
{
    reveal(Seq::filter);
    assert(h.listeners.push(more).drop_last() =~= h.listeners);
}

/// The outcome of a request with a time limit is passed on: its value, its failure, or that it
/// has run out of time, under the name of the command.
pub proof fn outcomes_are_passed_on<T>(value: T, e: BackendError, cmd: Seq<char>)
    ensures
        timed_result(Timed::Done(value), cmd) == Ok::<T, ErrorView>(value),
        timed_result(Timed::<T>::Failed(e), cmd) == Err::<T, ErrorView>(ErrorView::Btleplug(e)),
        timed_result(Timed::<T>::TimedOut, cmd) == Err::<T, ErrorView>(ErrorView::Timeout(cmd)),
{
}

/// The first adapter is the one that is used, and the application sees the state that the
/// backend reports; where it reports none, the state is not known.
pub proof fn adapters_are_seen_as_they_are(
    found: Vec<u64>,
    e: BackendError,
    state: CentralState,
)
    ensures
        found@.len() > 0 ==> first_adapter(Ok(found)) == Ok::<u64, ErrorView>(found@[0]),
        found@.len() == 0 ==> first_adapter(Ok(found)) == Err::<u64, ErrorView>(
            ErrorView::NoAdapters,
        ),
        first_adapter(Err(e)) == Err::<u64, ErrorView>(ErrorView::Btleplug(e)),
        adapter_state(Ok(state)) == AdapterState::On <==> state == CentralState::PoweredOn,
        adapter_state(Ok(state)) == AdapterState::Off <==> state == CentralState::PoweredOff,
        adapter_state(Err(e)) == AdapterState::Unknown,
{
}

/// The texts of errors that hold something begin with what has gone wrong and name what they
/// hold in full, whatever it is.
pub proof fn messages_name_what_they_are_about(s: Seq<char>, e: BackendError, what: String)
    ensures
        ErrorView::UnknownPeripheral(s).text() =~= "There is no peripheral with id: "@ + s,
        ErrorView::CharacNotAvailable(s).text() =~= "Characteristic "@ + s + " not available"@,
        ErrorView::Timeout(s).text() =~= "Timeout during execution of "@ + s,
        ErrorView::JoinError(s).text() =~= "Failed to join Task: "@ + s,
        ErrorView::Android(s).text() =~= "android: "@ + s,
        ErrorView::Btleplug(e).text() =~= "Btleplug error: "@ + e.text(),
        ErrorView::SendingState(true).text() == ErrorView::SendingState(false).text(),
        BackendError::NotSupported(what).text() =~= "The operation is not supported: "@ + what@,
        BackendError::RuntimeError(what).text() =~= "Runtime Error: "@ + what@,
        BackendError::Other(what).text() =~= what@,
{
}

/// The texts of errors that hold nothing say what has gone wrong.
pub proof fn messages_say_what_is_wrong(e: ErrorView)
    ensures
        e is NoDeviceConnected ==> e.text() == "No device connected"@,
        e is AlreadyConnected ==> e.text() == "Device is already connected."@,
        e is HandlerNotInitialized ==> e.text() == "Handler not initialized"@,
        e is SendingState ==> e.text() == "could not send State: channel closed"@,
        e is NoAdapters ==> e.text() == "no bluetooth adapters found"@,
        e is DisconnectFailed ==> e.text() == "Unknonwn error during disconnect"@,
        e is ConnectionFailed ==> e.text() == "Unknown error during connect"@,
        e is InvalidFilterMask ==> e.text() == "Mask must match manufacturer data length"@,
{
}

/// The hex digits of uuids are the digits from zero to nine and the letters from a to f.
pub proof fn hex_digits_are_in_order(d: int)
    requires
        0 <= d < 16,
    ensures
        d < 10 ==> lower_hex(d) as int == '0' as int + d,
        d >= 10 ==> lower_hex(d) as int == 'a' as int + d - 10,
{
}

} // verus!
