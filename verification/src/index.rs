//! The devices that scans have found, by address.

use crate::laws::values::descriptions_are_reported;
use crate::models::{BleDevice, Peripheral};
use vstd::prelude::*;
use vstd::utf8::encode_utf8;

verus! {

struct Entry {
    address: String,
    peripheral: Peripheral,
}

/// The peripherals found so far, each under its address.
pub struct DeviceIndex {
    entries: Vec<Entry>,
}

spec fn at(entries: Seq<Entry>, i: int, address: Seq<char>) -> bool {
    0 <= i < entries.len() && entries[i].address@ == address
}

spec fn place_of(entries: Seq<Entry>, address: Seq<char>) -> int {
    choose|i: int| at(entries, i, address)
}

spec fn as_map(entries: Seq<Entry>) -> Map<Seq<char>, Peripheral> {
    Map::new(
        |address: Seq<char>| exists|i: int| at(entries, i, address),
        |address: Seq<char>| entries[place_of(entries, address)].peripheral,
    )
}

impl View for DeviceIndex {
    type V = Map<Seq<char>, Peripheral>;

    closed spec fn view(&self) -> Map<Seq<char>, Peripheral> {
        as_map(self.entries@)
    }
}

/// The value under a key, if there is one.
pub open spec fn lookup<K, V>(map: Map<K, V>, key: K) -> Option<V> {
    if map.dom().contains(key) {
        Some(map[key])
    } else {
        None
    }
}

impl DeviceIndex {
    /// No address occurs twice.
    #[verifier::type_invariant]
    spec fn distinct(self) -> bool {
        forall|i: int, j: int|
            0 <= i < j < self.entries@.len() ==> (#[trigger] self.entries@[i]).address@ != (
            #[trigger] self.entries@[j]).address@
    }

    /// An index without devices.
    pub fn new() -> (index: Self)
        ensures
            index@ == Map::<Seq<char>, Peripheral>::empty(),
    {
        let index = DeviceIndex { entries: Vec::new() };
        proof {
            assert(index@ =~= Map::<Seq<char>, Peripheral>::empty());
        }
        index
    }

    /// The peripheral found under `address`.
    pub fn get(&self, address: &String) -> (found: Option<Peripheral>)
        ensures
            found == lookup(self@, address@),
    {
        proof {
            use_type_invariant(self);
        }
        let mut i: usize = 0;
        while i < self.entries.len()
            invariant
                i <= self.entries@.len(),
                self.distinct(),
                forall|k: int| 0 <= k < i ==> (#[trigger] self.entries@[k]).address@ != address@,
            decreases self.entries.len() - i,
        {
            if self.entries[i].address == *address {
                proof {
                    assert(at(self.entries@, i as int, address@));
                    let j = place_of(self.entries@, address@);
                    assert(at(self.entries@, j, address@));
                    assert(self.entries@[i as int].address@ == self.entries@[j].address@);
                }
                return Some(self.entries[i].peripheral);
            }
            i = i + 1;
        }
        None
    }

    /// Whether a peripheral was found under `address`.
    pub fn contains(&self, address: &String) -> (known: bool)
        ensures
            known == self@.dom().contains(address@),
    {
        self.get(address).is_some()
    }

    /// A peripheral with this id, whatever its address.
    pub fn find_by_id(&self, id: u64) -> (found: Option<Peripheral>)
        ensures
            found is Some <==> exists|a: Seq<char>| #[trigger]
                self@.dom().contains(a) && self@[a].id == id,
            found matches Some(p) ==> p.id == id && exists|a: Seq<char>| #[trigger]
                self@.dom().contains(a) && self@[a] == p,
    {
        proof {
            use_type_invariant(self);
        }
        let mut i: usize = 0;
        while i < self.entries.len()
            invariant
                i <= self.entries@.len(),
                self.distinct(),
                forall|k: int| 0 <= k < i ==> (#[trigger] self.entries@[k]).peripheral.id != id,
            decreases self.entries.len() - i,
        {
            if self.entries[i].peripheral.id == id {
                proof {
                    let address = self.entries@[i as int].address@;
                    assert(at(self.entries@, i as int, address));
                    let j = place_of(self.entries@, address);
                    assert(at(self.entries@, j, address));
                    assert(self.entries@[i as int].address@ == self.entries@[j].address@);
                    assert(self@.dom().contains(address));
                }
                return Some(self.entries[i].peripheral);
            }
            i = i + 1;
        }
        None
    }

    /// Puts `peripheral` under `address`, in place of what was there.
    pub fn insert(&mut self, address: String, peripheral: Peripheral)
        ensures
            final(self)@ == old(self)@.insert(address@, peripheral),
    {
        proof {
            use_type_invariant(&*self);
        }
        let ghost before = self.entries@;
        let mut entries: Vec<Entry> = Vec::new();
        std::mem::swap(&mut entries, &mut self.entries);
        let mut i: usize = 0;
        while i < entries.len() && entries[i].address != address
            invariant
                i <= entries@.len(),
                entries@ == before,
                forall|k: int| 0 <= k < i ==> (#[trigger] entries@[k]).address@ != address@,
            decreases entries.len() - i,
        {
            i = i + 1;
        }
        let ghost key = address@;
        let entry = Entry { address, peripheral };
        if i < entries.len() {
            entries.set(i, entry);
        } else {
            entries.push(entry);
        }
        proof {
            let after = entries@;
            assert(at(after, i as int, key));
            assert forall|a: Seq<char>| #[trigger]
                as_map(after).dom().contains(a) == as_map(before).insert(
                    key,
                    peripheral,
                ).dom().contains(a) by {
                if as_map(before).dom().contains(a) && a != key {
                    let j = place_of(before, a);
                    assert(at(before, j, a));
                    assert(at(after, j, a));
                }
                if as_map(after).dom().contains(a) && a != key {
                    let j = place_of(after, a);
                    assert(at(after, j, a));
                    assert(at(before, j, a));
                }
            }
            assert forall|a: Seq<char>| #[trigger] as_map(after).dom().contains(a) implies as_map(
                after,
            )[a] == as_map(before).insert(key, peripheral)[a] by {
                let j = place_of(after, a);
                assert(at(after, j, a));
                if a == key {
                    assert(j == i);
                } else {
                    let k = place_of(before, a);
                    assert(at(before, j, a));
                    assert(at(before, k, a));
                    assert(before[j].address@ == before[k].address@);
                    assert(j == k);
                }
            }
            assert(as_map(after) =~= as_map(before).insert(key, peripheral));
        }
        self.entries = entries;
    }

    /// Forgets every device.
    pub fn clear(&mut self)
        ensures
            final(self)@ == Map::<Seq<char>, Peripheral>::empty(),
    {
        self.entries = Vec::new();
        proof {
            assert(self@ =~= Map::<Seq<char>, Peripheral>::empty());
        }
    }

    /// Puts every device that the backend could describe into the index, and returns
    /// their descriptions ordered by address.
    pub fn add_devices(&mut self, discovered: Vec<Found>) -> (devices: Vec<BleDevice>)
        ensures
            final(self)@ == indexed(old(self)@, discovered@),
            devices@ == by_address(described(discovered@)),
            forall|device: BleDevice| #[trigger]
                devices@.to_multiset().count(device) == discovered@.map_values(
                    |found: Found| found.device,
                ).to_multiset().count(Some(device)),
            in_address_order(devices@),
    {
        let mut devices: Vec<BleDevice> = Vec::new();
        let ghost all = discovered@;
        proof {
            assert(all.take(0) =~= Seq::<Found>::empty());
        }
        for found in it: discovered
            invariant
                it.seq() == all,
                self@ == indexed(old(self)@, all.take(it.index() as int)),
                devices@ == by_address(described(all.take(it.index() as int))),
        {
            proof {
                let n = it.index() as int;
                assert(all.take(n + 1).drop_last() =~= all.take(n));
                assert(all.take(n + 1).last() == found);
            }
            match found.device {
                Some(device) => {
                    self.insert(device.address.clone(), found.peripheral);
                    proof {
                        let n = it.index() as int;
                        assert(described(all.take(n + 1)).drop_last() =~= described(all.take(n)));
                    }
                    put(&mut devices, device);
                },
                None => {},
            }
        }
        proof {
            assert(all.take(all.len() as int) =~= all);
            assert forall|device: BleDevice| #[trigger]
                devices@.to_multiset().count(device) == all.map_values(
                    |found: Found| found.device,
                ).to_multiset().count(Some(device)) by {
                descriptions_are_reported(all, device);
            }
            reports_are_in_order(described(all));
        }
        devices
    }
}

/// A peripheral a scan came across, with its description if the backend could give one.
pub struct Found {
    pub peripheral: Peripheral,
    pub device: Option<BleDevice>,
}

/// The descriptions among the devices found, in order.
pub open spec fn described(found: Seq<Found>) -> Seq<BleDevice>
    decreases found.len(),
{
    if found.len() == 0 {
        Seq::empty()
    } else {
        match found.last().device {
            Some(device) => described(found.drop_last()).push(device),
            None => described(found.drop_last()),
        }
    }
}

/// An index after the devices that could be described were put into it, in order.
pub open spec fn indexed(
    index: Map<Seq<char>, Peripheral>,
    found: Seq<Found>,
) -> Map<Seq<char>, Peripheral>
    decreases found.len(),
{
    if found.len() == 0 {
        index
    } else {
        match found.last().device {
            Some(device) => indexed(index, found.drop_last()).insert(
                device.address@,
                found.last().peripheral,
            ),
            None => indexed(index, found.drop_last()),
        }
    }
}

/// Whether `a` does not come after `b` in lexicographic order.
pub open spec fn lex_le(a: Seq<u8>, b: Seq<u8>) -> bool
    decreases a.len(),
{
    if a.len() == 0 {
        true
    } else if b.len() == 0 {
        false
    } else if a[0] != b[0] {
        a[0] < b[0]
    } else {
        lex_le(a.skip(1), b.skip(1))
    }
}

/// Whether the address of `a` does not come after that of `b`, compared byte by byte.
pub open spec fn not_after(a: BleDevice, b: BleDevice) -> bool {
    lex_le(encode_utf8(a.address@), encode_utf8(b.address@))
}

/// Puts a device behind all those that do not come after it.
pub open spec fn put_by_address(devices: Seq<BleDevice>, device: BleDevice) -> Seq<BleDevice>
    decreases devices.len(),
{
    if devices.len() == 0 || not_after(devices.last(), device) {
        devices.push(device)
    } else {
        put_by_address(devices.drop_last(), device).push(devices.last())
    }
}

/// The devices in the order of their addresses; those with equal addresses stay in order.
pub open spec fn by_address(devices: Seq<BleDevice>) -> Seq<BleDevice>
    decreases devices.len(),
{
    if devices.len() == 0 {
        devices
    } else {
        put_by_address(by_address(devices.drop_last()), devices.last())
    }
}

fn text_le(a: &str, b: &str) -> (le: bool)
    ensures
        le == lex_le(encode_utf8(a@), encode_utf8(b@)),
{
    let x = a.as_bytes();
    let y = b.as_bytes();
    let mut i: usize = 0;
    proof {
        assert(x@.skip(0) =~= x@);
        assert(y@.skip(0) =~= y@);
    }
    while i < x.len() && i < y.len() && x[i] == y[i]
        invariant
            i <= x@.len(),
            i <= y@.len(),
            lex_le(x@, y@) == lex_le(x@.skip(i as int), y@.skip(i as int)),
        decreases x.len() - i,
    {
        proof {
            assert(x@.skip(i as int).skip(1) =~= x@.skip(i + 1));
            assert(y@.skip(i as int).skip(1) =~= y@.skip(i + 1));
        }
        i = i + 1;
    }
    if i == x.len() {
        true
    } else if i == y.len() {
        false
    } else {
        x[i] < y[i]
    }
}

fn put(devices: &mut Vec<BleDevice>, device: BleDevice)
    ensures
        final(devices)@ == put_by_address(old(devices)@, device),
{
    let ghost before = devices@;
    let mut i: usize = devices.len();
    proof {
        assert(before.take(i as int) =~= before);
        assert(before.skip(i as int) =~= Seq::<BleDevice>::empty());
        assert(put_by_address(before, device) =~= put_by_address(before.take(i as int), device)
            + before.skip(i as int));
    }
    while i > 0 && !text_le(devices[i - 1].address.as_str(), device.address.as_str())
        invariant
            i <= devices@.len(),
            devices@ == before,
            put_by_address(before, device) == put_by_address(before.take(i as int), device)
                + before.skip(i as int),
        decreases i,
    {
        i = i - 1;
        proof {
            let shorter = before.take(i as int);
            assert(before.take(i + 1).drop_last() =~= shorter);
            assert(seq![before[i as int]] + before.skip(i + 1) =~= before.skip(i as int));
            assert(put_by_address(shorter, device).push(before[i as int]) + before.skip(i + 1)
                =~= put_by_address(shorter, device) + before.skip(i as int));
        }
    }
    devices.insert(i, device);
    proof {
        assert(devices@ =~= before.take(i as int).push(device) + before.skip(i as int));
    }
}

proof fn lemma_lex_total(a: Seq<u8>, b: Seq<u8>)
    ensures
        lex_le(a, b) || lex_le(b, a),
    decreases a.len(),
{
    if a.len() > 0 && b.len() > 0 && a[0] == b[0] {
        lemma_lex_total(a.skip(1), b.skip(1));
    }
}

proof fn lemma_lex_transitive(a: Seq<u8>, b: Seq<u8>, c: Seq<u8>)
    requires
        lex_le(a, b),
        lex_le(b, c),
    ensures
        lex_le(a, c),
    decreases a.len(),
{
    if a.len() > 0 && b.len() > 0 && c.len() > 0 && a[0] == b[0] && b[0] == c[0] {
        lemma_lex_transitive(a.skip(1), b.skip(1), c.skip(1));
    }
}

/// Whether no device comes before one that stands ahead of it.
pub open spec fn in_address_order(devices: Seq<BleDevice>) -> bool {
    forall|i: int, j: int|
        0 <= i < j < devices.len() ==> not_after(#[trigger] devices[i], #[trigger] devices[j])
}

proof fn lemma_put_sorted(devices: Seq<BleDevice>, device: BleDevice)
    requires
        in_address_order(devices),
    ensures
        in_address_order(put_by_address(devices, device)),
        put_by_address(devices, device).to_multiset() == devices.to_multiset().insert(device),
    decreases devices.len(),
{
    broadcast use vstd::seq_lib::group_to_multiset_ensures;

    let r = put_by_address(devices, device);
    let key = encode_utf8(device.address@);
    if devices.len() == 0 {
    } else if not_after(devices.last(), device) {
        assert forall|i: int, j: int| 0 <= i < j < r.len() implies not_after(
            #[trigger] r[i],
            #[trigger] r[j],
        ) by {
            if j == devices.len() && i < devices.len() - 1 {
                assert(not_after(devices[i], devices[devices.len() - 1]));
                lemma_lex_transitive(
                    encode_utf8(devices[i].address@),
                    encode_utf8(devices.last().address@),
                    key,
                );
            }
        }
    } else {
        let rest = devices.drop_last();
        let last = devices.last();
        let inner = put_by_address(rest, device);
        assert(in_address_order(rest)) by {
            assert forall|i: int, j: int| 0 <= i < j < rest.len() implies not_after(
                #[trigger] rest[i],
                #[trigger] rest[j],
            ) by {
                assert(not_after(devices[i], devices[j]));
            }
        }
        lemma_put_sorted(rest, device);
        lemma_lex_total(encode_utf8(last.address@), key);
        assert(devices =~= rest.push(last));
        assert(inner.to_multiset() == rest.to_multiset().insert(device));
        assert(r.to_multiset() =~= devices.to_multiset().insert(device));
        assert forall|i: int, j: int| 0 <= i < j < r.len() implies not_after(
            #[trigger] r[i],
            #[trigger] r[j],
        ) by {
            if j == inner.len() {
                assert(inner.to_multiset().count(inner[i]) > 0);
                if inner[i] != device {
                    assert(rest.to_multiset().count(inner[i]) > 0);
                    assert(rest.contains(inner[i]));
                    let k = choose|k: int| 0 <= k < rest.len() && rest[k] == inner[i];
                    assert(not_after(devices[k], devices[devices.len() - 1]));
                }
            }
        }
    }
}

/// The devices that a scan reports are ordered by address, and they are those that the
/// backend described, each as often as it did.
pub proof fn reports_are_in_order(devices: Seq<BleDevice>)
    ensures
        in_address_order(by_address(devices)),
        by_address(devices).to_multiset() == devices.to_multiset(),
    decreases devices.len(),
{
    broadcast use vstd::seq_lib::group_to_multiset_ensures;

    if devices.len() > 0 {
        reports_are_in_order(devices.drop_last());
        lemma_put_sorted(by_address(devices.drop_last()), devices.last());
        assert(devices =~= devices.drop_last().push(devices.last()));
    }
}

/// A device that the backend described can be looked up afterwards: its address leads to the
/// peripheral that was described with it last.
pub proof fn reported_devices_are_known(
    index: Map<Seq<char>, Peripheral>,
    found: Seq<Found>,
    address: Seq<char>,
    i: int,
)
    requires
        0 <= i < found.len(),
        names(found[i], address),
        forall|j: int| i < j < found.len() ==> !names(#[trigger] found[j], address),
    ensures
        lookup(indexed(index, found), address) == Some(found[i].peripheral),
    decreases found.len(),
{
    if i < found.len() - 1 {
        assert(!names(found[found.len() - 1], address));
        reported_devices_are_known(index, found.drop_last(), address, i);
    }
}

/// What an address led to before, it leads to still if no such device was described.
pub proof fn other_devices_stay_known(
    index: Map<Seq<char>, Peripheral>,
    found: Seq<Found>,
    address: Seq<char>,
)
    requires
        forall|i: int| 0 <= i < found.len() ==> !names(#[trigger] found[i], address),
    ensures
        lookup(indexed(index, found), address) == lookup(index, address),
    decreases found.len(),
{
    if found.len() > 0 {
        assert(!names(found[found.len() - 1], address));
        other_devices_stay_known(index, found.drop_last(), address);
    }
}

/// Whether the backend described the peripheral as the device with this address.
pub open spec fn names(found: Found, address: Seq<char>) -> bool {
    found.device matches Some(device) && device.address@ == address
}

} // verus!
