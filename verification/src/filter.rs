//! Which of the devices in range a scan reports.

use crate::error::{Error, ErrorView};
use crate::models::{Peripheral, Properties, ScanFilter, Uuid};
use vstd::multiset::Multiset;
use vstd::prelude::*;

verus! {

/// A peripheral in range, with what it advertises if the backend could tell.
pub struct Candidate {
    pub peripheral: Peripheral,
    pub properties: Option<Properties>,
}

/// Whether `data` equals `value` in the bits of `mask`, as far as all three reach.
pub open spec fn masked_eq(data: Seq<u8>, value: Seq<u8>, mask: Seq<u8>) -> bool {
    forall|i: int|
        0 <= i < data.len() && i < value.len() && i < mask.len() ==> #[trigger] data[i] & mask[i]
            == value[i] & mask[i]
}

/// Whether what a device advertises meets the filter.
pub open spec fn meets(properties: Properties, filter: ScanFilter) -> bool {
    match filter {
        ScanFilter::Unfiltered => true,
        ScanFilter::Service(uuid) => properties.services@.contains(uuid),
        ScanFilter::AnyService(uuids) => exists|uuid: Uuid| #[trigger]
            properties.services@.contains(uuid) && uuids@.contains(uuid),
        ScanFilter::AllServices(uuids) => forall|uuid: Uuid| #[trigger]
            uuids@.contains(uuid) ==> properties.services@.contains(uuid),
        ScanFilter::ManufacturerData(key, value) => {
            &&& properties.manufacturer_data@.dom().contains(key)
            &&& properties.manufacturer_data@[key]@ == value@
        },
        ScanFilter::ManufacturerDataMasked(key, value, mask) => {
            &&& properties.manufacturer_data@.dom().contains(key)
            &&& masked_eq(properties.manufacturer_data@[key]@, value@, mask@)
        },
    }
}

/// Whether a scan reports the device. Under any filter but `Unfiltered`, a device whose
/// properties are not known or whose signal is not received is left out.
pub open spec fn kept(candidate: Candidate, filter: ScanFilter) -> bool {
    filter is Unfiltered || match candidate.properties {
        None => false,
        Some(properties) => properties.rssi is Some && meets(properties, filter),
    }
}

/// The list without its `i`-th element, whose place the last element takes.
pub open spec fn swap_removed<A>(list: Seq<A>, i: int) -> Seq<A> {
    list.update(i, list.last()).drop_last()
}

/// The list after the elements before `n` were visited from the back, each one that the
/// filter does not keep being replaced by the last element.
pub open spec fn sifted(list: Seq<Candidate>, filter: ScanFilter, n: nat) -> Seq<Candidate>
    decreases n,
{
    if n == 0 {
        list
    } else if kept(list[n - 1], filter) {
        sifted(list, filter, (n - 1) as nat)
    } else {
        sifted(swap_removed(list, n - 1), filter, (n - 1) as nat)
    }
}

/// Whether a filter can be used: a mask must be as long as the data it goes with.
pub open spec fn usable(filter: ScanFilter) -> bool {
    match filter {
        ScanFilter::ManufacturerDataMasked(_, data, mask) => data@.len() == mask@.len(),
        _ => true,
    }
}

/// Refuses a filter whose mask is not as long as its data.
pub fn check_filter(filter: &ScanFilter) -> (result: Result<(), Error>)
    ensures
        result is Ok <==> usable(*filter),
        result matches Err(e) ==> e@ == ErrorView::InvalidFilterMask,
{
    match filter {
        ScanFilter::ManufacturerDataMasked(_, data, mask) => {
            if data.len() != mask.len() {
                Err(Error::InvalidFilterMask)
            } else {
                Ok(())
            }
        },
        _ => Ok(()),
    }
}

fn listed(uuids: &Vec<Uuid>, uuid: Uuid) -> (found: bool)
    ensures
        found == uuids@.contains(uuid),
{
    let mut i: usize = 0;
    while i < uuids.len()
        invariant
            i <= uuids@.len(),
            forall|k: int| 0 <= k < i ==> uuids@[k] != uuid,
        decreases uuids.len() - i,
    {
        if uuids[i] == uuid {
            return true;
        }
        i = i + 1;
    }
    false
}

fn has_any(services: &Vec<Uuid>, uuids: &Vec<Uuid>) -> (found: bool)
    ensures
        found == exists|uuid: Uuid| #[trigger] services@.contains(uuid) && uuids@.contains(uuid),
{
    let mut i: usize = 0;
    while i < services.len()
        invariant
            i <= services@.len(),
            forall|k: int| 0 <= k < i ==> !uuids@.contains(#[trigger] services@[k]),
        decreases services.len() - i,
    {
        if listed(uuids, services[i]) {
            assert(services@.contains(services@[i as int]));
            return true;
        }
        i = i + 1;
    }
    false
}

fn has_all(services: &Vec<Uuid>, uuids: &Vec<Uuid>) -> (all: bool)
    ensures
        all == forall|uuid: Uuid| #[trigger] uuids@.contains(uuid) ==> services@.contains(uuid),
{
    let mut i: usize = 0;
    while i < uuids.len()
        invariant
            i <= uuids@.len(),
            forall|k: int| 0 <= k < i ==> services@.contains(#[trigger] uuids@[k]),
        decreases uuids.len() - i,
    {
        if !listed(services, uuids[i]) {
            assert(uuids@.contains(uuids@[i as int]));
            return false;
        }
        i = i + 1;
    }
    true
}

fn masked_match(data: &Vec<u8>, value: &Vec<u8>, mask: &Vec<u8>) -> (same: bool)
    ensures
        same == masked_eq(data@, value@, mask@),
{
    let mut i: usize = 0;
    while i < data.len() && i < value.len() && i < mask.len()
        invariant
            i <= data@.len(),
            forall|k: int| 0 <= k < i ==> #[trigger] data@[k] & mask@[k] == value@[k] & mask@[k],
        decreases data.len() - i,
    {
        if data[i] & mask[i] != value[i] & mask[i] {
            return false;
        }
        i = i + 1;
    }
    true
}

fn passes(candidate: &Candidate, filter: &ScanFilter) -> (pass: bool)
    ensures
        pass == kept(*candidate, *filter),
{
    broadcast use vstd::std_specs::hash::group_hash_axioms;

    if let ScanFilter::Unfiltered = filter {
        return true;
    }
    let properties = match &candidate.properties {
        Some(properties) => properties,
        None => {
            return false;
        },
    };
    if properties.rssi.is_none() {
        return false;
    }
    match filter {
        ScanFilter::Unfiltered => true,
        ScanFilter::Service(uuid) => listed(&properties.services, *uuid),
        ScanFilter::AnyService(uuids) => has_any(&properties.services, uuids),
        ScanFilter::AllServices(uuids) => has_all(&properties.services, uuids),
        ScanFilter::ManufacturerData(key, value) => match properties.manufacturer_data.get(key) {
            Some(data) => {
                let same: bool = *data == *value;
                assert(same ==> data@ =~= value@);
                same
            },
            None => false,
        },
        ScanFilter::ManufacturerDataMasked(key, value, mask) => {
            match properties.manufacturer_data.get(key) {
                Some(data) => masked_match(data, value, mask),
                None => false,
            }
        },
    }
}

/// Takes the devices that the filter does not keep out of the list.
pub fn filter_peripherals(discovered: &mut Vec<Candidate>, filter: &ScanFilter)
    ensures
        final(discovered)@ == sifted(old(discovered)@, *filter, old(discovered)@.len()),
{
    let ghost before = discovered@;
    let mut n: usize = discovered.len();
    while n > 0
        invariant
            n <= discovered@.len(),
            sifted(before, *filter, before.len()) == sifted(discovered@, *filter, n as nat),
        decreases n,
    {
        n = n - 1;
        if !passes(&discovered[n], filter) {
            let ghost list = discovered@;
            discovered.swap_remove(n);
            proof {
                assert(discovered@ =~= swap_removed(list, n as int));
            }
        }
    }
}

/// Filtering keeps exactly the devices that the filter keeps, each as often as it was
/// there; only their order changes.
pub proof fn filtering_keeps_the_right_devices(list: Seq<Candidate>, filter: ScanFilter)
    ensures
        sifted(list, filter, list.len()).to_multiset() == list.to_multiset().filter(
            |c: Candidate| kept(c, filter),
        ),
        forall|i: int|
            0 <= i < sifted(list, filter, list.len()).len() ==> kept(
                #[trigger] sifted(list, filter, list.len())[i],
                filter,
            ),
{
    lemma_sifted(list, filter, list.len());
    let out = sifted(list, filter, list.len());
    let keep = |c: Candidate| kept(c, filter);
    assert(list.take(list.len() as int) =~= list);
    assert(list.skip(list.len() as int) =~= Seq::<Candidate>::empty());
    broadcast use vstd::multiset::group_multiset_axioms;
    broadcast use vstd::seq_lib::group_to_multiset_ensures;

    assert(out.to_multiset() =~= list.to_multiset().filter(keep));
    assert forall|i: int| 0 <= i < out.len() implies kept(#[trigger] out[i], filter) by {
        assert(out.to_multiset().count(out[i]) > 0);
    }
}

/// An unfiltered scan reports every device in range.
pub proof fn unfiltered_keeps_everything(list: Seq<Candidate>, n: nat)
    requires
        n <= list.len(),
    ensures
        sifted(list, ScanFilter::Unfiltered, n) == list,
    decreases n,
{
    if n > 0 {
        unfiltered_keeps_everything(list, (n - 1) as nat);
    }
}

proof fn lemma_sifted(list: Seq<Candidate>, filter: ScanFilter, n: nat)
    requires
        n <= list.len(),
    ensures
        sifted(list, filter, n).to_multiset() =~= list.take(n as int).to_multiset().filter(
            |c: Candidate| kept(c, filter),
        ).add(list.skip(n as int).to_multiset()),
    decreases n,
{
    broadcast use vstd::multiset::group_multiset_axioms;
    broadcast use vstd::seq_lib::group_to_multiset_ensures;

    let keep = |c: Candidate| kept(c, filter);
    if n == 0 {
        assert(list.take(0) =~= Seq::<Candidate>::empty());
        assert(list.skip(0) =~= list);
    } else {
        let x = list[n - 1];
        let m = (n - 1) as nat;
        let head = list.take(m as int);
        let tail = list.skip(n as int);
        assert(list.take(n as int) =~= head.push(x));
        assert(list.skip(m as int) =~= seq![x] + tail);
        vstd::seq_lib::lemma_multiset_commutative(seq![x], tail);
        assert(seq![x].to_multiset() =~= Multiset::singleton(x)) by {
            assert(seq![x] =~= Seq::<Candidate>::empty().push(x));
        }
        if keep(x) {
            lemma_sifted(list, filter, m);
        } else {
            let rest = swap_removed(list, m as int);
            lemma_sifted(rest, filter, m);
            assert(rest.take(m as int) =~= head);
            if tail.len() == 0 {
                assert(rest.skip(m as int) =~= tail);
            } else {
                let body = tail.drop_last();
                assert(rest.skip(m as int) =~= seq![tail.last()] + body);
                assert(tail =~= body + seq![tail.last()]);
                vstd::seq_lib::lemma_multiset_commutative(seq![tail.last()], body);
                vstd::seq_lib::lemma_multiset_commutative(body, seq![tail.last()]);
                assert(rest.skip(m as int).to_multiset() =~= tail.to_multiset());
            }
        }
    }
}

} // verus!
