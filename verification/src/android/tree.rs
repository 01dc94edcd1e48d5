//! The services of a device as ordered sets.

use crate::models::{Characteristic, Descriptor, Service, Uuid};
use vstd::prelude::*;

verus! {

/// Values in a total order.
pub trait Ranked: View + Sized {
    /// Whether `a` comes before `b`.
    spec fn before(a: Self::V, b: Self::V) -> bool;

    proof fn before_is_total(a: Self::V, b: Self::V)
        ensures
            Self::before(a, b) || Self::before(b, a) || a == b,
    ;

    proof fn before_is_strict(a: Self::V, b: Self::V)
        requires
            Self::before(a, b),
        ensures
            a != b,
            !Self::before(b, a),
    ;

    proof fn before_is_transitive(a: Self::V, b: Self::V, c: Self::V)
        requires
            Self::before(a, b),
            Self::before(b, c),
        ensures
            Self::before(a, c),
    ;

    /// Whether this value comes before the other.
    fn precedes(&self, other: &Self) -> (precedes: bool)
        ensures
            precedes == Self::before(self@, other@),
    ;
}

/// The views of the values in a list.
pub open spec fn views<T: Ranked>(list: Seq<T>) -> Seq<T::V> {
    list.map_values(|x: T| x@)
}

/// Whether a list comes before another, compared value by value.
pub open spec fn list_before<T: Ranked>(a: Seq<T::V>, b: Seq<T::V>) -> bool
    decreases a.len(),
{
    if b.len() == 0 {
        false
    } else if a.len() == 0 {
        true
    } else if a[0] != b[0] {
        T::before(a[0], b[0])
    } else {
        list_before::<T>(a.skip(1), b.skip(1))
    }
}

proof fn lemma_list_total<T: Ranked>(a: Seq<T::V>, b: Seq<T::V>)
    ensures
        list_before::<T>(a, b) || list_before::<T>(b, a) || a == b,
    decreases a.len(),
{
    if a.len() > 0 && b.len() > 0 {
        if a[0] == b[0] {
            lemma_list_total::<T>(a.skip(1), b.skip(1));
            if a.skip(1) == b.skip(1) {
                assert(a =~= seq![a[0]] + a.skip(1));
                assert(b =~= seq![b[0]] + b.skip(1));
            }
        } else {
            T::before_is_total(a[0], b[0]);
        }
    } else if a.len() == 0 && b.len() == 0 {
        assert(a =~= b);
    }
}

proof fn lemma_list_strict<T: Ranked>(a: Seq<T::V>, b: Seq<T::V>)
    requires
        list_before::<T>(a, b),
    ensures
        a != b,
        !list_before::<T>(b, a),
    decreases a.len(),
{
    if a.len() > 0 {
        if a[0] == b[0] {
            lemma_list_strict::<T>(a.skip(1), b.skip(1));
        } else {
            T::before_is_strict(a[0], b[0]);
        }
    }
}

proof fn lemma_list_transitive<T: Ranked>(a: Seq<T::V>, b: Seq<T::V>, c: Seq<T::V>)
    requires
        list_before::<T>(a, b),
        list_before::<T>(b, c),
    ensures
        list_before::<T>(a, c),
    decreases a.len(),
{
    if a.len() > 0 {
        if a[0] == b[0] && b[0] == c[0] {
            lemma_list_transitive::<T>(a.skip(1), b.skip(1), c.skip(1));
        } else if a[0] != b[0] && b[0] != c[0] {
            T::before_is_transitive(a[0], b[0], c[0]);
            T::before_is_strict(a[0], c[0]);
        }
    }
}

fn list_precedes<T: Ranked>(a: &Vec<T>, b: &Vec<T>) -> (precedes: bool)
    ensures
        precedes == list_before::<T>(views(a@), views(b@)),
{
    let mut i: usize = 0;
    let ghost x = views(a@);
    let ghost y = views(b@);
    proof {
        assert(x.skip(0) =~= x);
        assert(y.skip(0) =~= y);
    }
    while i < a.len() && i < b.len()
        invariant
            i <= a@.len(),
            i <= b@.len(),
            x == views(a@),
            y == views(b@),
            list_before::<T>(x, y) == list_before::<T>(x.skip(i as int), y.skip(i as int)),
        decreases a.len() - i,
    {
        proof {
            assert(x.skip(i as int)[0] == a@[i as int]@);
            assert(y.skip(i as int)[0] == b@[i as int]@);
            T::before_is_total(a@[i as int]@, b@[i as int]@);
        }
        if a[i].precedes(&b[i]) {
            proof {
                T::before_is_strict(a@[i as int]@, b@[i as int]@);
            }
            return true;
        }
        if b[i].precedes(&a[i]) {
            proof {
                T::before_is_strict(b@[i as int]@, a@[i as int]@);
            }
            return false;
        }
        proof {
            assert(x.skip(i as int).skip(1) =~= x.skip(i + 1));
            assert(y.skip(i as int).skip(1) =~= y.skip(i + 1));
        }
        i = i + 1;
    }
    i < b.len()
}

impl View for Descriptor {
    type V = Descriptor;

    open spec fn view(&self) -> Descriptor {
        *self
    }
}

impl Ranked for Descriptor {
    open spec fn before(a: Descriptor, b: Descriptor) -> bool {
        if a.uuid != b.uuid {
            a.uuid < b.uuid
        } else if a.service_uuid != b.service_uuid {
            a.service_uuid < b.service_uuid
        } else {
            a.characteristic_uuid < b.characteristic_uuid
        }
    }

    proof fn before_is_total(a: Descriptor, b: Descriptor) {
    }

    proof fn before_is_strict(a: Descriptor, b: Descriptor) {
    }

    proof fn before_is_transitive(a: Descriptor, b: Descriptor, c: Descriptor) {
    }

    fn precedes(&self, other: &Descriptor) -> (precedes: bool) {
        if self.uuid != other.uuid {
            self.uuid < other.uuid
        } else if self.service_uuid != other.service_uuid {
            self.service_uuid < other.service_uuid
        } else {
            self.characteristic_uuid < other.characteristic_uuid
        }
    }
}

/// A [`Characteristic`] with its descriptors viewed.
#[verifier::ext_equal]
pub ghost struct CharacteristicView {
    pub uuid: Uuid,
    pub service_uuid: Uuid,
    pub properties: u8,
    pub descriptors: Seq<Descriptor>,
}

impl View for Characteristic {
    type V = CharacteristicView;

    open spec fn view(&self) -> CharacteristicView {
        CharacteristicView {
            uuid: self.uuid,
            service_uuid: self.service_uuid,
            properties: self.properties,
            descriptors: views(self.descriptors@),
        }
    }
}

impl Ranked for Characteristic {
    open spec fn before(a: CharacteristicView, b: CharacteristicView) -> bool {
        if a.uuid != b.uuid {
            a.uuid < b.uuid
        } else if a.service_uuid != b.service_uuid {
            a.service_uuid < b.service_uuid
        } else if a.properties != b.properties {
            a.properties < b.properties
        } else {
            list_before::<Descriptor>(a.descriptors, b.descriptors)
        }
    }

    proof fn before_is_total(a: CharacteristicView, b: CharacteristicView) {
        lemma_list_total::<Descriptor>(a.descriptors, b.descriptors);
    }

    proof fn before_is_strict(a: CharacteristicView, b: CharacteristicView) {
        if list_before::<Descriptor>(a.descriptors, b.descriptors) {
            lemma_list_strict::<Descriptor>(a.descriptors, b.descriptors);
        }
    }

    proof fn before_is_transitive(
        a: CharacteristicView,
        b: CharacteristicView,
        c: CharacteristicView,
    ) {
        if list_before::<Descriptor>(a.descriptors, b.descriptors) && list_before::<Descriptor>(
            b.descriptors,
            c.descriptors,
        ) {
            lemma_list_transitive::<Descriptor>(a.descriptors, b.descriptors, c.descriptors);
        }
    }

    fn precedes(&self, other: &Characteristic) -> (precedes: bool) {
        if self.uuid != other.uuid {
            self.uuid < other.uuid
        } else if self.service_uuid != other.service_uuid {
            self.service_uuid < other.service_uuid
        } else if self.properties != other.properties {
            self.properties < other.properties
        } else {
            list_precedes(&self.descriptors, &other.descriptors)
        }
    }
}

/// A [`Service`] with its characteristics viewed.
#[verifier::ext_equal]
pub ghost struct ServiceView {
    pub uuid: Uuid,
    pub primary: bool,
    pub characteristics: Seq<CharacteristicView>,
}

impl View for Service {
    type V = ServiceView;

    open spec fn view(&self) -> ServiceView {
        ServiceView {
            uuid: self.uuid,
            primary: self.primary,
            characteristics: views(self.characteristics@),
        }
    }
}

impl Ranked for Service {
    open spec fn before(a: ServiceView, b: ServiceView) -> bool {
        if a.uuid != b.uuid {
            a.uuid < b.uuid
        } else if a.primary != b.primary {
            b.primary
        } else {
            list_before::<Characteristic>(a.characteristics, b.characteristics)
        }
    }

    proof fn before_is_total(a: ServiceView, b: ServiceView) {
        lemma_list_total::<Characteristic>(a.characteristics, b.characteristics);
    }

    proof fn before_is_strict(a: ServiceView, b: ServiceView) {
        if list_before::<Characteristic>(a.characteristics, b.characteristics) {
            lemma_list_strict::<Characteristic>(a.characteristics, b.characteristics);
        }
    }

    proof fn before_is_transitive(a: ServiceView, b: ServiceView, c: ServiceView) {
        if list_before::<Characteristic>(a.characteristics, b.characteristics) && list_before::<
            Characteristic,
        >(b.characteristics, c.characteristics) {
            lemma_list_transitive::<Characteristic>(
                a.characteristics,
                b.characteristics,
                c.characteristics,
            );
        }
    }

    fn precedes(&self, other: &Service) -> (precedes: bool) {
        if self.uuid != other.uuid {
            self.uuid < other.uuid
        } else if self.primary != other.primary {
            other.primary
        } else {
            list_precedes(&self.characteristics, &other.characteristics)
        }
    }
}

/// Whether the values stand in order, none of them twice.
pub open spec fn is_set<T: Ranked>(list: Seq<T::V>) -> bool {
    forall|i: int, j: int|
        0 <= i < j < list.len() ==> T::before(#[trigger] list[i], #[trigger] list[j])
}

/// The set that holds these values: in order, each once.
pub open spec fn set_of<T: Ranked>(values: Seq<T::V>) -> Seq<T::V>
    decreases values.len(),
{
    if values.len() == 0 {
        values
    } else {
        with::<T>(set_of::<T>(values.drop_last()), values.last())
    }
}

/// An ordered set after a value was put into it.
pub open spec fn with<T: Ranked>(set: Seq<T::V>, value: T::V) -> Seq<T::V>
    decreases set.len(),
{
    if set.len() == 0 || T::before(set.last(), value) {
        set.push(value)
    } else if T::before(value, set.last()) {
        with::<T>(set.drop_last(), value).push(set.last())
    } else {
        set
    }
}

fn put<T: Ranked>(set: &mut Vec<T>, value: T)
    ensures
        views(final(set)@) == with::<T>(views(old(set)@), value@),
{
    let ghost before = views(set@);
    let ghost x = value@;
    let mut i: usize = set.len();
    proof {
        assert(before.take(i as int) =~= before);
        assert(before.skip(i as int) =~= Seq::<T::V>::empty());
        assert(with::<T>(before, x) =~= with::<T>(before.take(i as int), x) + before.skip(
            i as int,
        ));
    }
    while i > 0 && value.precedes(&set[i - 1])
        invariant
            i <= set@.len(),
            views(set@) == before,
            x == value@,
            with::<T>(before, x) == with::<T>(before.take(i as int), x) + before.skip(i as int),
        decreases i,
    {
        i = i - 1;
        proof {
            let shorter = before.take(i as int);
            assert(before[i as int] == set@[i as int]@);
            T::before_is_strict(x, before[i as int]);
            assert(before.take(i + 1).drop_last() =~= shorter);
            assert(before.take(i + 1).last() == before[i as int]);
            assert(with::<T>(shorter, x).push(before[i as int]) + before.skip(i + 1) =~= with::<T>(
                shorter,
                x,
            ) + before.skip(i as int));
        }
    }
    if i > 0 && !set[i - 1].precedes(&value) {
        proof {
            assert(before[i - 1] == set@[i - 1]@);
            assert(before.take(i as int).last() == before[i - 1]);
            assert(before =~= before.take(i as int) + before.skip(i as int));
        }
        return;
    }
    proof {
        if i > 0 {
            assert(before[i - 1] == set@[i - 1]@);
            assert(before.take(i as int).last() == before[i - 1]);
        }
    }
    let ghost old_set = set@;
    set.insert(i, value);
    proof {
        assert(views(set@) =~= before.take(i as int).push(x) + before.skip(i as int));
    }
}

proof fn lemma_with<T: Ranked>(set: Seq<T::V>, value: T::V)
    requires
        is_set::<T>(set),
    ensures
        is_set::<T>(with::<T>(set, value)),
        forall|x: T::V| #[trigger]
            with::<T>(set, value).contains(x) <==> set.contains(x) || x == value,
    decreases set.len(),
{
    let r = with::<T>(set, value);
    if set.len() == 0 {
        assert(r[0] == value);
    } else {
        let n = set.len() - 1;
        let last = set.last();
        if T::before(last, value) {
            assert forall|i: int, j: int| 0 <= i < j < r.len() implies T::before(
                #[trigger] r[i],
                #[trigger] r[j],
            ) by {
                if j == n + 1 && i < n {
                    assert(T::before(set[i], set[n]));
                    T::before_is_transitive(set[i], last, value);
                }
            }
            assert forall|x: T::V| #[trigger] r.contains(x) <==> set.contains(x) || x == value by {
                if set.contains(x) {
                    let i = choose|i: int| 0 <= i < set.len() && set[i] == x;
                    assert(r[i] == x);
                }
                assert(r[n + 1] == value);
            }
        } else if T::before(value, last) {
            let rest = set.drop_last();
            let inner = with::<T>(rest, value);
            assert(is_set::<T>(rest)) by {
                assert forall|i: int, j: int| 0 <= i < j < rest.len() implies T::before(
                    #[trigger] rest[i],
                    #[trigger] rest[j],
                ) by {
                    assert(T::before(set[i], set[j]));
                }
            }
            lemma_with::<T>(rest, value);
            assert forall|i: int, j: int| 0 <= i < j < r.len() implies T::before(
                #[trigger] r[i],
                #[trigger] r[j],
            ) by {
                if j == inner.len() {
                    assert(inner.contains(inner[i]));
                    if inner[i] != value {
                        let k = choose|k: int| 0 <= k < rest.len() && rest[k] == inner[i];
                        assert(T::before(set[k], set[n]));
                    }
                }
            }
            assert forall|x: T::V| #[trigger] r.contains(x) <==> set.contains(x) || x == value by {
                assert(r[r.len() - 1] == last);
                assert(set[n] == last);
                if set.contains(x) {
                    let i = choose|i: int| 0 <= i < set.len() && set[i] == x;
                    if i < n {
                        assert(rest[i] == x);
                        assert(rest.contains(x));
                    }
                }
                if inner.contains(x) {
                    let i = choose|i: int| 0 <= i < inner.len() && inner[i] == x;
                    assert(r[i] == x);
                }
                if r.contains(x) {
                    let i = choose|i: int| 0 <= i < r.len() && r[i] == x;
                    if i < inner.len() {
                        assert(inner[i] == x);
                        assert(inner.contains(x));
                        if x != value {
                            let k = choose|k: int| 0 <= k < rest.len() && rest[k] == x;
                            assert(set[k] == x);
                        }
                    }
                }
            }
        } else {
            T::before_is_total(last, value);
            assert(set[n] == value);
        }
    }
}

/// The set of some values holds exactly these values, in order and each once.
pub proof fn sets_hold_what_was_put_in<T: Ranked>(values: Seq<T::V>)
    ensures
        is_set::<T>(set_of::<T>(values)),
        forall|x: T::V| #[trigger] set_of::<T>(values).contains(x) <==> values.contains(x),
    decreases values.len(),
{
    if values.len() > 0 {
        let rest = values.drop_last();
        sets_hold_what_was_put_in::<T>(rest);
        lemma_with::<T>(set_of::<T>(rest), values.last());
        assert forall|x: T::V| #[trigger] set_of::<T>(values).contains(x) <==> values.contains(
            x,
        ) by {
            assert(set_of::<T>(values).contains(x) <==> set_of::<T>(rest).contains(x) || x
                == values.last());
            assert(set_of::<T>(rest).contains(x) <==> rest.contains(x));
            if rest.contains(x) {
                let i = choose|i: int| 0 <= i < rest.len() && rest[i] == x;
                assert(values[i] == x);
            }
            if values.contains(x) {
                let i = choose|i: int| 0 <= i < values.len() && values[i] == x;
                if i < rest.len() {
                    assert(rest[i] == x);
                }
            }
            assert(values[values.len() - 1] == values.last());
        }
    }
}

/// A characteristic as the Kotlin side lists it.
pub struct ListedCharacteristic {
    pub uuid: Uuid,
    pub properties: u8,
    pub descriptors: Vec<Uuid>,
}

/// A service as the Kotlin side lists it.
pub struct ListedService {
    pub uuid: Uuid,
    pub primary: bool,
    pub characs: Vec<ListedCharacteristic>,
}

/// The descriptors of a characteristic.
pub open spec fn descriptors_of(
    uuids: Seq<Uuid>,
    characteristic_uuid: Uuid,
    service_uuid: Uuid,
) -> Seq<Descriptor> {
    set_of::<Descriptor>(
        uuids.map_values(|uuid: Uuid| Descriptor { uuid, service_uuid, characteristic_uuid }),
    )
}

/// A characteristic in its service.
pub open spec fn characteristic_of(
    c: ListedCharacteristic,
    service_uuid: Uuid,
) -> CharacteristicView {
    CharacteristicView {
        uuid: c.uuid,
        service_uuid,
        properties: c.properties,
        descriptors: descriptors_of(c.descriptors@, c.uuid, service_uuid),
    }
}

/// A service with its characteristics.
pub open spec fn service_of(s: ListedService) -> ServiceView {
    ServiceView {
        uuid: s.uuid,
        primary: s.primary,
        characteristics: set_of::<Characteristic>(
            s.characs@.map_values(|c: ListedCharacteristic| characteristic_of(c, s.uuid)),
        ),
    }
}

/// The services of a device.
pub open spec fn services_of(listed: Seq<ListedService>) -> Seq<ServiceView> {
    set_of::<Service>(listed.map_values(|s: ListedService| service_of(s)))
}

fn collect_descriptors(
    uuids: &Vec<Uuid>,
    characteristic_uuid: Uuid,
    service_uuid: Uuid,
) -> (descriptors: Vec<Descriptor>)
    ensures
        views(descriptors@) == descriptors_of(uuids@, characteristic_uuid, service_uuid),
{
    let mut descriptors: Vec<Descriptor> = Vec::new();
    let mut i: usize = 0;
    let ghost all = uuids@.map_values(
        |uuid: Uuid| Descriptor { uuid, service_uuid, characteristic_uuid },
    );
    proof {
        assert(views(descriptors@) =~= all.take(0));
    }
    while i < uuids.len()
        invariant
            i <= uuids@.len(),
            all == uuids@.map_values(
                |uuid: Uuid| Descriptor { uuid, service_uuid, characteristic_uuid },
            ),
            views(descriptors@) == set_of::<Descriptor>(all.take(i as int)),
        decreases uuids.len() - i,
    {
        put(&mut descriptors, Descriptor { uuid: uuids[i], service_uuid, characteristic_uuid });
        i = i + 1;
        proof {
            assert(all.take(i as int).drop_last() =~= all.take(i - 1));
            assert(all.take(i as int).last() == all[i - 1]);
        }
    }
    proof {
        assert(all.take(i as int) =~= all);
    }
    descriptors
}

fn collect_characteristics(
    characs: &Vec<ListedCharacteristic>,
    service_uuid: Uuid,
) -> (characteristics: Vec<Characteristic>)
    ensures
        views(characteristics@) == set_of::<Characteristic>(
            characs@.map_values(|c: ListedCharacteristic| characteristic_of(c, service_uuid)),
        ),
{
    let mut characteristics: Vec<Characteristic> = Vec::new();
    let mut i: usize = 0;
    let ghost all = characs@.map_values(
        |c: ListedCharacteristic| characteristic_of(c, service_uuid),
    );
    proof {
        assert(views(characteristics@) =~= all.take(0));
    }
    while i < characs.len()
        invariant
            i <= characs@.len(),
            all == characs@.map_values(
                |c: ListedCharacteristic| characteristic_of(c, service_uuid),
            ),
            views(characteristics@) == set_of::<Characteristic>(all.take(i as int)),
        decreases characs.len() - i,
    {
        let c = &characs[i];
        let characteristic = Characteristic {
            uuid: c.uuid,
            service_uuid,
            properties: c.properties,
            descriptors: collect_descriptors(&c.descriptors, c.uuid, service_uuid),
        };
        proof {
            assert(characteristic@ =~= all[i as int]);
        }
        put(&mut characteristics, characteristic);
        i = i + 1;
        proof {
            assert(all.take(i as int).drop_last() =~= all.take(i - 1));
            assert(all.take(i as int).last() == all[i - 1]);
        }
    }
    proof {
        assert(all.take(i as int) =~= all);
    }
    characteristics
}

/// Builds the services of a device from what the Kotlin side lists: each level is a set.
pub fn collect_services(listed: &Vec<ListedService>) -> (services: Vec<Service>)
    ensures
        views(services@) == services_of(listed@),
{
    let mut services: Vec<Service> = Vec::new();
    let mut i: usize = 0;
    let ghost all = listed@.map_values(|s: ListedService| service_of(s));
    proof {
        assert(views(services@) =~= all.take(0));
    }
    while i < listed.len()
        invariant
            i <= listed@.len(),
            all == listed@.map_values(|s: ListedService| service_of(s)),
            views(services@) == set_of::<Service>(all.take(i as int)),
        decreases listed.len() - i,
    {
        let s = &listed[i];
        let service = Service {
            uuid: s.uuid,
            primary: s.primary,
            characteristics: collect_characteristics(&s.characs, s.uuid),
        };
        proof {
            assert(service@ =~= all[i as int]);
        }
        put(&mut services, service);
        i = i + 1;
        proof {
            assert(all.take(i as int).drop_last() =~= all.take(i - 1));
            assert(all.take(i as int).last() == all[i - 1]);
        }
    }
    proof {
        assert(all.take(i as int) =~= all);
    }
    services
}

} // verus!
