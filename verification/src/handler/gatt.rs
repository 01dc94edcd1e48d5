//! Reading, writing and subscribing to the characteristics of the connected device.

use crate::error::{uuid_chars, uuid_text, Error, ErrorView};
use crate::exchange::{result_view, run_with_timeout, timed_result, SubscriptionHandler, Timed};
use crate::handler::{Handler, HandlerView, Listener};
use crate::models::{CharacId, Peripheral, Uuid, WriteType};
use vstd::prelude::*;

verus! {

/// What a call asks the host to do on the connected device, within `timeout` milliseconds.
/// Only one such request may be under way at a time.
pub enum GattRequest {
    Write {
        device: Peripheral,
        charac: CharacId,
        data: Vec<u8>,
        write_type: WriteType,
        timeout: u64,
    },
    Read { device: Peripheral, charac: CharacId, timeout: u64 },
    Subscribe { device: Peripheral, charac: CharacId, timeout: u64 },
    Unsubscribe { device: Peripheral, charac: CharacId, timeout: u64 },
}

/// Whether a characteristic has this uuid, and belongs to this service if one is given.
pub open spec fn is_charac(c: CharacId, uuid: Uuid, service: Option<Uuid>) -> bool {
    c.uuid == uuid && (service matches Some(s) ==> c.service_uuid == s)
}

/// The first characteristic with this uuid, in this service if one is given.
pub open spec fn find_charac(
    characs: Seq<CharacId>,
    uuid: Uuid,
    service: Option<Uuid>,
) -> Option<CharacId>
    decreases characs.len(),
{
    if characs.len() == 0 {
        None
    } else if is_charac(characs[0], uuid, service) {
        Some(characs[0])
    } else {
        find_charac(characs.skip(1), uuid, service)
    }
}

/// The characteristic that a call is about: it takes a connected device that has it.
pub open spec fn target<D, N>(
    h: HandlerView<D, N>,
    uuid: Uuid,
    service: Option<Uuid>,
) -> Result<(Peripheral, CharacId), ErrorView> {
    match h.connected_dev {
        None => Err(ErrorView::NoDeviceConnected),
        Some(device) => match find_charac(h.characs, uuid, service) {
            None => Err(ErrorView::CharacNotAvailable(uuid_chars(uuid))),
            Some(charac) => Ok((device, charac)),
        },
    }
}

/// Whether a characteristic is found depends only on whether there is one.
pub proof fn characs_are_found(characs: Seq<CharacId>, uuid: Uuid, service: Option<Uuid>)
    ensures
        find_charac(characs, uuid, service) is Some <==> exists|i: int|
            0 <= i < characs.len() && is_charac(#[trigger] characs[i], uuid, service),
        find_charac(characs, uuid, service) matches Some(c) ==> characs.contains(c) && is_charac(
            c,
            uuid,
            service,
        ),
    decreases characs.len(),
{
    if characs.len() > 0 {
        if is_charac(characs[0], uuid, service) {
            assert(characs.contains(characs[0]));
        } else {
            let rest = characs.skip(1);
            characs_are_found(rest, uuid, service);
            if find_charac(rest, uuid, service) is Some {
                let i = choose|i: int|
                    0 <= i < rest.len() && is_charac(#[trigger] rest[i], uuid, service);
                assert(is_charac(characs[i + 1], uuid, service));
                let c = find_charac(rest, uuid, service)->0;
                let j = choose|j: int| 0 <= j < rest.len() && rest[j] == c;
                assert(characs[j + 1] == c);
            }
            assert forall|i: int|
                0 <= i < characs.len() && is_charac(
                    #[trigger] characs[i],
                    uuid,
                    service,
                ) implies find_charac(rest, uuid, service) is Some by {
                assert(rest[i - 1] == characs[i]);
            }
        }
    }
}

impl<D, N> Handler<D, N> {
    fn find_charac(&self, uuid: Uuid, service: Option<Uuid>) -> (result: Result<CharacId, Error>)
        ensures
            result_view(result) == match find_charac(self@.characs, uuid, service) {
                Some(charac) => Ok::<CharacId, ErrorView>(charac),
                None => Err(ErrorView::CharacNotAvailable(uuid_chars(uuid))),
            },
    {
        let mut i: usize = 0;
        proof {
            assert(self.characs@.skip(0) =~= self.characs@);
        }
        while i < self.characs.len()
            invariant
                i <= self.characs@.len(),
                find_charac(self.characs@, uuid, service) == find_charac(
                    self.characs@.skip(i as int),
                    uuid,
                    service,
                ),
            decreases self.characs.len() - i,
        {
            let c: CharacId = self.characs[i];
            let in_service: bool = match service {
                Some(s) => c.service_uuid == s,
                None => true,
            };
            if c.uuid == uuid && in_service {
                return Ok(c);
            }
            proof {
                assert(self.characs@.skip(i as int).skip(1) =~= self.characs@.skip(i + 1));
            }
            i = i + 1;
        }
        Err(Error::CharacNotAvailable(uuid_text(uuid)))
    }

    fn target(&self, uuid: Uuid, service: Option<Uuid>) -> (result: Result<
        (Peripheral, CharacId),
        Error,
    >)
        ensures
            result_view(result) == target(self@, uuid, service),
    {
        match self.connected_dev {
            None => Err(Error::NoDeviceConnected),
            Some(device) => match self.find_charac(uuid, service) {
                Ok(charac) => Ok((device, charac)),
                Err(e) => Err(e),
            },
        }
    }

    /// Sends data to a characteristic of the connected device. [`sent`] turns the outcome
    /// of the request into the result of the call.
    pub fn send_data(
        &self,
        c: Uuid,
        service: Option<Uuid>,
        data: Vec<u8>,
        write_type: WriteType,
    ) -> (result: Result<GattRequest, Error>)
        ensures
            result_view(result) == match target(self@, c, service) {
                Err(e) => Err::<GattRequest, ErrorView>(e),
                Ok((device, charac)) => Ok(
                    GattRequest::Write {
                        device,
                        charac,
                        data,
                        write_type,
                        timeout: self@.timeouts.write,
                    },
                ),
            },
    {
        match self.target(c, service) {
            Err(e) => Err(e),
            Ok((device, charac)) => Ok(
                GattRequest::Write {
                    device,
                    charac,
                    data,
                    write_type,
                    timeout: self.timeouts.write,
                },
            ),
        }
    }

    /// Receives data from a characteristic of the connected device. [`received`] turns the
    /// outcome of the request into the result of the call.
    pub fn recv_data(&self, c: Uuid, service: Option<Uuid>) -> (result: Result<GattRequest, Error>)
        ensures
            result_view(result) == match target(self@, c, service) {
                Err(e) => Err::<GattRequest, ErrorView>(e),
                Ok((device, charac)) => Ok(
                    GattRequest::Read { device, charac, timeout: self@.timeouts.read },
                ),
            },
    {
        match self.target(c, service) {
            Err(e) => Err(e),
            Ok((device, charac)) => Ok(
                GattRequest::Read { device, charac, timeout: self.timeouts.read },
            ),
        }
    }

    /// Subscribes to notifications of a characteristic, for which `callback` is called.
    /// [`SubscribeCall::finish`] takes the outcome of the request.
    pub fn subscribe(
        &self,
        c: Uuid,
        service: Option<Uuid>,
        callback: SubscriptionHandler<N>,
    ) -> (result: Result<(SubscribeCall<N>, GattRequest), Error>)
        ensures
            result_view(result) == match target(self@, c, service) {
                Err(e) => Err::<(SubscribeCall<N>, GattRequest), ErrorView>(e),
                Ok((device, charac)) => Ok(
                    (
                        SubscribeCall { charac, callback },
                        GattRequest::Subscribe {
                            device,
                            charac,
                            timeout: self@.timeouts.subscribe,
                        },
                    ),
                ),
            },
    {
        match self.target(c, service) {
            Err(e) => Err(e),
            Ok((device, charac)) => Ok(
                (
                    SubscribeCall { charac, callback },
                    GattRequest::Subscribe { device, charac, timeout: self.timeouts.subscribe },
                ),
            ),
        }
    }

    /// Ends the subscriptions to a characteristic. [`UnsubscribeCall::finish`] takes the
    /// outcome of the request.
    pub fn unsubscribe(&self, c: Uuid) -> (result: Result<(UnsubscribeCall, GattRequest), Error>)
        ensures
            result_view(result) == match target(self@, c, None) {
                Err(e) => Err::<(UnsubscribeCall, GattRequest), ErrorView>(e),
                Ok((device, charac)) => Ok(
                    (
                        UnsubscribeCall { uuid: charac.uuid },
                        GattRequest::Unsubscribe {
                            device,
                            charac,
                            timeout: self@.timeouts.subscribe,
                        },
                    ),
                ),
            },
    {
        match self.target(c, None) {
            Err(e) => Err(e),
            Ok((device, charac)) => Ok(
                (
                    UnsubscribeCall { uuid: charac.uuid },
                    GattRequest::Unsubscribe { device, charac, timeout: self.timeouts.subscribe },
                ),
            ),
        }
    }
}

/// The result of `send_data`, from the outcome of its request.
pub fn sent(outcome: Timed<()>) -> (result: Result<(), Error>)
    ensures
        result_view(result) == timed_result(outcome, "write"@),
{
    run_with_timeout(outcome, "write")
}

/// The result of `recv_data`, from the outcome of its request.
pub fn received(outcome: Timed<Vec<u8>>) -> (result: Result<Vec<u8>, Error>)
    ensures
        result_view(result) == timed_result(outcome, "read"@),
{
    run_with_timeout(outcome, "read")
}

/// A subscription being made.
pub struct SubscribeCall<N> {
    pub charac: CharacId,
    pub callback: SubscriptionHandler<N>,
}

impl<N> SubscribeCall<N> {
    /// The result of `subscribe`, from the outcome of its request. The callback is kept
    /// only if the request succeeded.
    pub fn finish<D>(self, handler: &mut Handler<D, N>, outcome: Timed<()>) -> (result: Result<
        (),
        Error,
    >)
        ensures
            result_view(result) == timed_result(outcome, "subscribe"@),
            final(handler)@ == subscribed(old(handler)@, self, result is Ok),
    {
        match run_with_timeout(outcome, "subscribe") {
            Err(e) => Err(e),
            Ok(_) => {
                handler.listeners.push(
                    Listener {
                        uuid: self.charac.uuid,
                        service: self.charac.service_uuid,
                        callback: self.callback,
                    },
                );
                Ok(())
            },
        }
    }
}

/// The state after a request to subscribe.
pub open spec fn subscribed<D, N>(
    h: HandlerView<D, N>,
    call: SubscribeCall<N>,
    success: bool,
) -> HandlerView<D, N> {
    if success {
        HandlerView {
            listeners: h.listeners.push(
                Listener {
                    uuid: call.charac.uuid,
                    service: call.charac.service_uuid,
                    callback: call.callback,
                },
            ),
            ..h
        }
    } else {
        h
    }
}

/// The end of a subscription being made.
pub struct UnsubscribeCall {
    pub uuid: Uuid,
}

/// The state after a request to end the subscriptions to a characteristic.
pub open spec fn unsubscribed<D, N>(
    h: HandlerView<D, N>,
    uuid: Uuid,
    success: bool,
) -> HandlerView<D, N> {
    if success {
        HandlerView { listeners: h.listeners.filter(|l: Listener<N>| l.uuid != uuid), ..h }
    } else {
        h
    }
}

impl UnsubscribeCall {
    /// The result of `unsubscribe`, from the outcome of its request. The callbacks are
    /// dropped only if the request succeeded.
    pub fn finish<D, N>(
        self,
        handler: &mut Handler<D, N>,
        outcome: Timed<()>,
    ) -> (result: Result<(), Error>)
        ensures
            result_view(result) == timed_result(outcome, "unsubscribe"@),
            final(handler)@ == unsubscribed(old(handler)@, self.uuid, result is Ok),
    {
        match run_with_timeout(outcome, "unsubscribe") {
            Err(e) => Err(e),
            Ok(_) => {
                drop_listeners(&mut handler.listeners, self.uuid);
                Ok(())
            },
        }
    }
}

fn drop_listeners<N>(listeners: &mut Vec<Listener<N>>, uuid: Uuid)
    ensures
        final(listeners)@ == old(listeners)@.filter(|l: Listener<N>| l.uuid != uuid),
{
    let ghost before = listeners@;
    let ghost keep = |l: Listener<N>| l.uuid != uuid;
    let mut i: usize = 0;
    proof {
        assert(before.take(0).filter(keep) =~= Seq::<Listener<N>>::empty()) by {
            assert(before.take(0) =~= Seq::<Listener<N>>::empty());
            reveal(Seq::filter);
        }
        assert(listeners@ =~= before.take(0).filter(keep) + before.skip(0));
    }
    let ghost mut seen: int = 0;
    while i < listeners.len()
        invariant
            0 <= seen <= before.len(),
            keep == (|l: Listener<N>| l.uuid != uuid),
            i == before.take(seen).filter(keep).len(),
            listeners@ == before.take(seen).filter(keep) + before.skip(seen),
        decreases listeners.len() - i,
    {
        let ghost done = before.take(seen).filter(keep);
        proof {
            assert(listeners@[i as int] == before[seen]);
            assert(before.take(seen + 1).drop_last() =~= before.take(seen));
            assert(before.take(seen + 1).last() == before[seen]);
            assert(before.take(seen + 1).filter(keep) == if keep(before[seen]) {
                done.push(before[seen])
            } else {
                done
            }) by {
                reveal(Seq::filter);
            }
        }
        if listeners[i].uuid == uuid {
            let _ = listeners.remove(i);
            proof {
                assert(listeners@ =~= done + before.skip(seen + 1));
            }
        } else {
            i = i + 1;
            proof {
                assert(listeners@ =~= done.push(before[seen]) + before.skip(seen + 1));
            }
        }
        proof {
            seen = seen + 1;
        }
    }
    proof {
        assert(before.skip(seen).len() == 0);
        assert(before.take(seen) =~= before);
        assert(listeners@ =~= before.filter(keep));
    }
}

/// Whether a subscription is to this characteristic of this service.
pub open spec fn hears<N>(listener: Listener<N>, uuid: Uuid, service: Uuid) -> bool {
    listener.uuid == uuid && listener.service == service
}

impl<D, N> Handler<D, N> {
    /// Which subscriptions a notification is for, by their places, in the order in which
    /// they are called.
    pub fn listeners_for(&self, uuid: Uuid, service: Uuid) -> (places: Vec<usize>)
        ensures
            forall|k: int|
                0 <= k < places@.len() ==> (#[trigger] places@[k]) < self@.listeners.len()
                    && hears(self@.listeners[places@[k] as int], uuid, service),
            forall|j: int, k: int|
                0 <= j < k < places@.len() ==> (#[trigger] places@[j]) < (#[trigger] places@[k]),
            forall|i: int|
                0 <= i < self@.listeners.len() && hears(
                    #[trigger] self@.listeners[i],
                    uuid,
                    service,
                ) ==> places@.contains(i as usize),
    {
        let mut places: Vec<usize> = Vec::new();
        let mut i: usize = 0;
        while i < self.listeners.len()
            invariant
                i <= self.listeners@.len(),
                forall|k: int|
                    0 <= k < places@.len() ==> (#[trigger] places@[k]) < i && hears(
                        self.listeners@[places@[k] as int],
                        uuid,
                        service,
                    ),
                forall|j: int, k: int|
                    0 <= j < k < places@.len() ==> (#[trigger] places@[j]) < (#[trigger] places@[k]),
                forall|k: int|
                    0 <= k < i && hears(#[trigger] self.listeners@[k], uuid, service)
                        ==> places@.contains(k as usize),
            decreases self.listeners.len() - i,
        {
            if self.listeners[i].uuid == uuid && self.listeners[i].service == service {
                let ghost before = places@;
                places.push(i);
                proof {
                    assert(places@[places@.len() - 1] == i);
                    assert forall|k: int|
                        0 <= k < i && hears(
                            #[trigger] self.listeners@[k],
                            uuid,
                            service,
                        ) implies places@.contains(k as usize) by {
                        let j = choose|j: int| 0 <= j < before.len() && before[j] == k as usize;
                        assert(places@[j] == k as usize);
                    }
                }
            }
            i = i + 1;
        }
        places
    }

    /// The callback of the subscription at this place.
    pub fn callback(&self, place: usize) -> (callback: &SubscriptionHandler<N>)
        requires
            place < self@.listeners.len(),
        ensures
            *callback == self@.listeners[place as int].callback,
    {
        &self.listeners[place].callback
    }

    /// How many subscriptions there are.
    pub fn listener_count(&self) -> (count: usize)
        ensures
            count == self@.listeners.len(),
    {
        self.listeners.len()
    }
}

} // verus!
