//! Bringing up the link to one device.

use crate::error::{Error, ErrorView};
use crate::exchange::{
    run_with_timeout, timed_result, Effect, Reply, ReplyKind, Request, Signal, Step, StepView,
};
use crate::handler::{Guest, Handler, HandlerView, Out};
use crate::index::lookup;
use crate::models::Peripheral;
use vstd::prelude::*;

verus! {

/// How far the connection attempt to a device has got.
#[derive(Clone, Copy, Debug)]
pub enum LinkPhase {
    /// The backend looks the device up again: it may have dropped its record of it.
    Retrieving(Peripheral),
    /// The backend is asked whether the device is connected already.
    Checking(Peripheral),
    /// The backend connects the device.
    Connecting(Peripheral),
    /// The adapter has yet to report the link.
    Waiting(Peripheral),
    /// A link that was not reported in time is cancelled.
    Cancelling(Peripheral),
}

impl LinkPhase {
    /// The kind of reply this phase waits for.
    pub open spec fn awaits(self) -> ReplyKind {
        match self {
            LinkPhase::Retrieving(_) => ReplyKind::Plain,
            LinkPhase::Checking(_) => ReplyKind::Flag,
            LinkPhase::Connecting(_) => ReplyKind::Connected,
            LinkPhase::Waiting(_) => ReplyKind::Signal,
            LinkPhase::Cancelling(_) => ReplyKind::Plain,
        }
    }

    /// The device the attempt is made on.
    pub open spec fn device(self) -> Peripheral {
        match self {
            LinkPhase::Retrieving(device) => device,
            LinkPhase::Checking(device) => device,
            LinkPhase::Connecting(device) => device,
            LinkPhase::Waiting(device) => device,
            LinkPhase::Cancelling(device) => device,
        }
    }

    /// The kind of reply this phase waits for.
    pub(crate) fn kind(&self) -> (kind: ReplyKind)
        ensures
            kind == self.awaits(),
    {
        match self {
            LinkPhase::Retrieving(_) => ReplyKind::Plain,
            LinkPhase::Checking(_) => ReplyKind::Flag,
            LinkPhase::Connecting(_) => ReplyKind::Connected,
            LinkPhase::Waiting(_) => ReplyKind::Signal,
            LinkPhase::Cancelling(_) => ReplyKind::Plain,
        }
    }
}

impl<D, N> HandlerView<D, N> {
    /// Whether the handler holds the peripheral with this id, as a guest or as its device.
    pub open spec fn holds(self, guest: bool, id: u64) -> bool {
        if guest {
            self.is_guest(id)
        } else {
            self.is_current(id)
        }
    }

    /// Whether the link of the guest, or that of the device, is up.
    pub open spec fn up(self, guest: bool) -> bool {
        if guest {
            self.guest is Some && self.guest->0.up
        } else {
            self.connected
        }
    }

    /// The state once the handler holds a device that is being connected.
    pub open spec fn holding(self, guest: bool, device: Peripheral) -> Self {
        if guest {
            HandlerView { guest: Some(Guest { device, up: false }), ..self }
        } else {
            HandlerView { connected_dev: Some(device), ..self }
        }
    }

    /// The state and effects once the link to the device it holds is known to be up.
    pub open spec fn reporting_up(self, guest: bool, effects: Seq<Effect<D>>) -> Out<D, N> {
        if guest {
            Out {
                h: self.with_guest(Some(Guest { up: true, ..self.guest->0 })),
                effects: effects.push(Effect::Signal(self.connected)),
            }
        } else {
            Out { h: self.signalled(true), effects: effects.push(Effect::Signal(true)) }
        }
    }
}

/// How a connection attempt begins: only a device that was found can be connected.
pub open spec fn link_start<D, N>(h: HandlerView<D, N>, address: Seq<char>) -> StepView<LinkPhase> {
    match lookup(h.devices, address) {
        None => StepView::Done(Err(ErrorView::UnknownPeripheral(address))),
        Some(device) => StepView::Ask(LinkPhase::Retrieving(device), Request::Retrieve(device)),
    }
}

/// The state and effects after a reply to a connection attempt, on a guest or on the device
/// to be connected.
pub open spec fn link_out<D, N>(
    h: HandlerView<D, N>,
    effects: Seq<Effect<D>>,
    guest: bool,
    phase: LinkPhase,
    reply: Reply,
) -> Out<D, N> {
    match (phase, reply) {
        (LinkPhase::Retrieving(device), _) => Out { h: h.holding(guest, device), effects },
        (LinkPhase::Checking(device), Reply::Flag(Ok(true))) => if h.holds(guest, device.id) {
            h.reporting_up(guest, effects)
        } else {
            Out { h, effects }
        },
        _ => Out { h, effects },
    }
}

/// How a connection attempt goes on after a reply, in state `h`. A device whose link has ended
/// in the meantime is not connected, whatever the backend answers.
pub open spec fn link_step<D, N>(
    h: HandlerView<D, N>,
    guest: bool,
    phase: LinkPhase,
    reply: Reply,
) -> StepView<LinkPhase> {
    match (phase, reply) {
        (LinkPhase::Retrieving(device), _) => StepView::Ask(
            LinkPhase::Checking(device),
            Request::IsConnected(device),
        ),
        (LinkPhase::Checking(_), Reply::Flag(Err(e))) => StepView::Done(Err(ErrorView::Btleplug(e))),
        (LinkPhase::Checking(device), Reply::Flag(Ok(true))) => if h.holds(guest, device.id) {
            StepView::Done(Ok(()))
        } else {
            StepView::Done(Err(ErrorView::ConnectionFailed))
        },
        (LinkPhase::Checking(device), _) => StepView::Ask(
            LinkPhase::Connecting(device),
            Request::Connect(device, h.timeouts.connect),
        ),
        (LinkPhase::Connecting(device), Reply::Connected(outcome)) => match timed_result(
            outcome,
            "Connect"@,
        ) {
            Err(e) => StepView::Done(Err(e)),
            Ok(_) => if h.up(guest) {
                StepView::Done(Ok(()))
            } else {
                StepView::Ask(
                    LinkPhase::Waiting(device),
                    Request::AwaitSignal { seen: h.signals, timeout: Some(h.timeouts.connect) },
                )
            },
        },
        (LinkPhase::Waiting(_), Reply::Signal(Signal::Changed)) => if h.up(guest) {
            StepView::Done(Ok(()))
        } else {
            StepView::Done(Err(ErrorView::ConnectionFailed))
        },
        (LinkPhase::Waiting(_), Reply::Signal(Signal::Closed)) => StepView::Done(
            Err(ErrorView::ConnectionFailed),
        ),
        (LinkPhase::Waiting(device), _) => StepView::Ask(
            LinkPhase::Cancelling(device),
            Request::Disconnect(device),
        ),
        _ => StepView::Done(Err(ErrorView::Timeout("connect event"@))),
    }
}

impl<D, N> Handler<D, N> {
    /// Begins a connection attempt to the device at `address`.
    pub(crate) fn connect_device(&self, address: &String) -> (step: Step<LinkPhase>)
        ensures
            step@ == link_start(self@, address@),
    {
        match self.devices.get(address) {
            None => Step::Done(Err(Error::UnknownPeripheral(address.clone()))),
            Some(device) => Step::Ask(LinkPhase::Retrieving(device), Request::Retrieve(device)),
        }
    }

    fn holds(&self, guest: bool, id: u64) -> (held: bool)
        ensures
            held == self@.holds(guest, id),
    {
        if guest {
            self.is_guest(id)
        } else {
            self.is_current(id)
        }
    }

    /// Whether the link of the guest, or that of the device, is up.
    pub(crate) fn up(&self, guest: bool) -> (up: bool)
        ensures
            up == self@.up(guest),
    {
        if guest {
            match &self.guest {
                Some(guest) => guest.up,
                None => false,
            }
        } else {
            self.connected
        }
    }

    fn report_up(&mut self, guest: bool, out: &mut Vec<Effect<D>>)
        requires
            guest ==> old(self)@.guest is Some,
        ensures
            (Out { h: final(self)@, effects: final(out)@ }) == old(self)@.reporting_up(
                guest,
                old(out)@,
            ),
    {
        if guest {
            match self.guest {
                Some(guest) => self.change_guest(
                    Some(Guest { device: guest.device, up: true }),
                    out,
                ),
                None => {},
            }
        } else {
            self.signal(true, out);
        }
    }

    /// Goes on with a connection attempt.
    pub(crate) fn connect_device_step(
        &mut self,
        guest: bool,
        phase: LinkPhase,
        reply: Reply,
        out: &mut Vec<Effect<D>>,
    ) -> (step: Step<LinkPhase>)
        requires
            reply.spec_kind() == phase.awaits(),
        ensures
            (Out { h: final(self)@, effects: final(out)@ }) == link_out(
                old(self)@,
                old(out)@,
                guest,
                phase,
                reply,
            ),
            step@ == link_step(old(self)@, guest, phase, reply),
    {
        match (phase, reply) {
            (LinkPhase::Retrieving(device), _) => {
                if guest {
                    self.guest = Some(Guest { device, up: false });
                } else {
                    self.connected_dev = Some(device);
                }
                Step::Ask(LinkPhase::Checking(device), Request::IsConnected(device))
            },
            (LinkPhase::Checking(_), Reply::Flag(Err(e))) => Step::Done(Err(Error::Btleplug(e))),
            (LinkPhase::Checking(device), Reply::Flag(Ok(true))) => {
                if self.holds(guest, device.id) {
                    self.report_up(guest, out);
                    Step::Done(Ok(()))
                } else {
                    Step::Done(Err(Error::ConnectionFailed))
                }
            },
            (LinkPhase::Checking(device), _) => Step::Ask(
                LinkPhase::Connecting(device),
                Request::Connect(device, self.timeouts.connect),
            ),
            (LinkPhase::Connecting(device), Reply::Connected(outcome)) => {
                match run_with_timeout(outcome, "Connect") {
                    Err(e) => Step::Done(Err(e)),
                    Ok(_) => if self.up(guest) {
                        Step::Done(Ok(()))
                    } else {
                        Step::Ask(
                            LinkPhase::Waiting(device),
                            Request::AwaitSignal {
                                seen: self.signals,
                                timeout: Some(self.timeouts.connect),
                            },
                        )
                    },
                }
            },
            (LinkPhase::Waiting(_), Reply::Signal(Signal::Changed)) => if self.up(guest) {
                Step::Done(Ok(()))
            } else {
                Step::Done(Err(Error::ConnectionFailed))
            },
            (LinkPhase::Waiting(_), Reply::Signal(Signal::Closed)) => Step::Done(
                Err(Error::ConnectionFailed),
            ),
            (LinkPhase::Waiting(device), _) => Step::Ask(
                LinkPhase::Cancelling(device),
                Request::Disconnect(device),
            ),
            _ => Step::Done(Err(Error::Timeout("connect event".to_owned()))),
        }
    }
}

} // verus!
