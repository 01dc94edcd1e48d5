//! Ending a connection.

use crate::error::{Error, ErrorView};
use crate::exchange::{
    Effect, Next, NextView, Reply, ReplyKind, Request, Signal, Step, StepView,
};
use crate::handler::{Handler, HandlerView, Out};
use crate::models::Peripheral;
use vstd::prelude::*;

verus! {

/// How far a disconnect has got. `seen` is the number of signals when it began, and
/// `was_connected` the connected flag at that time.
#[derive(Clone, Copy, Debug)]
pub enum DisconnectPhase {
    /// The backend is asked whether the device is connected.
    Checking { device: Peripheral, was_connected: bool, seen: u64 },
    /// The backend disconnects the device; `expected` tells whether the adapter will
    /// report that.
    Disconnecting { expected: bool, seen: u64 },
    /// The adapter has yet to report the end of the link.
    Waiting,
}

impl DisconnectPhase {
    /// The kind of reply this phase waits for.
    pub open spec fn awaits(self) -> ReplyKind {
        match self {
            DisconnectPhase::Checking { .. } => ReplyKind::Flag,
            DisconnectPhase::Disconnecting { .. } => ReplyKind::Plain,
            DisconnectPhase::Waiting => ReplyKind::Signal,
        }
    }

    /// The kind of reply this phase waits for.
    pub(crate) fn kind(&self) -> (kind: ReplyKind)
        ensures
            kind == self.awaits(),
    {
        match self {
            DisconnectPhase::Checking { .. } => ReplyKind::Flag,
            DisconnectPhase::Disconnecting { .. } => ReplyKind::Plain,
            DisconnectPhase::Waiting => ReplyKind::Signal,
        }
    }
}

/// How a disconnect begins: without a device there is nothing to disconnect.
pub open spec fn disconnect_start<D, N>(h: HandlerView<D, N>) -> StepView<DisconnectPhase> {
    match h.connected_dev {
        None => StepView::Done(Err(ErrorView::NoDeviceConnected)),
        Some(device) => StepView::Ask(
            DisconnectPhase::Checking { device, was_connected: h.connected, seen: h.signals },
            Request::IsConnected(device),
        ),
    }
}

/// Whether a reply shows that the adapter has reported the end of the link.
pub open spec fn link_ended<D, N>(h: HandlerView<D, N>, reply: Reply) -> bool {
    reply == Reply::Signal(Signal::Changed) && !h.connected
}

/// The state and effects after a reply to a disconnect. Where the adapter does not report
/// the end of the link, the traces of the connection are dropped all the same.
pub open spec fn disconnect_out<D, N>(
    h: HandlerView<D, N>,
    effects: Seq<Effect<D>>,
    phase: DisconnectPhase,
    reply: Reply,
) -> Out<D, N> {
    match phase {
        DisconnectPhase::Checking { .. } => Out { h, effects },
        DisconnectPhase::Disconnecting { expected, .. } => if expected {
            Out { h, effects }
        } else {
            Out { h: h.cleared(), effects: effects + h.clear_effects() }
        },
        DisconnectPhase::Waiting => if link_ended(h, reply) {
            Out { h, effects }
        } else {
            Out { h: h.cleared(), effects: effects + h.clear_effects() }
        },
    }
}

/// How a disconnect goes on after a reply, in state `h`.
pub open spec fn disconnect_step<D, N>(
    h: HandlerView<D, N>,
    phase: DisconnectPhase,
    reply: Reply,
) -> StepView<DisconnectPhase> {
    match phase {
        DisconnectPhase::Checking { device, was_connected, seen } => StepView::Ask(
            DisconnectPhase::Disconnecting {
                expected: was_connected && reply == Reply::Flag(Ok(true)),
                seen,
            },
            Request::Disconnect(device),
        ),
        DisconnectPhase::Disconnecting { expected, seen } => if expected {
            StepView::Ask(
                DisconnectPhase::Waiting,
                Request::AwaitSignal { seen, timeout: Some(h.timeouts.disconnect) },
            )
        } else {
            StepView::Done(Ok(()))
        },
        DisconnectPhase::Waiting => StepView::Done(Ok(())),
    }
}

/// A disconnect under way; `None` once it is over.
pub struct DisconnectCall {
    phase: Option<DisconnectPhase>,
}

impl View for DisconnectCall {
    type V = Option<DisconnectPhase>;

    closed spec fn view(&self) -> Option<DisconnectPhase> {
        self.phase
    }
}

/// What a whole call does, as a part of a call does it.
pub open spec fn step_next<P>(step: StepView<P>) -> NextView<()> {
    match step {
        StepView::Ask(_, request) => NextView::Ask(request),
        StepView::Done(result) => NextView::Done(result),
    }
}

/// The phase a step leads to.
pub open spec fn step_phase<P>(step: StepView<P>) -> Option<P> {
    match step {
        StepView::Ask(phase, _) => Some(phase),
        StepView::Done(_) => None,
    }
}

impl<D, N> Handler<D, N> {
    /// Begins to disconnect the connected device.
    pub(crate) fn begin_disconnect(&self) -> (step: Step<DisconnectPhase>)
        ensures
            step@ == disconnect_start(self@),
    {
        match self.connected_dev {
            None => Step::Done(Err(Error::NoDeviceConnected)),
            Some(device) => Step::Ask(
                DisconnectPhase::Checking {
                    device,
                    was_connected: self.connected,
                    seen: self.signals,
                },
                Request::IsConnected(device),
            ),
        }
    }

    /// Goes on with a disconnect.
    pub(crate) fn disconnect_step(
        &mut self,
        phase: DisconnectPhase,
        reply: Reply,
        out: &mut Vec<Effect<D>>,
    ) -> (step: Step<DisconnectPhase>)
        requires
            reply.spec_kind() == phase.awaits(),
        ensures
            (Out { h: final(self)@, effects: final(out)@ }) == disconnect_out(
                old(self)@,
                old(out)@,
                phase,
                reply,
            ),
            step@ == disconnect_step(old(self)@, phase, reply),
    {
        match phase {
            DisconnectPhase::Checking { device, was_connected, seen } => {
                let is_connected = match reply {
                    Reply::Flag(Ok(flag)) => flag,
                    _ => false,
                };
                Step::Ask(
                    DisconnectPhase::Disconnecting { expected: was_connected && is_connected, seen },
                    Request::Disconnect(device),
                )
            },
            DisconnectPhase::Disconnecting { expected, seen } => {
                if expected {
                    return Step::Ask(
                        DisconnectPhase::Waiting,
                        Request::AwaitSignal { seen, timeout: Some(self.timeouts.disconnect) },
                    );
                }
                // the adapter does not consider the device connected, so it will not report
                // that it was disconnected
                self.clear_connection_state(out);
                Step::Done(Ok(()))
            },
            DisconnectPhase::Waiting => {
                let changed = match reply {
                    Reply::Signal(Signal::Changed) => true,
                    _ => false,
                };
                if !(changed && !self.connected) {
                    self.clear_connection_state(out);
                }
                Step::Done(Ok(()))
            },
        }
    }

    /// Disconnects the connected device and waits for the adapter to report it.
    ///
    /// The backend is always told to disconnect, even where the connected flag says that
    /// there is no link: the flag can be out of step with it. Only a missing device is an
    /// error.
    pub fn disconnect(&self) -> (started: (DisconnectCall, Next<()>))
        ensures
            started.0@ == step_phase(disconnect_start(self@)),
            started.1@ == step_next(disconnect_start(self@)),
    {
        match self.begin_disconnect() {
            Step::Ask(phase, request) => (
                DisconnectCall { phase: Some(phase) },
                Next::Ask(request),
            ),
            Step::Done(result) => (DisconnectCall { phase: None }, Next::Done(result)),
        }
    }
}

impl DisconnectCall {
    /// Whether this call waits for a reply of this kind.
    pub open spec fn spec_expects(self, kind: ReplyKind) -> bool {
        self@ is Some && self@->0.awaits() == kind
    }

    /// Whether this call waits for a reply of this kind.
    pub fn expects(&self, kind: ReplyKind) -> (expected: bool)
        ensures
            expected == self.spec_expects(kind),
    {
        match &self.phase {
            Some(phase) => phase.kind() == kind,
            None => false,
        }
    }

    /// Goes on with the call after the reply to its last request.
    pub fn step<D, N>(
        &mut self,
        handler: &mut Handler<D, N>,
        reply: Reply,
        out: &mut Vec<Effect<D>>,
    ) -> (next: Next<()>)
        requires
            old(self).spec_expects(reply.spec_kind()),
        ensures
            (Out { h: final(handler)@, effects: final(out)@ }) == disconnect_out(
                old(handler)@,
                old(out)@,
                old(self)@->0,
                reply,
            ),
            final(self)@ == step_phase(disconnect_step(old(handler)@, old(self)@->0, reply)),
            next@ == step_next(disconnect_step(old(handler)@, old(self)@->0, reply)),
    {
        match self.phase.take() {
            Some(phase) => match handler.disconnect_step(phase, reply, out) {
                Step::Ask(phase, request) => {
                    self.phase = Some(phase);
                    Next::Ask(request)
                },
                Step::Done(result) => Next::Done(result),
            },
            None => Next::Done(Ok(())),
        }
    }
}

} // verus!
