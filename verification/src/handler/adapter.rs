//! The adapter, and what it is asked about itself.

use crate::error::{BackendError, Error, ErrorView};
use crate::exchange::{Effect, Next, NextView, Reply, ReplyKind, Request};
use crate::handler::{CentralState, Handler, HandlerView, Out};
use crate::models::AdapterState;
use vstd::prelude::*;

verus! {

impl<D, N> HandlerView<D, N> {
    /// The effect that makes sure that the adapter's events are forwarded.
    pub open spec fn pump_effects(self) -> Seq<Effect<D>> {
        if self.event_pump {
            Seq::empty()
        } else {
            seq![Effect::StartEventPump]
        }
    }
}

/// The state and effects once an adapter is known to be there.
pub open spec fn adapter_ready<D, N>(h: HandlerView<D, N>, effects: Seq<Effect<D>>) -> Out<D, N> {
    Out { h: HandlerView { event_pump: true, ..h }, effects: effects + h.pump_effects() }
}

/// The first of the adapters that were found.
pub open spec fn first_adapter(found: Result<Vec<u64>, BackendError>) -> Result<u64, ErrorView> {
    match found {
        Err(e) => Err(ErrorView::Btleplug(e)),
        Ok(ids) => if ids@.len() == 0 {
            Err(ErrorView::NoAdapters)
        } else {
            Ok(ids@[0])
        },
    }
}

/// The state and effects after the adapters were listed: the first one is used.
pub open spec fn adapter_found<D, N>(
    h: HandlerView<D, N>,
    effects: Seq<Effect<D>>,
    found: Result<Vec<u64>, BackendError>,
) -> Out<D, N> {
    match first_adapter(found) {
        Err(_) => Out { h, effects },
        Ok(id) => adapter_ready(
            HandlerView { adapter: Some(id), ..h },
            effects.push(Effect::UseAdapter(id)),
        ),
    }
}

impl<D, N> Handler<D, N> {
    pub(crate) fn start_event_pump(&mut self, out: &mut Vec<Effect<D>>)
        ensures
            (Out { h: final(self)@, effects: final(out)@ }) == adapter_ready(old(self)@, old(out)@),
    {
        if !self.event_pump {
            out.push(Effect::StartEventPump);
            self.event_pump = true;
        }
        proof {
            assert(out@ =~= adapter_ready(old(self)@, old(out)@).effects);
            assert(self@ =~= adapter_ready(old(self)@, old(out)@).h);
        }
    }

    pub(crate) fn use_adapter(
        &mut self,
        found: Result<Vec<u64>, BackendError>,
        out: &mut Vec<Effect<D>>,
    ) -> (result: Result<(), Error>)
        ensures
            (Out { h: final(self)@, effects: final(out)@ }) == adapter_found(
                old(self)@,
                old(out)@,
                found,
            ),
            result is Ok <==> first_adapter(found) is Ok,
            result matches Err(e) ==> Err::<u64, ErrorView>(e@) == first_adapter(found),
    {
        match found {
            Err(e) => Err(Error::Btleplug(e)),
            Ok(ids) => if ids.len() == 0 {
                Err(Error::NoAdapters)
            } else {
                self.adapter = Some(ids[0]);
                out.push(Effect::UseAdapter(ids[0]));
                self.start_event_pump(out);
                Ok(())
            },
        }
    }

    /// Takes note that the adapter reports no more events.
    pub fn event_pump_ended(&mut self)
        ensures
            final(self)@ == (HandlerView { event_pump: false, ..old(self)@ }),
    {
        self.event_pump = false;
    }
}

/// The state of the adapter as the application sees it. Where the backend cannot tell, it is
/// not known.
pub open spec fn adapter_state(state: Result<CentralState, BackendError>) -> AdapterState {
    match state {
        Ok(CentralState::PoweredOn) => AdapterState::On,
        Ok(CentralState::PoweredOff) => AdapterState::Off,
        Ok(CentralState::Unknown) => AdapterState::Unknown,
        Err(_) => AdapterState::Unknown,
    }
}

/// How far a call to `get_adapter_state` has got.
#[derive(Clone, Copy, Debug)]
pub enum StatePhase {
    /// The adapters are listed.
    Adapter,
    /// The state of the adapter is read.
    Reading,
    /// Over.
    Finished,
}

impl StatePhase {
    /// Whether this phase waits for a reply of this kind.
    pub open spec fn awaits(self, kind: ReplyKind) -> bool {
        match self {
            StatePhase::Adapter => kind == ReplyKind::Adapters,
            StatePhase::Reading => kind == ReplyKind::State,
            StatePhase::Finished => false,
        }
    }
}

/// A call to `get_adapter_state`, under way.
pub struct StateCall {
    pub phase: StatePhase,
}

impl<D, N> Handler<D, N> {
    /// Finds out whether the adapter is switched on.
    pub fn get_adapter_state(&mut self, out: &mut Vec<Effect<D>>) -> (started: (
        StateCall,
        Next<AdapterState>,
    ))
        ensures
            if old(self)@.adapter is Some {
                &&& (Out { h: final(self)@, effects: final(out)@ }) == adapter_ready(
                    old(self)@,
                    old(out)@,
                )
                &&& started.0.phase is Reading
                &&& started.1@ == NextView::<AdapterState>::Ask(Request::ReadState)
            } else {
                &&& final(self)@ == old(self)@
                &&& final(out)@ == old(out)@
                &&& started.0.phase is Adapter
                &&& started.1@ == NextView::<AdapterState>::Ask(Request::FindAdapters)
            },
    {
        if self.adapter.is_some() {
            self.start_event_pump(out);
            (StateCall { phase: StatePhase::Reading }, Next::Ask(Request::ReadState))
        } else {
            (StateCall { phase: StatePhase::Adapter }, Next::Ask(Request::FindAdapters))
        }
    }
}

impl StateCall {
    /// Whether this call waits for a reply of this kind.
    pub fn expects(&self, kind: ReplyKind) -> (expected: bool)
        ensures
            expected == self.phase.awaits(kind),
    {
        match self.phase {
            StatePhase::Adapter => kind == ReplyKind::Adapters,
            StatePhase::Reading => kind == ReplyKind::State,
            StatePhase::Finished => false,
        }
    }

    /// Goes on with the call after the reply to its last request.
    pub fn step<D, N>(
        &mut self,
        handler: &mut Handler<D, N>,
        reply: Reply,
        out: &mut Vec<Effect<D>>,
    ) -> (next: Next<AdapterState>)
        requires
            old(self).phase.awaits(reply.spec_kind()),
        ensures
            match reply {
                Reply::Adapters(found) => {
                    &&& (Out { h: final(handler)@, effects: final(out)@ }) == adapter_found(
                        old(handler)@,
                        old(out)@,
                        found,
                    )
                    &&& if first_adapter(found) is Ok {
                        &&& final(self).phase is Reading
                        &&& next@ == NextView::<AdapterState>::Ask(Request::ReadState)
                    } else {
                        &&& final(self).phase is Finished
                        &&& next@ == NextView::Done(Ok(AdapterState::Unknown))
                    }
                },
                Reply::State(state) => {
                    &&& final(handler)@ == old(handler)@
                    &&& final(out)@ == old(out)@
                    &&& final(self).phase is Finished
                    &&& next@ == NextView::Done(Ok(adapter_state(state)))
                },
                _ => true,
            },
    {
        match reply {
            Reply::Adapters(found) => match handler.use_adapter(found, out) {
                Ok(_) => {
                    self.phase = StatePhase::Reading;
                    Next::Ask(Request::ReadState)
                },
                Err(_) => {
                    self.phase = StatePhase::Finished;
                    Next::Done(Ok(AdapterState::Unknown))
                },
            },
            Reply::State(state) => {
                self.phase = StatePhase::Finished;
                Next::Done(
                    Ok(
                        match state {
                            Ok(CentralState::PoweredOn) => AdapterState::On,
                            Ok(CentralState::PoweredOff) => AdapterState::Off,
                            Ok(CentralState::Unknown) => AdapterState::Unknown,
                            Err(_) => AdapterState::Unknown,
                        },
                    ),
                )
            },
            _ => {
                self.phase = StatePhase::Finished;
                Next::Done(Ok(AdapterState::Unknown))
            },
        }
    }
}

} // verus!
