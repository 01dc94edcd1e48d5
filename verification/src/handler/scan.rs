//! Scanning for devices.

use crate::error::{BackendError, Error, ErrorView};
use crate::exchange::{Effect, Next, NextView, Reply, ReplyKind, Request, Step, StepView};
use crate::filter::{check_filter, filter_peripherals, sifted, usable, Candidate};
use crate::handler::adapter::{adapter_found, adapter_ready, first_adapter};
use crate::handler::disconnect::{step_next, step_phase};
use crate::handler::{Handler, HandlerView, Out, ScanHandle};
use crate::index::{by_address, described, indexed, Found};
use crate::models::{BleDevice, Peripheral, ScanFilter};
use vstd::prelude::*;

verus! {

/// How long a scan waits before it polls for devices, in milliseconds.
pub const POLL_INTERVAL_MS: u64 = 200;

/// Where a scan sends the devices it finds.
#[derive(Clone, Copy, Debug)]
pub enum Sink {
    Nobody,
    /// The channel with this number.
    Channel(u64),
    /// The call to `connect` that began the scan.
    Caller,
}

/// What a scan is asked to do.
pub struct ScanOrder {
    pub sink: Sink,
    pub timeout: u64,
    pub filter: ScanFilter,
}

/// How often a scan of so many milliseconds polls for devices.
pub open spec fn polls(timeout: u64) -> u64 {
    if timeout / POLL_INTERVAL_MS < 1 {
        1
    } else {
        timeout / POLL_INTERVAL_MS
    }
}

impl<D, N> HandlerView<D, N> {
    /// The state after the scan task was let go.
    pub open spec fn without_scan(self) -> Self {
        HandlerView { scan_task: None, ..self }
    }

    /// The effect that stops the scan task.
    pub open spec fn abort_scan_effects(self) -> Seq<Effect<D>> {
        match self.scan_task {
            Some(handle) => seq![Effect::AbortScan(handle.task)],
            None => Seq::empty(),
        }
    }
}

/// How far the start of a scan has got.
#[derive(Clone, Copy, Debug)]
pub enum DiscoverPhase {
    /// The adapters are listed.
    Adapter,
    /// The scan that was running is stopped.
    Stopping,
    /// The new scan is started.
    Starting,
}

impl DiscoverPhase {
    /// The kind of reply this phase waits for.
    pub open spec fn awaits(self) -> ReplyKind {
        match self {
            DiscoverPhase::Adapter => ReplyKind::Adapters,
            DiscoverPhase::Stopping => ReplyKind::Plain,
            DiscoverPhase::Starting => ReplyKind::Plain,
        }
    }

    /// The kind of reply this phase waits for.
    pub(crate) fn kind(&self) -> (kind: ReplyKind)
        ensures
            kind == self.awaits(),
    {
        match self {
            DiscoverPhase::Adapter => ReplyKind::Adapters,
            DiscoverPhase::Stopping => ReplyKind::Plain,
            DiscoverPhase::Starting => ReplyKind::Plain,
        }
    }
}

/// Makes room for a new scan. Only one scan runs at a time: the one that was started
/// before is stopped first.
pub open spec fn replace_scan<D, N>(out: Out<D, N>, allow_ibeacons: bool) -> (
    Out<D, N>,
    StepView<DiscoverPhase>,
) {
    if out.h.scan_task is Some {
        (
            Out {
                h: out.h.without_scan(),
                effects: out.effects + out.h.abort_scan_effects(),
            },
            StepView::Ask(DiscoverPhase::Stopping, Request::StopScan),
        )
    } else {
        scan_request(out, allow_ibeacons)
    }
}

/// Asks for the new scan.
pub open spec fn scan_request<D, N>(out: Out<D, N>, allow_ibeacons: bool) -> (
    Out<D, N>,
    StepView<DiscoverPhase>,
) {
    (
        Out { h: HandlerView { allow_ibeacons, ..out.h }, effects: out.effects },
        StepView::Ask(DiscoverPhase::Starting, Request::StartScan),
    )
}

/// How a scan begins.
pub open spec fn discover_start<D, N>(
    h: HandlerView<D, N>,
    effects: Seq<Effect<D>>,
    order: ScanOrder,
    allow_ibeacons: bool,
) -> (Out<D, N>, StepView<DiscoverPhase>) {
    if !usable(order.filter) {
        (Out { h, effects }, StepView::Done(Err(ErrorView::InvalidFilterMask)))
    } else if h.adapter is Some {
        replace_scan(adapter_ready(h, effects), allow_ibeacons)
    } else {
        (Out { h, effects }, StepView::Ask(DiscoverPhase::Adapter, Request::FindAdapters))
    }
}

/// The task that a scan order leads to.
pub open spec fn scan_task(task: u64, order: ScanOrder) -> ScanTask {
    ScanTask {
        task,
        sink: order.sink,
        filter: order.filter,
        polls: polls(order.timeout),
        phase: ScanPhase::Idle,
    }
}

/// The state and effects once the adapter scans: a task polls for devices.
pub open spec fn scan_begun<D, N>(
    h: HandlerView<D, N>,
    effects: Seq<Effect<D>>,
    order: ScanOrder,
) -> Out<D, N> {
    Out {
        h: HandlerView {
            scan_task: Some(ScanHandle { task: h.tasks, finished: false }),
            tasks: h.tasks.wrapping_add(1),
            ..h
        },
        effects: effects.push(Effect::ScanUpdate(true)).push(
            Effect::SpawnScan(scan_task(h.tasks, order)),
        ),
    }
}

/// How the start of a scan goes on after a reply.
pub open spec fn discover_step<D, N>(
    h: HandlerView<D, N>,
    effects: Seq<Effect<D>>,
    order: ScanOrder,
    allow_ibeacons: bool,
    phase: DiscoverPhase,
    reply: Reply,
) -> (Out<D, N>, StepView<DiscoverPhase>) {
    match (phase, reply) {
        (DiscoverPhase::Adapter, Reply::Adapters(found)) => match first_adapter(found) {
            Err(e) => (Out { h, effects }, StepView::Done(Err(e))),
            Ok(_) => replace_scan(adapter_found(h, effects, found), allow_ibeacons),
        },
        (DiscoverPhase::Stopping, _) => scan_request(Out { h, effects }, allow_ibeacons),
        (DiscoverPhase::Starting, Reply::Plain(Err(e))) => (
            Out { h, effects },
            StepView::Done(Err(ErrorView::Btleplug(e))),
        ),
        _ => (scan_begun(h, effects, order), StepView::Done(Ok(()))),
    }
}

/// What is left of the order for a scan: once the scan runs, its task has it.
pub open spec fn order_left(
    order: Option<ScanOrder>,
    step: StepView<DiscoverPhase>,
) -> Option<ScanOrder> {
    if step.succeeded() {
        None
    } else {
        order
    }
}

impl<D, N> Handler<D, N> {
    fn replace_scan(&mut self, allow_ibeacons: bool, out: &mut Vec<Effect<D>>) -> (step: Step<
        DiscoverPhase,
    >)
        ensures
            ({
                let (o, s) = replace_scan(
                    Out { h: old(self)@, effects: old(out)@ },
                    allow_ibeacons,
                );
                &&& final(self)@ == o.h
                &&& final(out)@ == o.effects
                &&& step@ == s
            }),
    {
        match self.scan_task.take() {
            Some(handle) => {
                out.push(Effect::AbortScan(handle.task));
                assert(out@ =~= old(out)@ + old(self)@.abort_scan_effects());
                Step::Ask(DiscoverPhase::Stopping, Request::StopScan)
            },
            None => {
                self.allow_ibeacons = allow_ibeacons;
                Step::Ask(DiscoverPhase::Starting, Request::StartScan)
            },
        }
    }

    /// Begins to start a scan.
    pub(crate) fn begin_discover(
        &mut self,
        order: &ScanOrder,
        allow_ibeacons: bool,
        out: &mut Vec<Effect<D>>,
    ) -> (step: Step<DiscoverPhase>)
        ensures
            ({
                let (o, s) = discover_start(old(self)@, old(out)@, *order, allow_ibeacons);
                &&& final(self)@ == o.h
                &&& final(out)@ == o.effects
                &&& step@ == s
            }),
    {
        match check_filter(&order.filter) {
            Err(e) => Step::Done(Err(e)),
            Ok(_) => {
                if self.adapter.is_some() {
                    self.start_event_pump(out);
                    self.replace_scan(allow_ibeacons, out)
                } else {
                    Step::Ask(DiscoverPhase::Adapter, Request::FindAdapters)
                }
            },
        }
    }

    /// Goes on with the start of a scan.
    pub(crate) fn discover_step(
        &mut self,
        order: &mut Option<ScanOrder>,
        allow_ibeacons: bool,
        phase: DiscoverPhase,
        reply: Reply,
        out: &mut Vec<Effect<D>>,
    ) -> (step: Step<DiscoverPhase>)
        requires
            reply.spec_kind() == phase.awaits(),
            *old(order) is Some,
        ensures
            ({
                let (o, s) = discover_step(
                    old(self)@,
                    old(out)@,
                    old(order)->0,
                    allow_ibeacons,
                    phase,
                    reply,
                );
                &&& final(self)@ == o.h
                &&& final(out)@ == o.effects
                &&& step@ == s
                &&& *final(order) == order_left(*old(order), s)
            }),
    {
        match (phase, reply) {
            (DiscoverPhase::Adapter, Reply::Adapters(found)) => {
                match self.use_adapter(found, out) {
                    Err(e) => Step::Done(Err(e)),
                    Ok(_) => self.replace_scan(allow_ibeacons, out),
                }
            },
            (DiscoverPhase::Stopping, _) => {
                self.allow_ibeacons = allow_ibeacons;
                Step::Ask(DiscoverPhase::Starting, Request::StartScan)
            },
            (DiscoverPhase::Starting, Reply::Plain(Err(e))) => Step::Done(Err(Error::Btleplug(e))),
            _ => {
                match order.take() {
                    Some(order) => self.spawn_scan(order, out),
                    None => {},
                }
                Step::Done(Ok(()))
            },
        }
    }

    fn spawn_scan(&mut self, order: ScanOrder, out: &mut Vec<Effect<D>>)
        ensures
            (Out { h: final(self)@, effects: final(out)@ }) == scan_begun(
                old(self)@,
                old(out)@,
                order,
            ),
    {
        let task: u64 = self.tasks;
        self.tasks = task.wrapping_add(1);
        self.scan_task = Some(ScanHandle { task, finished: false });
        let polls: u64 = if order.timeout / POLL_INTERVAL_MS < 1 {
            1
        } else {
            order.timeout / POLL_INTERVAL_MS
        };
        out.push(Effect::ScanUpdate(true));
        out.push(
            Effect::SpawnScan(
                ScanTask {
                    task,
                    sink: order.sink,
                    filter: order.filter,
                    polls,
                    phase: ScanPhase::Idle,
                },
            ),
        );
    }
}

/// The start of a scan, under way.
pub struct DiscoverCall {
    order: Option<ScanOrder>,
    allow_ibeacons: bool,
    phase: Option<DiscoverPhase>,
}

/// The state of a [`DiscoverCall`]; without a phase it is over.
pub ghost struct DiscoverCallView {
    pub order: Option<ScanOrder>,
    pub allow_ibeacons: bool,
    pub phase: Option<DiscoverPhase>,
}

impl View for DiscoverCall {
    type V = DiscoverCallView;

    closed spec fn view(&self) -> DiscoverCallView {
        DiscoverCallView {
            order: self.order,
            allow_ibeacons: self.allow_ibeacons,
            phase: self.phase,
        }
    }
}

impl<D, N> Handler<D, N> {
    /// Starts a scan of `timeout` milliseconds, which periodically sends the devices that
    /// the filter keeps to `sink`. The scan itself is a task of its own.
    pub fn discover(
        &mut self,
        sink: Sink,
        timeout: u64,
        filter: ScanFilter,
        allow_ibeacons: bool,
        out: &mut Vec<Effect<D>>,
    ) -> (started: (DiscoverCall, Next<()>))
        ensures
            ({
                let order = ScanOrder { sink, timeout, filter };
                let (o, s) = discover_start(old(self)@, old(out)@, order, allow_ibeacons);
                &&& final(self)@ == o.h
                &&& final(out)@ == o.effects
                &&& started.0@ == (DiscoverCallView {
                    order: Some(order),
                    allow_ibeacons,
                    phase: step_phase(s),
                })
                &&& started.1@ == step_next(s)
            }),
    {
        let order = ScanOrder { sink, timeout, filter };
        match self.begin_discover(&order, allow_ibeacons, out) {
            Step::Ask(phase, request) => (
                DiscoverCall { order: Some(order), allow_ibeacons, phase: Some(phase) },
                Next::Ask(request),
            ),
            Step::Done(result) => (
                DiscoverCall { order: Some(order), allow_ibeacons, phase: None },
                Next::Done(result),
            ),
        }
    }
}

impl DiscoverCall {
    /// Whether this call waits for a reply of this kind.
    pub open spec fn spec_expects(self, kind: ReplyKind) -> bool {
        self@.phase is Some && self@.order is Some && self@.phase->0.awaits() == kind
    }

    /// Whether this call waits for a reply of this kind.
    pub fn expects(&self, kind: ReplyKind) -> (expected: bool)
        ensures
            expected == self.spec_expects(kind),
    {
        match &self.phase {
            Some(phase) => self.order.is_some() && phase.kind() == kind,
            None => false,
        }
    }

    /// Goes on with the call after the reply to its last request.
    pub fn step<D, N>(
        &mut self,
        handler: &mut Handler<D, N>,
        reply: Reply,
        out: &mut Vec<Effect<D>>,
    ) -> (next: Next<()>)
        requires
            old(self).spec_expects(reply.spec_kind()),
        ensures
            ({
                let (o, s) = discover_step(
                    old(handler)@,
                    old(out)@,
                    old(self)@.order->0,
                    old(self)@.allow_ibeacons,
                    old(self)@.phase->0,
                    reply,
                );
                &&& final(handler)@ == o.h
                &&& final(out)@ == o.effects
                &&& final(self)@ == (DiscoverCallView {
                    order: order_left(old(self)@.order, s),
                    phase: step_phase(s),
                    ..old(self)@
                })
                &&& next@ == step_next(s)
            }),
    {
        match self.phase.take() {
            Some(phase) => {
                let mut order = self.order.take();
                let step = handler.discover_step(
                    &mut order,
                    self.allow_ibeacons,
                    phase,
                    reply,
                    out,
                );
                self.order = order;
                match step {
                    Step::Ask(phase, request) => {
                        self.phase = Some(phase);
                        Next::Ask(request)
                    },
                    Step::Done(result) => Next::Done(result),
                }
            },
            None => Next::Done(Ok(())),
        }
    }
}

/// How far a scan has got with being stopped.
#[derive(Clone, Copy, Debug)]
pub enum StopPhase {
    /// The adapters are listed.
    Adapter,
    /// The adapter stops scanning.
    Stopping,
}

impl StopPhase {
    /// The kind of reply this phase waits for.
    pub open spec fn awaits(self) -> ReplyKind {
        match self {
            StopPhase::Adapter => ReplyKind::Adapters,
            StopPhase::Stopping => ReplyKind::Plain,
        }
    }

    /// The kind of reply this phase waits for.
    pub(crate) fn kind(&self) -> (kind: ReplyKind)
        ensures
            kind == self.awaits(),
    {
        match self {
            StopPhase::Adapter => ReplyKind::Adapters,
            StopPhase::Stopping => ReplyKind::Plain,
        }
    }
}

/// How a scan is stopped: its task first, whatever becomes of the rest.
pub open spec fn stop_start<D, N>(h: HandlerView<D, N>, effects: Seq<Effect<D>>) -> (
    Out<D, N>,
    StepView<StopPhase>,
) {
    let h1 = h.without_scan();
    let effects1 = effects + h.abort_scan_effects();
    if h1.adapter is Some {
        (adapter_ready(h1, effects1), StepView::Ask(StopPhase::Stopping, Request::StopScan))
    } else {
        (Out { h: h1, effects: effects1 }, StepView::Ask(StopPhase::Adapter, Request::FindAdapters))
    }
}

/// How stopping a scan goes on after a reply. That the adapter fails to stop is no error:
/// the scan may have come to its end by itself.
pub open spec fn stop_step<D, N>(
    h: HandlerView<D, N>,
    effects: Seq<Effect<D>>,
    phase: StopPhase,
    reply: Reply,
) -> (Out<D, N>, StepView<StopPhase>) {
    match (phase, reply) {
        (StopPhase::Adapter, Reply::Adapters(found)) => match first_adapter(found) {
            Err(e) => (Out { h, effects }, StepView::Done(Err(e))),
            Ok(_) => (
                adapter_found(h, effects, found),
                StepView::Ask(StopPhase::Stopping, Request::StopScan),
            ),
        },
        _ => (
            Out { h, effects: effects.push(Effect::ScanUpdate(false)) },
            StepView::Done(Ok(())),
        ),
    }
}

/// A scan being stopped; `None` once that is over.
pub struct StopScanCall {
    phase: Option<StopPhase>,
}

impl View for StopScanCall {
    type V = Option<StopPhase>;

    closed spec fn view(&self) -> Option<StopPhase> {
        self.phase
    }
}

impl<D, N> Handler<D, N> {
    /// Begins to stop the scan.
    pub(crate) fn begin_stop_scan(&mut self, out: &mut Vec<Effect<D>>) -> (step: Step<StopPhase>)
        ensures
            ({
                let (o, s) = stop_start(old(self)@, old(out)@);
                &&& final(self)@ == o.h
                &&& final(out)@ == o.effects
                &&& step@ == s
            }),
    {
        match self.scan_task.take() {
            Some(handle) => {
                out.push(Effect::AbortScan(handle.task));
            },
            None => {},
        }
        proof {
            assert(out@ =~= old(out)@ + old(self)@.abort_scan_effects());
            assert(self@ =~= old(self)@.without_scan());
        }
        if self.adapter.is_some() {
            self.start_event_pump(out);
            Step::Ask(StopPhase::Stopping, Request::StopScan)
        } else {
            Step::Ask(StopPhase::Adapter, Request::FindAdapters)
        }
    }

    /// Goes on with stopping the scan.
    pub(crate) fn stop_scan_step(
        &mut self,
        phase: StopPhase,
        reply: Reply,
        out: &mut Vec<Effect<D>>,
    ) -> (step: Step<StopPhase>)
        requires
            reply.spec_kind() == phase.awaits(),
        ensures
            ({
                let (o, s) = stop_step(old(self)@, old(out)@, phase, reply);
                &&& final(self)@ == o.h
                &&& final(out)@ == o.effects
                &&& step@ == s
            }),
    {
        match (phase, reply) {
            (StopPhase::Adapter, Reply::Adapters(found)) => match self.use_adapter(found, out) {
                Err(e) => Step::Done(Err(e)),
                Ok(_) => Step::Ask(StopPhase::Stopping, Request::StopScan),
            },
            _ => {
                out.push(Effect::ScanUpdate(false));
                Step::Done(Ok(()))
            },
        }
    }

    /// Stops the scan that is running.
    pub fn stop_scan(&mut self, out: &mut Vec<Effect<D>>) -> (started: (StopScanCall, Next<()>))
        ensures
            ({
                let (o, s) = stop_start(old(self)@, old(out)@);
                &&& final(self)@ == o.h
                &&& final(out)@ == o.effects
                &&& started.0@ == step_phase(s)
                &&& started.1@ == step_next(s)
            }),
    {
        match self.begin_stop_scan(out) {
            Step::Ask(phase, request) => (StopScanCall { phase: Some(phase) }, Next::Ask(request)),
            Step::Done(result) => (StopScanCall { phase: None }, Next::Done(result)),
        }
    }
}

impl StopScanCall {
    /// Whether this call waits for a reply of this kind.
    pub open spec fn spec_expects(self, kind: ReplyKind) -> bool {
        self@ is Some && self@->0.awaits() == kind
    }

    /// Whether this call waits for a reply of this kind.
    pub fn expects(&self, kind: ReplyKind) -> (expected: bool)
        ensures
            expected == self.spec_expects(kind),
    {
        match &self.phase {
            Some(phase) => phase.kind() == kind,
            None => false,
        }
    }

    /// Goes on with the call after the reply to its last request.
    pub fn step<D, N>(
        &mut self,
        handler: &mut Handler<D, N>,
        reply: Reply,
        out: &mut Vec<Effect<D>>,
    ) -> (next: Next<()>)
        requires
            old(self).spec_expects(reply.spec_kind()),
        ensures
            ({
                let (o, s) = stop_step(old(handler)@, old(out)@, old(self)@->0, reply);
                &&& final(handler)@ == o.h
                &&& final(out)@ == o.effects
                &&& final(self)@ == step_phase(s)
                &&& next@ == step_next(s)
            }),
    {
        match self.phase.take() {
            Some(phase) => match handler.stop_scan_step(phase, reply, out) {
                Step::Ask(phase, request) => {
                    self.phase = Some(phase);
                    Next::Ask(request)
                },
                Step::Done(result) => Next::Done(result),
            },
            None => Next::Done(Ok(())),
        }
    }
}

/// How far a scan task has got.
#[derive(Clone, Copy, Debug)]
pub enum ScanPhase {
    /// Not begun.
    Idle,
    /// Waiting before the next poll.
    Sleeping,
    /// The backend lists the devices in range.
    Listing,
    /// The backend describes the devices that the filter kept.
    Describing,
    /// The devices are sent.
    Sending,
    /// The adapter stops scanning.
    Stopping,
    /// Over.
    Ended,
}

/// A task that polls for devices. It is begun once, and then goes on with every reply.
pub struct ScanTask {
    pub task: u64,
    pub sink: Sink,
    pub filter: ScanFilter,
    /// How many polls are left.
    pub polls: u64,
    pub phase: ScanPhase,
}

/// What a scan task asks the host for.
pub enum ScanRequest {
    /// Wait so many milliseconds.
    Sleep(u64),
    /// List the devices in range and what they advertise.
    List,
    /// Describe these devices.
    Describe(Vec<Peripheral>),
    /// Send the devices to the sink.
    Send(Sink, Vec<BleDevice>),
    /// Stop scanning on the adapter.
    StopScan,
}

/// What came of a request of a scan task.
pub enum ScanReply {
    /// To `Sleep`, `Send` and `StopScan`: whether it worked.
    Plain(bool),
    /// To `List`.
    Listed(Result<Vec<Candidate>, BackendError>),
    /// To `Describe`.
    Described(Vec<Found>),
}

/// What a scan task does next.
pub enum ScanNext {
    Ask(ScanRequest),
    /// The task is over.
    Done,
    /// The task breaks off, because the devices could not be listed or sent.
    Failed,
}

impl ScanPhase {
    /// Whether a reply answers what this phase asked for.
    pub open spec fn fits(self, reply: ScanReply) -> bool {
        match self {
            ScanPhase::Idle => false,
            ScanPhase::Sleeping => reply is Plain,
            ScanPhase::Listing => reply is Listed,
            ScanPhase::Describing => reply is Described,
            ScanPhase::Sending => reply is Plain,
            ScanPhase::Stopping => reply is Plain,
            ScanPhase::Ended => false,
        }
    }
}

impl ScanTask {
    /// Whether the task waits for such a reply.
    pub fn expects(&self, reply: &ScanReply) -> (expected: bool)
        ensures
            expected == self.phase.fits(*reply),
    {
        match (self.phase, reply) {
            (ScanPhase::Sleeping, ScanReply::Plain(_)) => true,
            (ScanPhase::Listing, ScanReply::Listed(_)) => true,
            (ScanPhase::Describing, ScanReply::Described(_)) => true,
            (ScanPhase::Sending, ScanReply::Plain(_)) => true,
            (ScanPhase::Stopping, ScanReply::Plain(_)) => true,
            _ => false,
        }
    }
}

/// The state once a scan task has ended: if it is still the current one, it is finished.
pub open spec fn scan_ended<D, N>(h: HandlerView<D, N>, task: u64) -> HandlerView<D, N> {
    match h.scan_task {
        Some(handle) => if handle.task == task {
            HandlerView { scan_task: Some(ScanHandle { task, finished: true }), ..h }
        } else {
            h
        },
        None => h,
    }
}

/// A scan task as it goes on with a phase.
pub open spec fn in_phase(t: ScanTask, phase: ScanPhase) -> ScanTask {
    ScanTask { phase, ..t }
}

/// A scan task that has done a poll: it goes on with the next one, or with the end.
pub open spec fn polled(t: ScanTask) -> ScanTask {
    if t.polls > 1 {
        ScanTask { polls: (t.polls - 1) as u64, phase: ScanPhase::Sleeping, ..t }
    } else {
        ScanTask { polls: 0, phase: ScanPhase::Stopping, ..t }
    }
}

/// What a scan task asks for once it has done a poll.
pub open spec fn polled_request(t: ScanTask, request: ScanRequest) -> bool {
    if t.polls > 1 {
        request == ScanRequest::Sleep(POLL_INTERVAL_MS)
    } else {
        request == ScanRequest::StopScan
    }
}

/// The peripherals among the devices in range that the filter keeps.
pub open spec fn kept_peripherals(listed: Seq<Candidate>, filter: ScanFilter) -> Seq<Peripheral> {
    sifted(listed, filter, listed.len()).map_values(|c: Candidate| c.peripheral)
}

/// How a scan task goes on: from state `h` and task `t` to `h2` and `t2`, with `next`.
pub open spec fn scan_step<D, N>(
    h: HandlerView<D, N>,
    t: ScanTask,
    reply: ScanReply,
    h2: HandlerView<D, N>,
    t2: ScanTask,
    next: ScanNext,
) -> bool {
    match (t.phase, reply) {
        (ScanPhase::Sleeping, _) => {
            &&& h2 == h
            &&& t2 == in_phase(t, ScanPhase::Listing)
            &&& next == ScanNext::Ask(ScanRequest::List)
        },
        (ScanPhase::Listing, ScanReply::Listed(Err(_))) => {
            &&& h2 == scan_ended(h, t.task)
            &&& t2 == in_phase(t, ScanPhase::Ended)
            &&& next is Failed
        },
        (ScanPhase::Listing, ScanReply::Listed(Ok(listed))) => {
            &&& h2 == h
            &&& t2 == in_phase(t, ScanPhase::Describing)
            &&& next matches ScanNext::Ask(ScanRequest::Describe(peripherals)) && peripherals@
                == kept_peripherals(listed@, t.filter)
        },
        (ScanPhase::Describing, ScanReply::Described(found)) => {
            let devices = by_address(described(found@));
            &&& h2 == (HandlerView { devices: indexed(h.devices, found@), ..h })
            &&& if devices.len() > 0 && t.sink !is Nobody {
                &&& t2 == in_phase(t, ScanPhase::Sending)
                &&& next matches ScanNext::Ask(ScanRequest::Send(sink, sent)) && sink == t.sink
                    && sent@ == devices
            } else {
                &&& t2 == polled(t)
                &&& next matches ScanNext::Ask(request) && polled_request(t, request)
            }
        },
        (ScanPhase::Sending, ScanReply::Plain(true)) => {
            &&& h2 == h
            &&& t2 == polled(t)
            &&& next matches ScanNext::Ask(request) && polled_request(t, request)
        },
        (ScanPhase::Sending, _) => {
            &&& h2 == scan_ended(h, t.task)
            &&& t2 == in_phase(t, ScanPhase::Ended)
            &&& next is Failed
        },
        _ => {
            &&& h2 == scan_ended(h, t.task)
            &&& t2 == in_phase(t, ScanPhase::Ended)
            &&& next is Done
        },
    }
}

/// The effects of a step of a scan task: its regular end is reported.
pub open spec fn scan_step_effects<D>(t: ScanTask) -> Seq<Effect<D>> {
    if t.phase is Stopping {
        seq![Effect::ScanUpdate(false)]
    } else {
        Seq::empty()
    }
}

impl ScanTask {
    /// Begins the task: what earlier scans have found is forgotten.
    pub fn begin<D, N>(&mut self, handler: &mut Handler<D, N>) -> (next: ScanNext)
        requires
            old(self).phase is Idle,
        ensures
            final(handler)@ == (HandlerView { devices: Map::empty(), ..old(handler)@ }),
            *final(self) == in_phase(*old(self), ScanPhase::Sleeping),
            next == ScanNext::Ask(ScanRequest::Sleep(POLL_INTERVAL_MS)),
    {
        handler.devices.clear();
        self.phase = ScanPhase::Sleeping;
        ScanNext::Ask(ScanRequest::Sleep(POLL_INTERVAL_MS))
    }

    /// Goes on with the task after the reply to its last request.
    pub fn step<D, N>(
        &mut self,
        handler: &mut Handler<D, N>,
        reply: ScanReply,
        out: &mut Vec<Effect<D>>,
    ) -> (next: ScanNext)
        requires
            old(self).phase.fits(reply),
        ensures
            scan_step(
                old(handler)@,
                *old(self),
                reply,
                final(handler)@,
                *final(self),
                next,
            ),
            final(out)@ == old(out)@ + scan_step_effects(*old(self)),
    {
        proof {
            assert(old(out)@ + Seq::<Effect<D>>::empty() =~= old(out)@);
        }
        match (self.phase, reply) {
            (ScanPhase::Sleeping, _) => {
                self.phase = ScanPhase::Listing;
                ScanNext::Ask(ScanRequest::List)
            },
            (ScanPhase::Listing, ScanReply::Listed(Ok(listed))) => {
                let mut listed = listed;
                filter_peripherals(&mut listed, &self.filter);
                self.phase = ScanPhase::Describing;
                ScanNext::Ask(ScanRequest::Describe(peripherals_of(&listed)))
            },
            (ScanPhase::Describing, ScanReply::Described(found)) => {
                let devices = handler.devices.add_devices(found);
                let wanted = match self.sink {
                    Sink::Nobody => false,
                    _ => true,
                };
                if devices.len() > 0 && wanted {
                    self.phase = ScanPhase::Sending;
                    ScanNext::Ask(ScanRequest::Send(self.sink, devices))
                } else {
                    self.poll_done()
                }
            },
            (ScanPhase::Sending, ScanReply::Plain(true)) => self.poll_done(),
            (ScanPhase::Stopping, _) => {
                out.push(Effect::ScanUpdate(false));
                proof {
                    assert(out@ =~= old(out)@ + scan_step_effects(*old(self)));
                }
                self.end(handler);
                ScanNext::Done
            },
            _ => {
                self.end(handler);
                ScanNext::Failed
            },
        }
    }

    fn poll_done(&mut self) -> (next: ScanNext)
        ensures
            *final(self) == polled(*old(self)),
            next matches ScanNext::Ask(request) && polled_request(*old(self), request),
    {
        if self.polls > 1 {
            self.polls = self.polls - 1;
            self.phase = ScanPhase::Sleeping;
            ScanNext::Ask(ScanRequest::Sleep(POLL_INTERVAL_MS))
        } else {
            self.polls = 0;
            self.phase = ScanPhase::Stopping;
            ScanNext::Ask(ScanRequest::StopScan)
        }
    }

    fn end<D, N>(&mut self, handler: &mut Handler<D, N>)
        ensures
            final(handler)@ == scan_ended(old(handler)@, old(self).task),
            *final(self) == in_phase(*old(self), ScanPhase::Ended),
    {
        self.phase = ScanPhase::Ended;
        match handler.scan_task {
            Some(handle) => if handle.task == self.task {
                handler.scan_task = Some(ScanHandle { task: self.task, finished: true });
            },
            None => {},
        }
    }
}

fn peripherals_of(listed: &Vec<Candidate>) -> (peripherals: Vec<Peripheral>)
    ensures
        peripherals@ == listed@.map_values(|c: Candidate| c.peripheral),
{
    let mut peripherals: Vec<Peripheral> = Vec::new();
    let mut i: usize = 0;
    let ghost all = listed@.map_values(|c: Candidate| c.peripheral);
    while i < listed.len()
        invariant
            i <= listed@.len(),
            all == listed@.map_values(|c: Candidate| c.peripheral),
            peripherals@ == all.take(i as int),
        decreases listed.len() - i,
    {
        peripherals.push(listed[i].peripheral);
        i = i + 1;
        proof {
            assert(all.take(i as int) =~= all.take(i - 1).push(all[i - 1]));
        }
    }
    proof {
        assert(all.take(i as int) =~= all);
    }
    peripherals
}

/// How many more times a scan task will list the devices in range.
pub open spec fn lists_left(t: ScanTask) -> int {
    match t.phase {
        ScanPhase::Idle => t.polls as int,
        ScanPhase::Sleeping => t.polls as int,
        ScanPhase::Listing => t.polls - 1,
        ScanPhase::Describing => t.polls - 1,
        ScanPhase::Sending => t.polls - 1,
        ScanPhase::Stopping => 0,
        ScanPhase::Ended => 0,
    }
}

/// A scan task that is begun has as many polls before it as its time limit asks for, each
/// step does what is left to do, and the task is over only when nothing is left, unless it
/// breaks off.
pub proof fn scans_poll_as_often_as_ordered<D, N>(
    h: HandlerView<D, N>,
    order: ScanOrder,
    task: u64,
    t: ScanTask,
    reply: ScanReply,
    h2: HandlerView<D, N>,
    t2: ScanTask,
    next: ScanNext,
)
    requires
        t.polls > 0 || t.phase is Stopping,
        t.phase.fits(reply),
        scan_step(h, t, reply, h2, t2, next),
    ensures
        lists_left(scan_task(task, order)) == polls(order.timeout),
        polls(order.timeout) >= 1,
        t2.polls > 0 || t2.phase is Stopping || t2.phase is Ended,
        next !is Failed ==> lists_left(t) == lists_left(t2) + (if next == ScanNext::Ask(
            ScanRequest::List,
        ) {
            1int
        } else {
            0
        }),
        next is Done ==> lists_left(t) == 0,
{
}

/// When a new scan is asked of the adapter, no scan task is left over.
pub proof fn scans_replace_each_other<D, N>(out: Out<D, N>, allow_ibeacons: bool)
    ensures
        ({
            let (o, step) = replace_scan(out, allow_ibeacons);
            &&& o.h.scan_task is None
            &&& step matches StepView::Ask(DiscoverPhase::Starting, _) ==> out.h.scan_task is None
            &&& out.h.scan_task matches Some(handle) ==> o.effects == out.effects.push(
                Effect::AbortScan(handle.task),
            ) && step == StepView::Ask(DiscoverPhase::Stopping, Request::StopScan)
        }),
{
    let (o, _) = replace_scan(out, allow_ibeacons);
    match out.h.scan_task {
        Some(handle) => {
            assert(o.effects =~= out.effects.push(Effect::AbortScan(handle.task)));
        },
        None => {},
    }
}

} // verus!
