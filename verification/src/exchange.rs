//! What the handler and its host tell each other.
//!
//! The handler decides; the host talks to the Bluetooth backend. Each call of the handler
//! is a conversation: the handler asks for one thing at a time, the host does it and hands
//! back what came of it, until the call is done. On the way the handler lists effects,
//! which the host carries out in order before it turns to the request.

use crate::error::{BackendError, Error, ErrorView};
use crate::handler::scan::ScanTask;
use crate::handler::CentralState;
use crate::models::{BleDevice, Peripheral, Service};
use vstd::prelude::*;

verus! {

/// A callback for the end of a connection. `D` is what the host calls.
#[derive(Clone, Copy, Debug)]
pub enum OnDisconnectHandler<D> {
    /// Nothing to call.
    Unset,
    Sync(D),
    Async(D),
}

impl<D> OnDisconnectHandler<D> {
    /// Takes the callback out and leaves none behind.
    pub fn take(&mut self) -> (taken: Self)
        ensures
            taken == *old(self),
            *final(self) == OnDisconnectHandler::<D>::Unset,
    {
        let mut taken = OnDisconnectHandler::Unset;
        std::mem::swap(self, &mut taken);
        taken
    }

    /// A callback whose result is awaited.
    pub fn from_async(func: D) -> (handler: Self)
        ensures
            handler == OnDisconnectHandler::Async(func),
    {
        OnDisconnectHandler::Async(func)
    }

    /// A plain callback.
    pub fn from_sync(func: D) -> (handler: Self)
        ensures
            handler == OnDisconnectHandler::Sync(func),
    {
        OnDisconnectHandler::Sync(func)
    }
}

/// A callback for notifications. `N` is what the host calls.
#[derive(Clone, Copy, Debug)]
pub enum SubscriptionHandler<N> {
    Sync(N),
    Async(N),
}

impl<N> SubscriptionHandler<N> {
    /// A callback whose result is awaited.
    pub fn from_async(func: N) -> (handler: Self)
        ensures
            handler == SubscriptionHandler::Async(func),
    {
        SubscriptionHandler::Async(func)
    }
}

impl<N> From<N> for SubscriptionHandler<N> {
    /// A plain callback.
    fn from(func: N) -> (handler: Self) {
        SubscriptionHandler::Sync(func)
    }
}

impl<N> vstd::std_specs::convert::FromSpecImpl<N> for SubscriptionHandler<N> {
    open spec fn obeys_from_spec() -> bool {
        true
    }

    open spec fn from_spec(func: N) -> Self {
        SubscriptionHandler::Sync(func)
    }
}

/// Something the host has to do, with nothing to report back.
pub enum Effect<D> {
    /// Use this one of the adapters from now on.
    UseAdapter(u64),
    /// Start to forward the adapter's events to [`crate::Handler::handle_event`].
    StartEventPump,
    /// Start a task that forwards the device's notifications.
    StartNotify { task: u64, device: Peripheral },
    /// Stop that task.
    AbortNotify(u64),
    /// Start a task that polls for devices.
    SpawnScan(ScanTask),
    /// Stop that task.
    AbortScan(u64),
    /// Call the callback for the end of a connection.
    RunDisconnect(OnDisconnectHandler<D>),
    /// Tell every connection update channel.
    ConnectionUpdate(bool),
    /// Tell every scanning update channel.
    ScanUpdate(bool),
    /// Wake those who wait for a change of a link. The connected flag is now this.
    Signal(bool),
}

/// Something the host has to do and report back on.
#[derive(Clone, Copy, Debug)]
pub enum Request {
    /// List the adapters.
    FindAdapters,
    /// Scan on the adapter.
    StartScan,
    /// Stop scanning on the adapter.
    StopScan,
    /// Wait for the next devices that the scan of this call reports.
    NextDevices,
    /// Let the backend look the device up again, and use the record it comes back with.
    Retrieve(Peripheral),
    /// Ask the backend whether the device is connected.
    IsConnected(Peripheral),
    /// Connect the device within so many milliseconds.
    Connect(Peripheral, u64),
    /// Disconnect the device.
    Disconnect(Peripheral),
    /// Wait until there were more signals than `seen`, at most so many milliseconds if a
    /// number is given.
    AwaitSignal { seen: u64, timeout: Option<u64> },
    /// Wait so many milliseconds.
    Sleep(u64),
    /// Read the services that the backend has discovered so far.
    ReadServices(Peripheral),
    /// Discover the services of the device within so many milliseconds.
    DiscoverServices(Peripheral, u64),
    /// Read the state of the adapter.
    ReadState,
}

/// The outcome of a request with a time limit.
pub enum Timed<T> {
    Done(T),
    Failed(BackendError),
    TimedOut,
}

/// The outcome of waiting for a signal.
#[derive(Clone, Copy, Debug, PartialEq, Eq, Structural)]
pub enum Signal {
    Changed,
    /// No signal will ever come.
    Closed,
    TimedOut,
}

/// What came of a request.
pub enum Reply {
    /// To `Retrieve`, `Disconnect`, `StartScan`, `StopScan` and `Sleep`.
    Plain(Result<(), BackendError>),
    /// To `Connect`.
    Connected(Timed<()>),
    /// To `IsConnected`.
    Flag(Result<bool, BackendError>),
    /// To `AwaitSignal`.
    Signal(Signal),
    /// To `FindAdapters`.
    Adapters(Result<Vec<u64>, BackendError>),
    /// To `NextDevices`: `None` once the scan is over.
    Devices(Option<Vec<BleDevice>>),
    /// To `DiscoverServices`, and to `ReadServices`, which always succeeds.
    Services(Timed<Vec<Service>>),
    /// To `ReadState`.
    State(Result<CentralState, BackendError>),
}

/// The kinds of replies.
#[derive(Clone, Copy, Debug, PartialEq, Eq, Structural)]
pub enum ReplyKind {
    Plain,
    Connected,
    Flag,
    Signal,
    Adapters,
    Devices,
    Services,
    State,
}

impl Request {
    /// The kind of reply that answers this request.
    pub open spec fn spec_kind(self) -> ReplyKind {
        match self {
            Request::FindAdapters => ReplyKind::Adapters,
            Request::StartScan => ReplyKind::Plain,
            Request::StopScan => ReplyKind::Plain,
            Request::NextDevices => ReplyKind::Devices,
            Request::Retrieve(_) => ReplyKind::Plain,
            Request::IsConnected(_) => ReplyKind::Flag,
            Request::Connect(_, _) => ReplyKind::Connected,
            Request::Disconnect(_) => ReplyKind::Plain,
            Request::AwaitSignal { .. } => ReplyKind::Signal,
            Request::Sleep(_) => ReplyKind::Plain,
            Request::ReadServices(_) => ReplyKind::Services,
            Request::DiscoverServices(_, _) => ReplyKind::Services,
            Request::ReadState => ReplyKind::State,
        }
    }

    /// The kind of reply that answers this request.
    pub fn kind(&self) -> (kind: ReplyKind)
        ensures
            kind == self.spec_kind(),
    {
        match self {
            Request::FindAdapters => ReplyKind::Adapters,
            Request::StartScan => ReplyKind::Plain,
            Request::StopScan => ReplyKind::Plain,
            Request::NextDevices => ReplyKind::Devices,
            Request::Retrieve(_) => ReplyKind::Plain,
            Request::IsConnected(_) => ReplyKind::Flag,
            Request::Connect(_, _) => ReplyKind::Connected,
            Request::Disconnect(_) => ReplyKind::Plain,
            Request::AwaitSignal { .. } => ReplyKind::Signal,
            Request::Sleep(_) => ReplyKind::Plain,
            Request::ReadServices(_) => ReplyKind::Services,
            Request::DiscoverServices(_, _) => ReplyKind::Services,
            Request::ReadState => ReplyKind::State,
        }
    }
}

impl Reply {
    /// The kind of this reply.
    pub open spec fn spec_kind(self) -> ReplyKind {
        match self {
            Reply::Plain(_) => ReplyKind::Plain,
            Reply::Connected(_) => ReplyKind::Connected,
            Reply::Flag(_) => ReplyKind::Flag,
            Reply::Signal(_) => ReplyKind::Signal,
            Reply::Adapters(_) => ReplyKind::Adapters,
            Reply::Devices(_) => ReplyKind::Devices,
            Reply::Services(_) => ReplyKind::Services,
            Reply::State(_) => ReplyKind::State,
        }
    }

    /// The kind of this reply.
    pub fn kind(&self) -> (kind: ReplyKind)
        ensures
            kind == self.spec_kind(),
    {
        match self {
            Reply::Plain(_) => ReplyKind::Plain,
            Reply::Connected(_) => ReplyKind::Connected,
            Reply::Flag(_) => ReplyKind::Flag,
            Reply::Signal(_) => ReplyKind::Signal,
            Reply::Adapters(_) => ReplyKind::Adapters,
            Reply::Devices(_) => ReplyKind::Devices,
            Reply::Services(_) => ReplyKind::Services,
            Reply::State(_) => ReplyKind::State,
        }
    }
}

/// What a call does next: ask the host for something, or return.
pub enum Next<T> {
    Ask(Request),
    Done(Result<T, Error>),
}

/// [`Next`] with the error viewed.
#[verifier::ext_equal]
pub ghost enum NextView<T> {
    Ask(Request),
    Done(Result<T, ErrorView>),
}

impl<T> NextView<T> {
    /// The call returns, and what it was made for has worked.
    pub open spec fn succeeded(self) -> bool {
        self matches NextView::Done(result) && result is Ok
    }
}

/// A result with its error viewed.
pub open spec fn result_view<T>(result: Result<T, Error>) -> Result<T, ErrorView> {
    match result {
        Ok(value) => Ok(value),
        Err(e) => Err(e@),
    }
}

impl<T> View for Next<T> {
    type V = NextView<T>;

    open spec fn view(&self) -> NextView<T> {
        match *self {
            Next::Ask(request) => NextView::Ask(request),
            Next::Done(result) => NextView::Done(result_view(result)),
        }
    }
}

/// What a part of a call does next: go on in another phase and ask the host for something,
/// or return to the call.
pub enum Step<P> {
    Ask(P, Request),
    Done(Result<(), Error>),
}

/// [`Step`] with the error viewed.
#[verifier::ext_equal]
pub ghost enum StepView<P> {
    Ask(P, Request),
    Done(Result<(), ErrorView>),
}

impl<P> StepView<P> {
    /// The part of the call is over, and has worked.
    pub open spec fn succeeded(self) -> bool {
        self matches StepView::Done(result) && result is Ok
    }
}

impl<P> View for Step<P> {
    type V = StepView<P>;

    open spec fn view(&self) -> StepView<P> {
        match *self {
            Step::Ask(phase, request) => StepView::Ask(phase, request),
            Step::Done(result) => StepView::Done(result_view(result)),
        }
    }
}

/// The result of a request that was run with a time limit: a failure of the backend is
/// passed on, and running out of time is reported under the name of the command.
pub open spec fn timed_result<T>(outcome: Timed<T>, cmd: Seq<char>) -> Result<T, ErrorView> {
    match outcome {
        Timed::Done(value) => Ok(value),
        Timed::Failed(e) => Err(ErrorView::Btleplug(e)),
        Timed::TimedOut => Err(ErrorView::Timeout(cmd)),
    }
}

/// Turns the outcome of a request that was run with a time limit into a result.
pub fn run_with_timeout<T>(outcome: Timed<T>, cmd: &str) -> (result: Result<T, Error>)
    ensures
        result_view(result) == timed_result(outcome, cmd@),
{
    match outcome {
        Timed::Done(value) => Ok(value),
        Timed::Failed(e) => Err(Error::Btleplug(e)),
        Timed::TimedOut => Err(Error::Timeout(cmd.to_owned())),
    }
}

} // verus!
