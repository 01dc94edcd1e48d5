//! The calls to the Kotlin side that wait for an answer, and the channels it streams to.
//!
//! A call gets an id and waits until the Kotlin side answers under that id. A channel is
//! just an id that the Kotlin side sends values to.

use crate::error::{joined, Error, ErrorView};
use crate::exchange::result_view;
use crate::index::lookup;
use std::collections::HashMap;
use vstd::prelude::*;

verus! {

/// Added to the time limit of an operation for the call that carries it out, in
/// milliseconds: the limit in the handler is the one that fires, and this one is there for
/// a Kotlin side that never answers at all.
pub const IPC_TIMEOUT_MARGIN_MS: u64 = 5000;

/// Who waits for answers and values. `P` is what the host hands an answer to, `C` what it
/// hands the values of a channel to.
pub struct Bridge<P, C> {
    pending: HashMap<u64, P>,
    channels: HashMap<u64, C>,
    next_id: u64,
}

/// The state of a [`Bridge`].
#[verifier::ext_equal]
pub ghost struct BridgeView<P, C> {
    /// The calls that wait for an answer.
    pub pending: Map<u64, P>,
    /// The channels that are open.
    pub channels: Map<u64, C>,
    /// The id that is given out next.
    pub next_id: u64,
}

impl<P, C> View for Bridge<P, C> {
    type V = BridgeView<P, C>;

    closed spec fn view(&self) -> BridgeView<P, C> {
        BridgeView {
            pending: self.pending@,
            channels: self.channels@,
            next_id: self.next_id,
        }
    }
}

impl<P, C> BridgeView<P, C> {
    /// Whether an id stands for a call or a channel.
    pub open spec fn in_use(self, id: u64) -> bool {
        self.pending.dom().contains(id) || self.channels.dom().contains(id)
    }

    /// Every id in use was given out before.
    pub open spec fn orderly(self) -> bool {
        forall|id: u64| #[trigger] self.in_use(id) ==> id < self.next_id
    }

    /// After a call has begun that `tx` waits for.
    pub open spec fn calling(self, tx: P) -> Self {
        BridgeView {
            pending: self.pending.insert(self.next_id, tx),
            next_id: self.next_id.wrapping_add(1),
            ..self
        }
    }

    /// After a channel was opened that leads to `tx`.
    pub open spec fn opening(self, tx: C) -> Self {
        BridgeView {
            channels: self.channels.insert(self.next_id, tx),
            next_id: self.next_id.wrapping_add(1),
            ..self
        }
    }
}

impl<P, C> Bridge<P, C> {
    /// A bridge that nobody waits at.
    pub fn new() -> (bridge: Self)
        ensures
            bridge@ == (BridgeView::<P, C> {
                pending: Map::empty(),
                channels: Map::empty(),
                next_id: 1,
            }),
    {
        Bridge { pending: HashMap::new(), channels: HashMap::new(), next_id: 1 }
    }

    /// Begins a call whose answer goes to `tx`, and returns its id.
    pub fn begin_call(&mut self, tx: P) -> (id: u64)
        ensures
            id == old(self)@.next_id,
            final(self)@ == old(self)@.calling(tx),
    {
        broadcast use vstd::std_specs::hash::group_hash_axioms;

        let id: u64 = self.next_id;
        self.next_id = id.wrapping_add(1);
        let _ = self.pending.insert(id, tx);
        id
    }

    /// Takes a call off the list, which nobody waits for any more.
    pub fn forget_call(&mut self, id: u64)
        ensures
            final(self)@ == (BridgeView {
                pending: old(self)@.pending.remove(id),
                ..old(self)@
            }),
    {
        broadcast use vstd::std_specs::hash::group_hash_axioms;

        let _ = self.pending.remove(&id);
    }

    /// Takes the call with this id off the list, and returns who waits for its answer. There
    /// is nobody if the call has run out of time, or was answered before.
    pub fn complete(&mut self, id: i64) -> (tx: Option<P>)
        ensures
            tx == lookup(old(self)@.pending, id as u64),
            final(self)@ == (BridgeView {
                pending: old(self)@.pending.remove(id as u64),
                ..old(self)@
            }),
    {
        broadcast use vstd::std_specs::hash::group_hash_axioms;

        let id: u64 = id as u64;
        self.pending.remove(&id)
    }

    /// Opens a channel that leads to `tx`, and returns its id.
    pub fn channel(&mut self, tx: C) -> (id: u64)
        ensures
            id == old(self)@.next_id,
            final(self)@ == old(self)@.opening(tx),
    {
        broadcast use vstd::std_specs::hash::group_hash_axioms;

        let id: u64 = self.next_id;
        self.next_id = id.wrapping_add(1);
        let _ = self.channels.insert(id, tx);
        id
    }

    /// Closes a channel: what is still sent to it is ignored.
    pub fn close_channel(&mut self, id: u64)
        ensures
            final(self)@ == (BridgeView {
                channels: old(self)@.channels.remove(id),
                ..old(self)@
            }),
    {
        broadcast use vstd::std_specs::hash::group_hash_axioms;

        let _ = self.channels.remove(&id);
    }

    /// Where a value that was sent to this channel goes. It goes nowhere if the channel is
    /// closed.
    pub fn receiver(&self, id: i64) -> (tx: Option<&C>)
        ensures
            tx is Some <==> self@.channels.dom().contains(id as u64),
            tx matches Some(tx) ==> *tx == self@.channels[id as u64],
    {
        broadcast use vstd::std_specs::hash::group_hash_axioms;

        let id: u64 = id as u64;
        self.channels.get(&id)
    }
}

/// How long to wait for the answer to a call, from the time limit of the operation.
pub fn ipc_timeout(timeout: u64) -> (limit: u64)
    ensures
        limit == if timeout + IPC_TIMEOUT_MARGIN_MS > u64::MAX {
            u64::MAX as int
        } else {
            timeout + IPC_TIMEOUT_MARGIN_MS
        },
{
    timeout.saturating_add(IPC_TIMEOUT_MARGIN_MS)
}

/// What became of a call.
pub enum Answer<T> {
    /// The Kotlin side answered with a value, or with an error message.
    Answered(Result<T, String>),
    /// The Kotlin side will not answer any more.
    Dropped,
    TimedOut,
}

/// The result of a call, from what became of it.
pub open spec fn answer_result<T>(answer: Answer<T>, cmd: Seq<char>) -> Result<T, ErrorView> {
    match answer {
        Answer::Answered(Ok(value)) => Ok(value),
        Answer::Answered(Err(message)) => Err(
            ErrorView::Android(cmd + " failed: "@ + message@),
        ),
        Answer::Dropped => Err(
            ErrorView::Android(cmd + " failed: "@ + "the android side dropped the call"@),
        ),
        Answer::TimedOut => Err(ErrorView::Timeout(cmd)),
    }
}

/// Turns what became of a call into its result.
pub fn call_result<T>(answer: Answer<T>, cmd: &str) -> (result: Result<T, Error>)
    ensures
        result_view(result) == answer_result(answer, cmd@),
{
    match answer {
        Answer::Answered(Ok(value)) => Ok(value),
        Answer::Answered(Err(message)) => Err(
            Error::Android(joined(joined(cmd, " failed: ").as_str(), message.as_str())),
        ),
        Answer::Dropped => Err(
            Error::Android(
                joined(joined(cmd, " failed: ").as_str(), "the android side dropped the call"),
            ),
        ),
        Answer::TimedOut => Err(Error::Timeout(cmd.to_owned())),
    }
}

/// The error of a call whose arguments could not be serialized.
pub fn arguments_error(cmd: &str, why: &str) -> (e: Error)
    ensures
        e@ == ErrorView::Android("could not serialize arguments of "@ + cmd@ + ": "@ + why@),
{
    let mut text = joined("could not serialize arguments of ", cmd);
    text.append(": ");
    text.append(why);
    Error::Android(text)
}

/// The error of a call whose answer does not have the form that was expected.
pub fn answer_error(cmd: &str, why: &str) -> (e: Error)
    ensures
        e@ == ErrorView::Android("could not deserialize the answer of "@ + cmd@ + ": "@ + why@),
{
    let mut text = joined("could not deserialize the answer of ", cmd);
    text.append(": ");
    text.append(why);
    Error::Android(text)
}

/// The error of a call that is made before the bridge is there.
pub fn not_initialized() -> (e: Error)
    ensures
        e@ == ErrorView::Android("android bridge not initialized"@),
{
    Error::Android("android bridge not initialized".to_owned())
}

/// Until the ids run out, a new call or channel gets an id that nothing else has, and a new
/// bridge is orderly.
pub proof fn ids_are_fresh<P, C>(b: BridgeView<P, C>, p: P, c: C)
    requires
        b.orderly(),
        b.next_id < u64::MAX,
    ensures
        !b.in_use(b.next_id),
        b.calling(p).orderly(),
        b.opening(c).orderly(),
{
    assert(b.next_id.wrapping_add(1) == b.next_id + 1);
    assert forall|id: u64| #[trigger] b.calling(p).in_use(id) implies id < b.calling(p).next_id by {
        assert(id == b.next_id || b.in_use(id));
    }
    assert forall|id: u64| #[trigger] b.opening(c).in_use(id) implies id < b.opening(c).next_id by {
        assert(id == b.next_id || b.in_use(id));
    }
}

/// An answer reaches who waits for it, once: a second answer to the same call reaches nobody,
/// and neither does an answer to a call that was forgotten. Other calls are not affected.
pub proof fn answers_arrive_once<P, C>(b: BridgeView<P, C>, tx: P, other: u64)
    ensures
        ({
            let called = b.calling(tx);
            let answered = called.pending.remove(b.next_id);
            &&& lookup(called.pending, b.next_id) == Some(tx)
            &&& lookup(answered, b.next_id) is None
            &&& other != b.next_id ==> lookup(answered, other) == lookup(b.pending, other)
        }),
{
}

} // verus!
