//! The core of a Bluetooth Low Energy client: what is connected, what was found, who is
//! told, and what to ask of the Bluetooth backend next.
//!
//! [`Handler`] is the entry point. It holds the state and makes the decisions; the host talks
//! to the backend. See [`exchange`] for how the two work together.

use vstd::prelude::*;

pub mod android;
pub mod ble;
pub mod error;
pub mod exchange;
pub mod filter;
pub mod handler;
pub mod index;
pub mod laws;
pub mod models;
pub mod plugin;
pub mod session;

pub use error::{BackendError, Error, ErrorView, Result};
pub use exchange::{OnDisconnectHandler, SubscriptionHandler};
pub use handler::Handler;
pub use models::Timeouts;

verus! {

/// Where an application keeps its handler. `H` is what the host wraps the handler in.
pub struct HandlerCell<H> {
    handler: Option<H>,
}

impl<H> View for HandlerCell<H> {
    type V = Option<H>;

    closed spec fn view(&self) -> Option<H> {
        self.handler
    }
}

impl<H> HandlerCell<H> {
    /// A place without a handler.
    pub fn new() -> (cell: Self)
        ensures
            cell@ is None,
    {
        HandlerCell { handler: None }
    }

    /// Keeps a handler that was set up. Where there is one already, that one stays, and it
    /// is returned.
    pub fn init(&mut self, handler: H) -> (kept: &H)
        ensures
            final(self)@ == Some(
                match old(self)@ {
                    Some(first) => first,
                    None => handler,
                },
            ),
            *kept == final(self)@->0,
    {
        if self.handler.is_none() {
            self.handler = Some(handler);
        }
        self.handler.as_ref().unwrap()
    }

    /// The handler.
    pub fn get_handler(&self) -> (handler: Result<&H>)
        ensures
            handler is Ok <==> self@ is Some,
            handler matches Ok(h) ==> *h == self@->0,
            handler matches Err(e) ==> e@ == ErrorView::HandlerNotInitialized,
    {
        match &self.handler {
            Some(handler) => Ok(handler),
            None => Err(Error::HandlerNotInitialized),
        }
    }
}

/// Checks whether the application may use Bluetooth. Only android asks for that at run time,
/// see [`android::check_permissions`]; everywhere else the answer is yes.
pub fn check_permissions(ask_if_denied: bool) -> (permitted: Result<bool>)
    ensures
        permitted == Ok::<bool, Error>(true),
{
    Ok(true)
}

} // verus!
