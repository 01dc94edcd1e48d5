//! When the handler of a plugin is ready, and what the end of the application asks of it.

use crate::error::{Error, ErrorView};
use crate::exchange::result_view;
use vstd::prelude::*;

verus! {

/// How long a command waits for the start on android, in milliseconds.
pub const ANDROID_INIT_TIMEOUT_MS: u64 = 10_000;

/// Whether a command can go on.
pub enum Readiness {
    /// It can, or the start has failed.
    Known(Result<(), Error>),
    /// The start is not over: wait for it, at most so many milliseconds.
    Wait(u64),
}

/// What a command gets, from the state of the start: an error of the start is passed on.
pub open spec fn readiness(state: Option<Result<(), String>>) -> Result<(), ErrorView> {
    match state {
        Some(Ok(_)) => Ok(()),
        Some(Err(e)) => Err(ErrorView::Android(e@)),
        None => Err(ErrorView::HandlerNotInitialized),
    }
}

/// Whether a command can go on, from the state of the start, which is `None` until the start
/// is over.
pub fn ready(state: Option<Result<(), String>>) -> (ready: Readiness)
    ensures
        match state {
            None => ready == Readiness::Wait(ANDROID_INIT_TIMEOUT_MS),
            Some(_) => ready matches Readiness::Known(result) && result_view(result)
                == readiness(state),
        },
{
    match state {
        Some(Ok(_)) => Readiness::Known(Ok(())),
        Some(Err(e)) => Readiness::Known(Err(Error::Android(e))),
        None => Readiness::Wait(ANDROID_INIT_TIMEOUT_MS),
    }
}

/// Whether a command can go on after it has waited. `in_time` tells whether the state of the
/// start has changed in time.
pub fn ready_after_wait(in_time: bool, state: Option<Result<(), String>>) -> (result: Result<
    (),
    Error,
>)
    ensures
        result_view(result) == if in_time {
            readiness(state)
        } else {
            Err(ErrorView::HandlerNotInitialized)
        },
{
    if !in_time {
        return Err(Error::HandlerNotInitialized);
    }
    match state {
        Some(Ok(_)) => Ok(()),
        Some(Err(e)) => Err(Error::Android(e)),
        None => Err(Error::HandlerNotInitialized),
    }
}

/// What an application goes through.
#[derive(Clone, Copy, Debug, PartialEq, Eq, Structural)]
pub enum RunEvent {
    Ready,
    ExitRequested,
    Exit,
    Other,
}

/// What the plugin does about it.
#[derive(Clone, Copy, Debug, PartialEq, Eq, Structural)]
pub enum PluginAction {
    /// Set the handler up, which takes an activity.
    InitAndroid,
    /// Disconnect: a link that is left open keeps the device from advertising.
    Disconnect,
    Nothing,
}

/// What the plugin does about an event. `connected` tells whether there is a handler with a
/// connected device.
pub fn on_event(event: RunEvent, on_android: bool, connected: bool) -> (action: PluginAction)
    ensures
        action == PluginAction::InitAndroid <==> event == RunEvent::Ready && on_android,
        action == PluginAction::Disconnect <==> (event == RunEvent::Exit || event
            == RunEvent::ExitRequested) && connected,
{
    match event {
        RunEvent::Ready => if on_android {
            PluginAction::InitAndroid
        } else {
            PluginAction::Nothing
        },
        RunEvent::Exit | RunEvent::ExitRequested => if connected {
            PluginAction::Disconnect
        } else {
            PluginAction::Nothing
        },
        RunEvent::Other => PluginAction::Nothing,
    }
}

} // verus!
