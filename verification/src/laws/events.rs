//! What the handler makes of the adapter's events, and what it starts with.

use crate::exchange::Effect;
use crate::handler::{
    event_next, fresh, unwanted_link, CentralEvent, CentralState, Guest, HandlerView,
};
use crate::laws::disconnect::{clearing_ends_the_connection, over, tells_the_end};
use crate::models::{Peripheral, Timeouts};
use vstd::prelude::*;

verus! {

/// A new handler has found nothing, is not connected, waits for nothing and tells nobody.
pub proof fn new_handlers_are_blank<D, N>(timeouts: Timeouts)
    ensures
        ({
            let h = fresh::<D, N>(timeouts);
            &&& h.devices.dom() == Set::<Seq<char>>::empty()
            &&& h.adapter is None
            &&& !h.event_pump
            &&& h.listeners.len() == 0
            &&& !h.connected
            &&& h.connected_dev is None
            &&& h.guest is None
            &&& h.characs.len() == 0
            &&& h.listen_task is None
            &&& h.on_disconnect is Unset
            &&& h.connection_update_channel.len() == 0
            &&& h.scan_update_channel.len() == 0
            &&& h.scan_task is None
            &&& h.timeouts == timeouts
            &&& h.write_timeout_in_ms == 0
            &&& !h.skip_waiting_for_write_to_complete
            &&& !h.allow_ibeacons
        }),
{
}

/// The end of the link to the device that is held ends the connection, and so does the adapter
/// being switched off, whatever device that is and whatever state the connection is in.
pub proof fn lost_links_end_the_connection<D, N>(h: HandlerView<D, N>, device: Peripheral)
    requires
        h.connected_dev == Some(device),
        h.guest is None,
    ensures
        ({
            let gone = event_next(h, CentralEvent::DeviceDisconnected(device.id));
            let off = event_next(h, CentralEvent::StateUpdate(CentralState::PoweredOff));
            &&& over(h, gone.h)
            &&& tells_the_end(h, gone.effects)
            &&& over(h, off.h)
            &&& tells_the_end(h, off.effects)
        }),
{
    clearing_ends_the_connection(h);
}

/// The same holds while a guest is there: the connection is over and everybody is told, and
/// those who wait for the guest are woken if the event is about it, too.
pub proof fn lost_links_end_the_connection_beside_a_guest<D, N>(
    h: HandlerView<D, N>,
    device: Peripheral,
    guest: Guest,
)
    requires
        h.connected_dev == Some(device),
        h.guest == Some(guest),
        guest.device.id != device.id,
    ensures
        ({
            let gone = event_next(h, CentralEvent::DeviceDisconnected(device.id));
            let off = event_next(h, CentralEvent::StateUpdate(CentralState::PoweredOff));
            &&& over(h, gone.h)
            &&& tells_the_end(h, gone.effects)
            &&& off.h.connected_dev is None
            &&& off.h.guest is None
            &&& !off.h.connected
            &&& off.effects.last() == Effect::<D>::Signal(false)
            &&& tells_the_end(h, off.effects.drop_last())
        }),
{
    clearing_ends_the_connection(h);
    let off = event_next(h, CentralEvent::StateUpdate(CentralState::PoweredOff));
    assert(off.effects.drop_last() =~= h.clear_effects());
}

/// A link to the device that is held makes the handler connected, and those who wait are told;
/// nothing else changes.
pub proof fn awaited_links_are_reported<D, N>(h: HandlerView<D, N>, device: Peripheral)
    requires
        h.connected_dev == Some(device),
        h.guest is None,
    ensures
        ({
            let out = event_next(h, CentralEvent::DeviceConnected(device.id));
            &&& out.h == (HandlerView { connected: true, signals: out.h.signals, ..h })
            &&& out.h.signals != h.signals
            &&& out.effects == seq![Effect::<D>::Signal(true)]
            &&& !unwanted_link(h, CentralEvent::DeviceConnected(device.id))
        }),
{
    assert(h.signals.wrapping_add(1) != h.signals);
}

/// The links of a guest are taken note of, and those who wait are told; nothing else changes.
pub proof fn guests_are_reported<D, N>(h: HandlerView<D, N>, guest: Guest)
    requires
        h.guest == Some(guest),
        !h.is_current(guest.device.id),
    ensures
        ({
            let id = guest.device.id;
            let up = event_next(h, CentralEvent::DeviceConnected(id));
            let down = event_next(h, CentralEvent::DeviceDisconnected(id));
            &&& up.h == (HandlerView {
                guest: Some(Guest { device: guest.device, up: true }),
                signals: up.h.signals,
                ..h
            })
            &&& down.h == (HandlerView { guest: None, signals: down.h.signals, ..h })
            &&& up.h.signals != h.signals
            &&& down.h.signals != h.signals
            &&& up.effects == seq![Effect::<D>::Signal(h.connected)]
            &&& down.effects == seq![Effect::<D>::Signal(h.connected)]
            &&& !unwanted_link(h, CentralEvent::DeviceConnected(id))
        }),
{
    let id = guest.device.id;
    let up = event_next(h, CentralEvent::DeviceConnected(id));
    let down = event_next(h, CentralEvent::DeviceDisconnected(id));
    assert(h.signals.wrapping_add(1) != h.signals);
    assert(up.effects =~= seq![Effect::<D>::Signal(h.connected)]);
    assert(down.effects =~= seq![Effect::<D>::Signal(h.connected)]);
}

/// Events that are about nothing the handler holds change nothing. A link to a known device
/// that nobody asked for is hung up, and nothing else is.
pub proof fn other_events_change_nothing<D, N>(h: HandlerView<D, N>, id: u64, address: Seq<char>)
    ensures
        ({
            let nothing = |event: CentralEvent|
                event_next(h, event).h == h && event_next(h, event).effects.len() == 0;
            &&& nothing(CentralEvent::Other)
            &&& nothing(CentralEvent::StateUpdate(CentralState::PoweredOn))
            &&& nothing(CentralEvent::StateUpdate(CentralState::Unknown))
            &&& h.connected_dev is None && h.guest is None ==> nothing(
                CentralEvent::StateUpdate(CentralState::PoweredOff),
            )
            &&& (h.connected_dev matches Some(d) ==> d.id != id) && (h.guest matches Some(g)
                ==> g.device.id != id) ==> {
                &&& nothing(CentralEvent::DeviceConnected(id))
                &&& nothing(CentralEvent::DeviceDisconnected(id))
                &&& h.devices.dom().contains(address) && h.devices[address].id == id
                    ==> unwanted_link(h, CentralEvent::DeviceConnected(id))
            }
        }),
        !unwanted_link(h, CentralEvent::DeviceDisconnected(id)),
        !unwanted_link(h, CentralEvent::Other),
        (forall|a: Seq<char>| #[trigger]
            h.devices.dom().contains(a) ==> h.devices[a].id != id) ==> !unwanted_link(
            h,
            CentralEvent::DeviceConnected(id),
        ),
{
}

} // verus!
