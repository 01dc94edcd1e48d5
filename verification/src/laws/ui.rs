//! What a user interface and the commands of a plugin are told.

use crate::ble::{shown_address, text_of, BleView};
use crate::error::ErrorView;
use crate::models::BleDevice;
use crate::plugin::readiness;
use vstd::prelude::*;

verus! {

/// Showing a device, or none, changes nothing else that is shown.
pub proof fn only_the_device_changes(ble: BleView, device: Option<BleDevice>)
    ensures
        ble.showing(device).connected == device,
        ble.showing(device).init == ble.init,
        ble.showing(device).scanning == ble.scanning,
        ble.showing(device).devices == ble.devices,
{
}

/// The address that a user interface goes by is that of the device it shows, whatever else is
/// known of that device.
pub proof fn shown_devices_go_by_their_address(ble: BleView, device: BleDevice, text: String)
    ensures
        shown_address(ble.showing(Some(device))) == Some(device.address@),
        shown_address(ble.showing(None)) is None,
        text_of(Some(text)) == Some(text@),
        text_of(None) is None,
{
}

/// A command goes on after a start that succeeded. One that failed is its error, with the text
/// that it had, and one that is not over is an error, too.
pub proof fn commands_need_the_start(state: Option<Result<(), String>>, why: String)
    ensures
        readiness(state) is Ok <==> (state is Some && state->0 is Ok),
        readiness(Some(Err(why))) == Err::<(), ErrorView>(ErrorView::Android(why@)),
        readiness(None) == Err::<(), ErrorView>(ErrorView::HandlerNotInitialized),
{
}

} // verus!
