//! Texts, filters, the device index, and what a user interface shows.

use blec::ble::{Ble, InitState, NotificationHook};
use blec::exchange::{run_with_timeout, Effect, Next, Reply, Timed};
use blec::filter::{check_filter, filter_peripherals, Candidate};
use blec::handler::scan::{ScanReply, Sink};
use blec::index::{DeviceIndex, Found};
use blec::models::{
    collect_characs, fmt_addr, BleDevice, CharacId, Characteristic, Peripheral, Properties,
    ScanFilter, Service,
};
use blec::plugin::{on_event, ready, ready_after_wait, PluginAction, Readiness, RunEvent};
use blec::{check_permissions, BackendError, Error, Handler, HandlerCell, Timeouts};
use std::collections::HashMap;

fn device(address: &str, name: &str) -> BleDevice {
    BleDevice {
        address: address.to_string(),
        name: name.to_string(),
        rssi: Some(-50),
        is_connected: false,
        is_bonded: false,
        tx_power_level: None,
        services: vec![],
        manufacturer_data: HashMap::new(),
        service_data: HashMap::new(),
    }
}

fn p(id: u64) -> Peripheral {
    Peripheral { id, address: [0, 0, 0, 0, 0, id as u8] }
}

#[test]
fn addresses_are_written_in_upper_case() {
    assert_eq!(fmt_addr([0xAA, 0xBB, 0xCC, 0xDD, 0xEE, 0x01]), "AA:BB:CC:DD:EE:01");
    assert_eq!(fmt_addr([0, 0x0f, 0xf0, 0x9a, 0xa9, 255]), "00:0F:F0:9A:A9:FF");
    // as the backend writes them
    assert_eq!(
        fmt_addr([1, 2, 3, 0xde, 0xad, 0xff]),
        btleplug::api::BDAddr::from([1, 2, 3, 0xde, 0xad, 0xff]).to_string()
    );
    // different addresses have different texts
    assert_ne!(fmt_addr([1, 2, 3, 4, 5, 6]), fmt_addr([1, 2, 3, 4, 5, 7]));
}

#[test]
fn errors_have_texts() {
    let cases = vec![
        (Error::Btleplug(BackendError::PermissionDenied), "Btleplug error: Permission denied"),
        (Error::Btleplug(BackendError::DeviceNotFound), "Btleplug error: Device not found"),
        (Error::Btleplug(BackendError::NotConnected), "Btleplug error: Not connected"),
        (Error::Btleplug(BackendError::UnexpectedCallback), "Btleplug error: Unexpected callback"),
        (
            Error::Btleplug(BackendError::UnexpectedCharacteristic),
            "Btleplug error: Unexpected characteristic",
        ),
        (
            Error::Btleplug(BackendError::NoSuchCharacteristic),
            "Btleplug error: No such characteristic",
        ),
        (
            Error::Btleplug(BackendError::NoAdapterAvailable),
            "Btleplug error: No Bluetooth adapter available",
        ),
        (
            Error::Btleplug(BackendError::NotSupported("x".to_string())),
            "Btleplug error: The operation is not supported: x",
        ),
        (
            Error::Btleplug(BackendError::RuntimeError("gatt".to_string())),
            "Btleplug error: Runtime Error: gatt",
        ),
        (Error::Btleplug(BackendError::Other("odd".to_string())), "Btleplug error: odd"),
        (Error::UnknownPeripheral("AA".to_string()), "There is no peripheral with id: AA"),
        (Error::CharacNotAvailable("u".to_string()), "Characteristic u not available"),
        (Error::NoDeviceConnected, "No device connected"),
        (Error::AlreadyConnected, "Device is already connected."),
        (Error::HandlerNotInitialized, "Handler not initialized"),
        (Error::SendingState(true), "could not send State: channel closed"),
        (Error::NoAdapters, "no bluetooth adapters found"),
        (Error::DisconnectFailed, "Unknonwn error during disconnect"),
        (Error::ConnectionFailed, "Unknown error during connect"),
        (Error::InvalidFilterMask, "Mask must match manufacturer data length"),
        (Error::Timeout("read".to_string()), "Timeout during execution of read"),
        (Error::JoinError("why".to_string()), "Failed to join Task: why"),
        (Error::Android("why".to_string()), "android: why"),
    ];
    for (error, text) in cases {
        assert_eq!(error.message(), text);
    }
}

#[test]
fn missing_characteristics_are_named() {
    let mut handler: Handler<u8, u8> = Handler::new(Timeouts {
        connect: 1,
        discover_services: 1,
        read: 1,
        write: 1,
        subscribe: 1,
        disconnect: 1,
    });
    assert!(matches!(handler.recv_data(5, None), Err(Error::NoDeviceConnected)));

    // bring a device without characteristics up
    let mut out = vec![];
    let (mut call, _) = handler.discover(
        Sink::Nobody,
        200,
        ScanFilter::Unfiltered,
        false,
        &mut out,
    );
    call.step(&mut handler, Reply::Adapters(Ok(vec![3])), &mut out);
    call.step(&mut handler, Reply::Plain(Ok(())), &mut out);
    let Effect::SpawnScan(mut task) = out.pop().unwrap() else {
        panic!("no scan");
    };
    task.begin(&mut handler);
    task.step(&mut handler, ScanReply::Plain(true), &mut out);
    let candidate = Candidate { peripheral: p(1), properties: None };
    task.step(&mut handler, ScanReply::Listed(Ok(vec![candidate])), &mut out);
    let found = Found { peripheral: p(1), device: Some(device("here", "x")) };
    task.step(&mut handler, ScanReply::Described(vec![found]), &mut out);

    let callback = blec::OnDisconnectHandler::from_sync(0u8);
    let (mut call, _) = handler.connect("here", callback, true, &mut out);
    call.step(&mut handler, Reply::Plain(Ok(())), &mut out);
    call.step(&mut handler, Reply::Plain(Err(BackendError::DeviceNotFound)), &mut out);
    call.step(&mut handler, Reply::Flag(Ok(true)), &mut out);
    let next = call.step(&mut handler, Reply::Services(Timed::Done(vec![])), &mut out);
    assert!(matches!(next, Next::Done(Ok(()))));

    let uuid: u128 = 0x51ff12bb_3ed8_46e5_b4f9_d64e2fec021b;
    let Err(e) = handler.recv_data(uuid, None) else {
        panic!("read a characteristic that is not there");
    };
    assert_eq!(
        e.message(),
        "Characteristic 51ff12bb-3ed8-46e5-b4f9-d64e2fec021b not available"
    );
    let Err(e) = handler.send_data(0xa, Some(1), vec![], blec::models::WriteType::WithResponse)
    else {
        panic!("wrote a characteristic that is not there");
    };
    assert_eq!(
        e.message(),
        "Characteristic 00000000-0000-0000-0000-00000000000a not available"
    );
}

#[test]
fn timed_requests_name_their_command() {
    assert!(matches!(run_with_timeout(Timed::Done(7), "x"), Ok(7)));
    assert!(matches!(
        run_with_timeout::<u8>(Timed::Failed(BackendError::NotConnected), "x"),
        Err(Error::Btleplug(BackendError::NotConnected))
    ));
    assert!(matches!(
        run_with_timeout::<u8>(Timed::TimedOut, "discover services"),
        Err(Error::Timeout(cmd)) if cmd == "discover services"
    ));
}

#[test]
fn characteristics_are_collected_service_by_service() {
    let charac = |uuid, service_uuid| Characteristic {
        uuid,
        service_uuid,
        properties: 0,
        descriptors: vec![],
    };
    let services = vec![
        Service { uuid: 1, primary: true, characteristics: vec![charac(5, 1), charac(4, 1)] },
        Service { uuid: 2, primary: false, characteristics: vec![] },
        Service { uuid: 3, primary: true, characteristics: vec![charac(5, 3)] },
    ];
    let ids: Vec<(u128, u128)> =
        collect_characs(&services).iter().map(|c| (c.uuid, c.service_uuid)).collect();
    assert_eq!(ids, vec![(5, 1), (4, 1), (5, 3)]);
    assert_eq!(CharacId { uuid: 1, service_uuid: 2 }, CharacId { uuid: 1, service_uuid: 2 });
}

fn candidate(id: u64, services: Vec<u128>, data: Option<(u16, Vec<u8>)>) -> Candidate {
    Candidate {
        peripheral: p(id),
        properties: Some(Properties {
            rssi: Some(-40),
            services,
            manufacturer_data: data.into_iter().collect(),
        }),
    }
}

fn kept(list: Vec<Candidate>, filter: ScanFilter) -> Vec<u64> {
    let mut list = list;
    filter_peripherals(&mut list, &filter);
    list.iter().map(|c| c.peripheral.id).collect()
}

#[test]
fn filters_keep_the_devices_they_describe() {
    let list = || {
        vec![
            candidate(1, vec![10, 11], None),
            candidate(2, vec![11], Some((7, vec![1, 2, 3]))),
            candidate(3, vec![], Some((7, vec![1, 0xff]))),
            Candidate { peripheral: p(4), properties: None },
            candidate(5, vec![10], Some((8, vec![1, 2, 3]))),
        ]
    };
    assert_eq!(kept(list(), ScanFilter::Unfiltered), vec![1, 2, 3, 4, 5]);
    // the places of those that go are taken by the last ones
    assert_eq!(kept(list(), ScanFilter::Service(10)), vec![1, 5]);
    assert_eq!(kept(list(), ScanFilter::Service(11)), vec![1, 2]);
    assert_eq!(kept(list(), ScanFilter::AnyService(vec![10, 11])), vec![1, 2, 5]);
    assert_eq!(kept(list(), ScanFilter::AnyService(vec![])), Vec::<u64>::new());
    assert_eq!(kept(list(), ScanFilter::AllServices(vec![10, 11])), vec![1]);
    assert_eq!(kept(list(), ScanFilter::AllServices(vec![])), vec![1, 2, 3, 5]);
    assert_eq!(kept(list(), ScanFilter::ManufacturerData(7, vec![1, 2, 3])), vec![2]);
    assert_eq!(kept(list(), ScanFilter::ManufacturerData(7, vec![1, 2])), Vec::<u64>::new());
    // data and filter are compared as far as both reach
    assert_eq!(
        kept(list(), ScanFilter::ManufacturerDataMasked(7, vec![1, 0, 9], vec![0xff, 0, 0])),
        vec![3, 2]
    );
    assert_eq!(
        kept(list(), ScanFilter::ManufacturerDataMasked(7, vec![1, 0x0f], vec![0xff, 0x0f])),
        vec![3]
    );
    // a device that is not received is left out by every filter
    let mut silent = list();
    silent[0].properties.as_mut().unwrap().rssi = None;
    assert_eq!(kept(silent, ScanFilter::Service(10)), vec![5]);
}

#[test]
fn masks_must_fit() {
    assert!(check_filter(&ScanFilter::Unfiltered).is_ok());
    assert!(check_filter(&ScanFilter::ManufacturerDataMasked(1, vec![1, 2], vec![3, 4])).is_ok());
    assert!(matches!(
        check_filter(&ScanFilter::ManufacturerDataMasked(1, vec![1, 2], vec![3])),
        Err(Error::InvalidFilterMask)
    ));
}

#[test]
fn reports_are_ordered_and_devices_stay_known() {
    let mut index = DeviceIndex::new();
    let found = |address: &str, name: &str, id| Found {
        peripheral: p(id),
        device: Some(device(address, name)),
    };
    let devices = index.add_devices(vec![
        found("B", "first", 1),
        found("A", "second", 2),
        Found { peripheral: p(9), device: None },
        found("B", "third", 3),
        found("AA", "fourth", 4),
    ]);
    let names: Vec<&str> = devices.iter().map(|d| d.name.as_str()).collect();
    assert_eq!(names, vec!["second", "fourth", "first", "third"]);
    assert_eq!(index.get(&"B".to_string()).unwrap().id, 3);
    assert_eq!(index.get(&"A".to_string()).unwrap().id, 2);
    assert!(index.get(&"C".to_string()).is_none());
    assert!(index.contains(&"AA".to_string()));
    assert_eq!(index.find_by_id(4).unwrap().id, 4);
    // replaced, and never described
    assert!(index.find_by_id(1).is_none());
    assert!(index.find_by_id(9).is_none());

    assert!(index.add_devices(vec![]).is_empty());
    assert!(index.contains(&"A".to_string()));
    index.clear();
    assert!(!index.contains(&"A".to_string()));
}

#[test]
fn the_first_handler_is_kept() {
    let mut cell = HandlerCell::new();
    assert!(matches!(cell.get_handler(), Err(Error::HandlerNotInitialized)));
    assert_eq!(*cell.init("first"), "first");
    assert_eq!(*cell.init("second"), "first");
    assert_eq!(*cell.get_handler().unwrap(), "first");
}

#[test]
fn permissions_are_only_asked_for_on_android() {
    assert!(matches!(check_permissions(true), Ok(true)));
    assert!(matches!(check_permissions(false), Ok(true)));
}

#[test]
fn the_user_interface_follows_the_handler() {
    let mut ble = Ble::new();
    assert!(matches!(ble.init_state(), InitState::Pending));
    assert!(!ble.is_ready() && !ble.scanning() && !ble.is_connected());
    assert!(matches!(ble.scan(false), Err(Error::HandlerNotInitialized)));
    ble.started(Err(Error::NoAdapters));
    assert!(matches!(ble.init_state(), InitState::Failed(e) if e == "no bluetooth adapters found"));
    ble.started(Ok(()));
    assert!(ble.is_ready());

    ble.devices_found(vec![device("A", "a")]);
    assert_eq!(ble.devices().len(), 1);
    assert!(ble.scan(true).is_ok());
    assert!(ble.devices().is_empty());
    ble.scanning_changed(true);
    assert!(ble.scanning());

    // a device that cannot be described does not replace the one that is shown
    ble.connection_changed(true, None);
    assert!(!ble.is_connected());
    ble.connection_changed(true, Some(device("A", "a")));
    ble.connection_changed(true, None);
    assert_eq!(ble.connected().as_ref().unwrap().address, "A");
    ble.connection_changed(false, None);
    assert!(!ble.is_connected());

    assert!(ble.connect(Err(Error::ConnectionFailed), Some(device("A", "a"))).is_err());
    assert!(!ble.is_connected());
    assert!(ble.connect(Ok(()), Some(device("B", "b"))).is_ok());
    assert!(ble.is_connected());
    assert!(matches!(
        ble.disconnect(Err(Error::NoDeviceConnected)),
        Err(Error::NoDeviceConnected)
    ));
    assert!(!ble.is_connected());
}

#[test]
fn subscriptions_are_renewed_with_the_link() {
    let mut ble = Ble::new();
    let (mut hook, subscribe) = NotificationHook::new(&ble);
    assert!(!subscribe);
    assert!(hook.value().is_none());
    ble.connection_changed(true, Some(device("A", "a")));
    assert!(hook.connection_changed(&ble));
    // the same device with other data
    ble.connection_changed(true, Some(device("A", "renamed")));
    assert!(!hook.connection_changed(&ble));
    hook.notified(vec![1, 2]);
    assert_eq!(hook.value(), &Some(vec![1, 2]));
    ble.connection_changed(false, None);
    assert!(!hook.connection_changed(&ble));
    ble.connection_changed(true, Some(device("A", "a")));
    assert!(hook.connection_changed(&ble));
    ble.connection_changed(true, Some(device("B", "b")));
    assert!(hook.connection_changed(&ble));
    let (second, subscribe) = NotificationHook::new(&ble);
    assert!(subscribe);
    assert!(hook.dropped(&ble));
    ble.connection_changed(false, None);
    assert!(!second.dropped(&ble));
}

#[test]
fn commands_wait_for_the_start() {
    assert!(matches!(ready(Some(Ok(()))), Readiness::Known(Ok(()))));
    assert!(matches!(
        ready(Some(Err("broken".to_string()))),
        Readiness::Known(Err(Error::Android(e))) if e == "broken"
    ));
    assert!(matches!(ready(None), Readiness::Wait(10_000)));
    assert!(ready_after_wait(true, Some(Ok(()))).is_ok());
    assert!(matches!(
        ready_after_wait(true, Some(Err("broken".to_string()))),
        Err(Error::Android(_))
    ));
    assert!(matches!(ready_after_wait(true, None), Err(Error::HandlerNotInitialized)));
    assert!(matches!(ready_after_wait(false, Some(Ok(()))), Err(Error::HandlerNotInitialized)));
}

#[test]
fn links_are_closed_when_the_application_ends() {
    assert_eq!(on_event(RunEvent::Exit, false, true), PluginAction::Disconnect);
    assert_eq!(on_event(RunEvent::ExitRequested, true, true), PluginAction::Disconnect);
    assert_eq!(on_event(RunEvent::Exit, false, false), PluginAction::Nothing);
    assert_eq!(on_event(RunEvent::Ready, true, false), PluginAction::InitAndroid);
    assert_eq!(on_event(RunEvent::Ready, false, true), PluginAction::Nothing);
    assert_eq!(on_event(RunEvent::Other, true, true), PluginAction::Nothing);
}
