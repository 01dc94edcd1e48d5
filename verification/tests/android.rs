//! The android backend.

use blec::android::bridge::{
    answer_error, arguments_error, call_result, ipc_timeout, not_initialized, Answer, Bridge,
};
use blec::android::payload::{
    classify_event, collect_map, deserialize_base64, deserialize_base64_map, event_payload, parse,
    EventPayload,
};
use blec::android::tree::{collect_services, ListedCharacteristic, ListedService};
use blec::android::{
    adapter_state, ble_err, check_permissions, notification, read_notification, value_decoded,
    value_read, Adapter, Command, Manager, Peripheral, RetrieveNext, SentNotification,
};
use blec::handler::CentralState;
use blec::models::{CharacId, Timeouts, WriteType};
use blec::{BackendError, Error};
use std::collections::HashMap;

const ADDRESS: [u8; 6] = [0xAA, 0xBB, 0xCC, 0xDD, 0xEE, 0x01];

fn timeouts() -> Timeouts {
    Timeouts {
        connect: 11,
        discover_services: 12,
        read: 13,
        write: 14,
        subscribe: 15,
        disconnect: 16,
    }
}

fn device(id: u64, name: &str) -> Peripheral {
    Peripheral {
        id,
        address: ADDRESS,
        name: name.to_string(),
        rssi: -70,
        manufacturer_data: HashMap::from([(1, vec![2])]),
        service_data: HashMap::new(),
        services: vec![5, 6],
        tx_power_level: None,
    }
}

#[test]
fn answers_reach_their_calls_once() {
    let mut bridge: Bridge<&str, &str> = Bridge::new();
    let a = bridge.begin_call("a");
    let channel = bridge.channel("events");
    let b = bridge.begin_call("b");
    assert_eq!((a, channel, b), (1, 2, 3));
    assert_eq!(bridge.complete(b as i64), Some("b"));
    assert_eq!(bridge.complete(b as i64), None);
    // a channel is no call, and the other way round
    assert_eq!(bridge.complete(channel as i64), None);
    assert_eq!(bridge.receiver(a as i64), None);
    assert_eq!(bridge.receiver(channel as i64), Some(&"events"));
    bridge.forget_call(a);
    assert_eq!(bridge.complete(a as i64), None);
    bridge.close_channel(channel);
    assert_eq!(bridge.receiver(channel as i64), None);
    assert_eq!(bridge.complete(-1), None);
}

#[test]
fn calls_report_what_became_of_them() {
    assert!(matches!(call_result(Answer::Answered(Ok(5)), "read"), Ok(5)));
    let failed = |answer| match call_result::<u8>(answer, "read") {
        Ok(_) => panic!("no failure"),
        Err(e) => e.message(),
    };
    assert_eq!(
        failed(Answer::Answered(Err("busy".to_string()))),
        "android: read failed: busy"
    );
    assert_eq!(
        failed(Answer::Dropped),
        "android: read failed: the android side dropped the call"
    );
    assert_eq!(failed(Answer::TimedOut), "Timeout during execution of read");
    assert_eq!(
        arguments_error("write", "why").message(),
        "android: could not serialize arguments of write: why"
    );
    assert_eq!(
        answer_error("read", "why").message(),
        "android: could not deserialize the answer of read: why"
    );
    assert_eq!(not_initialized().message(), "android: android bridge not initialized");
    assert_eq!(ipc_timeout(2000), 7000);
    assert_eq!(ipc_timeout(u64::MAX - 1), u64::MAX);
    assert!(matches!(
        ble_err(Error::NoDeviceConnected),
        BackendError::RuntimeError(text) if text == "No device connected"
    ));
}

#[test]
fn payloads_are_json() {
    assert_eq!(parse(""), Ok("null".to_string()));
    assert_eq!(parse(" { \"a\" : [1, 2] } "), Ok("{\"a\":[1,2]}".to_string()));
    assert!(parse("{").is_err());
    assert!(parse("{").unwrap_err().contains("EOF"));
}

#[test]
fn notes_are_told_from_events() {
    assert!(matches!(
        classify_event("{\"LinkStillConnected\":\"AA:BB\"}"),
        EventPayload::LinkStillConnected(a) if a == "\"AA:BB\""
    ));
    assert!(matches!(classify_event("{\"DeviceConnected\":\"AA:BB\"}"), EventPayload::Event));
    assert!(matches!(classify_event("not json"), EventPayload::Event));
    assert!(matches!(event_payload(None), EventPayload::Event));
}

#[test]
fn bytes_are_base64() {
    assert_eq!(deserialize_base64("aGVsbG8="), Ok(b"hello".to_vec()));
    assert_eq!(deserialize_base64(""), Ok(vec![]));
    assert!(deserialize_base64("a").is_err());
    assert!(deserialize_base64("aGVsbG8").is_err());

    let map = deserialize_base64_map(&vec![
        (1u16, "AQ==".to_string()),
        (2, "AgM=".to_string()),
        (1, "BA==".to_string()),
    ])
    .unwrap();
    assert_eq!(map, HashMap::from([(1, vec![4]), (2, vec![2, 3])]));
    let bad = deserialize_base64_map(&vec![
        (1u128, "AQ==".to_string()),
        (2, "!".to_string()),
        (3, "AQ==".to_string()),
    ]);
    assert!(bad.is_err());
    assert_eq!(bad.unwrap_err(), deserialize_base64("!").unwrap_err());
    assert_eq!(
        collect_map(vec![(1u16, Ok(vec![1])), (1, Ok(vec![2])), (3, Err("e".to_string()))]),
        Err("e".to_string())
    );
}

#[test]
fn values_and_notifications_are_decoded() {
    assert!(matches!(value_read(Ok("AQI=".to_string())), Ok(v) if v == vec![1, 2]));
    assert!(matches!(
        value_read(Err(Error::Timeout("read".to_string()))),
        Err(BackendError::RuntimeError(t)) if t == "Timeout during execution of read"
    ));
    assert!(matches!(
        value_read(Ok("?".to_string())),
        Err(BackendError::RuntimeError(t))
            if t.starts_with("android: could not deserialize the answer of read: ")
    ));
    assert!(matches!(
        value_decoded(Err("why".to_string())),
        Err(BackendError::RuntimeError(t))
            if t == "android: could not deserialize the answer of read: why"
    ));

    let sent = SentNotification { uuid: 1, service_uuid: 2, data: "BQ==".to_string() };
    let received = read_notification(&sent).unwrap();
    assert_eq!((received.uuid, received.service_uuid, received.value), (1, 2, vec![5]));
    let bad = SentNotification { uuid: 1, service_uuid: 2, data: "=".to_string() };
    assert!(read_notification(&bad).is_none());
    assert!(notification(1, 2, Err("e".to_string())).is_none());
}

#[test]
fn services_are_ordered_sets() {
    let charac = |uuid, properties, descriptors: Vec<u128>| ListedCharacteristic {
        uuid,
        properties,
        descriptors,
    };
    let services = collect_services(&vec![
        ListedService {
            uuid: 9,
            primary: true,
            characs: vec![
                charac(5, 2, vec![8, 7, 8]),
                charac(4, 1, vec![]),
                charac(5, 2, vec![7, 8]),
                charac(5, 1, vec![]),
            ],
        },
        ListedService { uuid: 9, primary: false, characs: vec![] },
        ListedService { uuid: 3, primary: true, characs: vec![] },
        ListedService { uuid: 3, primary: true, characs: vec![] },
    ]);
    let shape: Vec<(u128, bool, usize)> =
        services.iter().map(|s| (s.uuid, s.primary, s.characteristics.len())).collect();
    assert_eq!(shape, vec![(3, true, 0), (9, false, 0), (9, true, 3)]);
    let characs: Vec<(u128, u8, u128)> = services[2]
        .characteristics
        .iter()
        .map(|c| (c.uuid, c.properties, c.service_uuid))
        .collect();
    assert_eq!(characs, vec![(4, 1, 9), (5, 1, 9), (5, 2, 9)]);
    let descriptors: Vec<(u128, u128, u128)> = services[2].characteristics[2]
        .descriptors
        .iter()
        .map(|d| (d.uuid, d.service_uuid, d.characteristic_uuid))
        .collect();
    assert_eq!(descriptors, vec![(7, 9, 5), (8, 9, 5)]);
}

#[test]
fn scans_replace_what_was_found() {
    let mut adapter = Adapter::new();
    let (invoke, previous) = adapter.start_scan(vec![1], true, Ok(4)).unwrap();
    assert_eq!(invoke.command.name(), "start_scan");
    assert_eq!(invoke.timeout, 5000);
    assert!(matches!(
        invoke.command,
        Command::StartScan { services, allow_ibeacons: true, on_device: 4 } if services == vec![1]
    ));
    assert_eq!(previous, None);
    adapter.device_found(device(7, "a"));
    adapter.device_found(device(7, "b"));
    assert_eq!(adapter.peripheral(7).unwrap().name, "b");
    let properties = adapter.peripheral(7).unwrap().properties();
    assert_eq!(properties.rssi, Some(-70));
    assert_eq!(properties.services, vec![5, 6]);
    assert_eq!(properties.manufacturer_data.get(&1), Some(&vec![2]));

    let (_, previous) = adapter.start_scan(vec![], false, Ok(5)).unwrap();
    assert_eq!(previous, Some(4));
    assert!(matches!(adapter.peripheral(7), Err(BackendError::DeviceNotFound)));

    // without a channel there is no new scan, but what was found is forgotten all the same
    adapter.device_found(device(7, "b"));
    let started = adapter.start_scan(vec![], false, Err(Error::Android("closed".to_string())));
    assert!(matches!(started, Err(BackendError::RuntimeError(t)) if t == "android: closed"));
    assert!(adapter.peripheral(7).is_err());

    // a scan that could not be stopped goes on
    assert_eq!(adapter.stop_scan().command.name(), "stop_scan");
    assert!(adapter.scan_stopped(Err(Error::NoAdapters)).is_err());
    assert!(matches!(adapter.scan_stopped(Ok(())), Ok(Some(5))));
    assert!(matches!(adapter.scan_stopped(Ok(())), Ok(None)));

    adapter.device_found(device(7, "c"));
    assert_eq!(adapter.clear_peripherals().command.name(), "clear_peripherals");
    assert!(adapter.peripheral(7).is_err());
}

#[test]
fn known_devices_are_listed_once() {
    let mut adapter = Adapter::new();
    assert!(adapter.peripherals().is_empty());
    adapter.device_found(device(7, "a"));
    adapter.device_found(device(3, "b"));
    adapter.device_found(device(7, "c"));
    let mut ids = adapter.peripherals();
    ids.sort();
    assert_eq!(ids, vec![3, 7]);
}

#[test]
fn the_mtu_is_negotiated_on_connect() {
    let mut adapter = Adapter::new();
    assert_eq!(adapter.mtu(7), 23);
    let invoke = adapter.connect(7, ADDRESS, &timeouts());
    assert_eq!((invoke.command.name(), invoke.timeout), ("connect", 11));
    let request = adapter.connected(7, ADDRESS, &timeouts(), Ok(())).unwrap().unwrap();
    assert_eq!((request.command.name(), request.timeout), ("request_mtu", 11));
    assert!(matches!(request.command, Command::RequestMtu { mtu: 517, .. }));
    assert!(adapter.mtu_granted(7, Ok(185)).is_ok());
    assert_eq!(adapter.mtu(7), 185);
    assert!(adapter.mtu_granted(7, Err(Error::NoAdapters)).is_err());
    assert_eq!(adapter.mtu(7), 185);
    assert_eq!(adapter.mtu(8), 23);

    // zero means that no MTU is requested
    adapter.set_android_mtu_request(0);
    assert!(adapter.connected(7, ADDRESS, &timeouts(), Ok(())).unwrap().is_none());
    assert!(matches!(
        adapter.connected(7, ADDRESS, &timeouts(), Err(Error::ConnectionFailed)),
        Err(BackendError::RuntimeError(t)) if t == "Unknown error during connect"
    ));
}

#[test]
fn mtus_belong_to_one_link() {
    let mut adapter = Adapter::new();
    adapter.device_found(device(7, "a"));
    adapter.connect(7, ADDRESS, &timeouts());
    adapter.connected(7, ADDRESS, &timeouts(), Ok(())).unwrap();
    adapter.mtu_granted(7, Ok(247)).unwrap();
    adapter.set_android_mtu_request(0);

    // scanning does not change the link that is up
    adapter.start_scan(vec![], false, Ok(1)).unwrap();
    assert_eq!(adapter.mtu(7), 247);
    adapter.device_found(device(7, "b"));
    assert_eq!(adapter.mtu(7), 247);

    // once the link has ended, a device that is found again starts with the default
    adapter.link_ended(7);
    assert_eq!(adapter.mtu(7), 247);
    adapter.device_found(device(7, "c"));
    assert_eq!(adapter.mtu(7), 23);

    adapter.mtu_granted(7, Ok(247)).unwrap();
    adapter.start_scan(vec![], false, Ok(2)).unwrap();
    assert_eq!(adapter.mtu(7), 23);
    adapter.mtu_granted(7, Ok(247)).unwrap();
    adapter.clear_peripherals();
    assert_eq!(adapter.mtu(7), 23);

    // a new link has no MTU negotiated
    adapter.connected(7, ADDRESS, &timeouts(), Ok(())).unwrap();
    adapter.mtu_granted(7, Ok(247)).unwrap();
    adapter.disconnect(7, ADDRESS, &timeouts());
    adapter.connect(7, ADDRESS, &timeouts());
    adapter.connected(7, ADDRESS, &timeouts(), Ok(())).unwrap();
    assert_eq!(adapter.mtu(7), 23);
}

#[test]
fn services_belong_to_one_link() {
    let mut adapter = Adapter::new();
    let listed = || vec![ListedService { uuid: 3, primary: true, characs: vec![] }];
    assert!(adapter.services(7).is_none());
    let invoke = adapter.discover_services(ADDRESS, &timeouts());
    assert_eq!((invoke.command.name(), invoke.timeout), ("discover_services", 12));
    let invoke = adapter.services_discovered(ADDRESS, Ok(())).unwrap();
    assert_eq!((invoke.command.name(), invoke.timeout), ("services", 5000));
    assert!(adapter.services_discovered(ADDRESS, Err(Error::NoAdapters)).is_err());
    assert!(adapter.fetch_services(7, Ok(listed())).is_ok());
    assert!(adapter.fetch_services(8, Ok(listed())).is_ok());
    assert_eq!(adapter.services(7).unwrap().len(), 1);
    assert!(adapter.fetch_services(7, Err(Error::NoAdapters)).is_err());
    assert_eq!(adapter.services(7).unwrap().len(), 1);

    adapter.connect(7, ADDRESS, &timeouts());
    assert!(adapter.services(7).is_none());
    assert!(adapter.services(8).is_some());
    let invoke = adapter.disconnect(8, ADDRESS, &timeouts());
    assert_eq!((invoke.command.name(), invoke.timeout), ("disconnect", 16));
    assert!(adapter.services(8).is_none());
}

#[test]
fn devices_are_looked_up_by_address() {
    let mut adapter = Adapter::new();
    assert!(matches!(
        adapter.retrieve_peripherals(None, false),
        Err(BackendError::NotSupported(what)) if what == "retrieve_peripherals"
    ));
    assert!(adapter.retrieve_peripherals(Some(vec![]), true).is_err());
    let (_, next) = adapter.retrieve_peripherals(Some(vec![]), false).unwrap();
    assert!(matches!(next, RetrieveNext::Done(found) if found.is_empty()));

    adapter.device_found(device(2, "scanned"));
    let ids = vec!["AA:BB:CC:DD:EE:01".to_string(), "aabbccddee02".to_string()];
    let (mut call, next) = adapter.retrieve_peripherals(Some(ids), false).unwrap();
    let RetrieveNext::Ask(invoke) = next else {
        panic!("not asked");
    };
    assert_eq!((invoke.command.name(), invoke.timeout), ("retrieve_peripheral", 5000));
    assert!(matches!(invoke.command, Command::RetrievePeripheral { address: ADDRESS }));
    let next = call.step(&mut adapter, Ok(device(1, "answered")));
    let RetrieveNext::Ask(invoke) = next else {
        panic!("not asked");
    };
    assert!(matches!(
        invoke.command,
        Command::RetrievePeripheral { address: [0xaa, 0xbb, 0xcc, 0xdd, 0xee, 2] }
    ));
    let next = call.step(&mut adapter, Ok(device(2, "answered")));
    assert!(matches!(next, RetrieveNext::Done(found) if found == vec![1, 2]));
    assert_eq!(adapter.peripheral(1).unwrap().name, "answered");
    // what a scan has found out is kept
    assert_eq!(adapter.peripheral(2).unwrap().name, "scanned");

    for id in ["", "AA:BB", "AA:BB:CC:DD:EE:GG", "a\u{e9}aaaaaaaaa"] {
        let (call, next) = adapter.retrieve_peripherals(Some(vec![id.to_string()]), false).unwrap();
        assert!(matches!(next, RetrieveNext::Failed(BackendError::DeviceNotFound)), "{id}");
        assert!(matches!(call.resume(None), RetrieveNext::Failed(BackendError::DeviceNotFound)));
    }
    let ids = vec!["AA:BB:CC:DD:EE:01".to_string()];
    let (mut call, _) = adapter.retrieve_peripherals(Some(ids), false).unwrap();
    assert!(matches!(
        call.step(&mut adapter, Err(Error::NoAdapters)),
        RetrieveNext::Failed(BackendError::RuntimeError(t)) if t == "no bluetooth adapters found"
    ));
}

#[test]
fn writes_always_have_a_time_limit() {
    let adapter = Adapter::new();
    let charac = CharacId { uuid: 1, service_uuid: 2 };
    let limit = |set: u32, write: u64| {
        let invoke = adapter.write(
            ADDRESS,
            charac,
            vec![1, 2],
            WriteType::WithResponse,
            set,
            true,
            &Timeouts { write, ..timeouts() },
        );
        assert_eq!(invoke.timeout, write);
        match invoke.command {
            Command::Write { timeout, with_response: true, skip_waiting: true, data, .. } => {
                assert_eq!(data, vec![1, 2]);
                timeout
            }
            other => panic!("{other:?}"),
        }
    };
    assert_eq!(limit(70, 1000), 70);
    assert_eq!(limit(0, 1000), 1000);
    assert_eq!(limit(0, u32::MAX as u64 + 1), u32::MAX);
    let invoke = adapter.write(
        ADDRESS,
        charac,
        vec![],
        WriteType::WithoutResponse,
        1,
        false,
        &timeouts(),
    );
    assert!(matches!(invoke.command, Command::Write { with_response: false, .. }));
}

#[test]
fn commands_have_their_names_and_limits() {
    let adapter = Adapter::new();
    let charac = CharacId { uuid: 1, service_uuid: 2 };
    let invokes = vec![
        (check_permissions(true, false), "check_permissions", 300_000),
        (adapter.events(1), "events", 5000),
        (adapter.adapter_state(), "adapter_state", 5000),
        (adapter.is_bonded(ADDRESS), "is_bonded", 5000),
        (adapter.is_connected(ADDRESS), "is_connected", 5000),
        (adapter.read(ADDRESS, charac, &timeouts()), "read", 13),
        (adapter.subscribe(ADDRESS, charac, &timeouts()), "subscribe", 15),
        (adapter.unsubscribe(ADDRESS, charac, &timeouts()), "unsubscribe", 15),
        (adapter.notifications(ADDRESS, 3), "notifications", 5000),
    ];
    for (invoke, name, timeout) in invokes {
        assert_eq!((invoke.command.name(), invoke.timeout), (name, timeout));
    }
    assert!(matches!(
        adapter.add_peripheral(),
        Err(BackendError::NotSupported(w)) if w == "add_peripheral"
    ));
    assert!(matches!(
        adapter.write_descriptor(),
        Err(BackendError::NotSupported(w)) if w == "write_descriptor"
    ));
    assert!(matches!(
        adapter.read_descriptor(),
        Err(BackendError::NotSupported(w)) if w == "read_descriptor"
    ));
    assert_eq!(adapter.adapter_info(), "android");
    assert_eq!(Manager::new().adapters(), vec![0]);
}

#[test]
fn adapter_states_are_read_by_name() {
    assert!(matches!(adapter_state(Ok("unknown".to_string())), Ok(CentralState::Unknown)));
    assert!(matches!(adapter_state(Ok("off".to_string())), Ok(CentralState::PoweredOff)));
    assert!(matches!(adapter_state(Ok("on".to_string())), Ok(CentralState::PoweredOn)));
    assert!(matches!(
        adapter_state(Ok("odd".to_string())),
        Err(BackendError::RuntimeError(t)) if t == "unknown adapter state: odd"
    ));
    assert!(adapter_state(Err(Error::NoAdapters)).is_err());
}
