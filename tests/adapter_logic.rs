use bluest::advertisement::DataSection;
use bluest::connection::{begin_operation, ConnectionWait, Operation};
use bluest::device::{
    aep_service_filter, device_filter, device_or_not_found, join_by_identity, service_filter, Device, DeviceId,
};
use bluest::advertising::{
    add_data_to_dict, advertising_dictionary, create_mutable_dictionary, publisher_manufacturer_data, NSData,
    NSString,
};
use bluest::events::{
    adapter_event_for, adapter_event_from, wait_available_start, wait_available_step, AdapterEvent, BridgeItem,
    CentralEvent, Progress,
};
use bluest::scan::{matches_services, scan_step, ScanState, ScanStep};
use bluest::{AdvertisementData, ErrorKind, ManufacturerData, Uuid};

fn id(s: &str) -> DeviceId {
    DeviceId(s.to_string())
}

fn discovered(peripheral: &str, services: &[u8]) -> BridgeItem {
    BridgeItem::Event(CentralEvent::Discovered {
        peripheral: id(peripheral),
        sections: vec![DataSection { data_type: 0x03, data: services.to_vec() }],
        is_connectable: true,
        rssi: -60,
    })
}

fn done_kind(p: Progress) -> Option<Result<(), ErrorKind>> {
    match p {
        Progress::Pending => None,
        Progress::Done(r) => Some(r.map_err(|e| e.kind)),
    }
}

#[test]
fn state_change_maps_to_adapter_event() {
    assert_eq!(adapter_event_for(true), AdapterEvent::Available);
    assert_eq!(adapter_event_for(false), AdapterEvent::Unavailable);
    let item = BridgeItem::Event(CentralEvent::StateChanged);
    assert_eq!(adapter_event_from(&item, true).unwrap().unwrap(), AdapterEvent::Available);
    assert_eq!(adapter_event_from(&item, false).unwrap().unwrap(), AdapterEvent::Unavailable);
    assert!(adapter_event_from(&BridgeItem::Event(CentralEvent::Connect { peripheral: id("a") }), true).is_none());
    assert_eq!(adapter_event_from(&BridgeItem::Lagged(3), true).unwrap().unwrap_err().kind, ErrorKind::Internal);
    assert_eq!(adapter_event_from(&BridgeItem::Closed, true).unwrap().unwrap_err().kind, ErrorKind::Internal);
}

#[test]
fn wait_available_returns_at_once_when_available() {
    assert_eq!(done_kind(wait_available_start(true)), Some(Ok(())));
    assert_eq!(done_kind(wait_available_start(false)), None);
}

#[test]
fn wait_available_ends_at_first_available_report() {
    let items = [
        (BridgeItem::Event(CentralEvent::StateChanged), false),
        (BridgeItem::Event(CentralEvent::Connect { peripheral: id("a") }), true),
        (BridgeItem::Event(CentralEvent::StateChanged), true),
    ];
    let mut ended_at = None;
    for (i, (item, powered)) in items.iter().enumerate() {
        if let Some(r) = done_kind(wait_available_step(item, *powered)) {
            ended_at = Some((i, r));
            break;
        }
    }
    assert_eq!(ended_at, Some((2, Ok(()))));
}

#[test]
fn wait_available_fails_when_stream_closes() {
    assert_eq!(done_kind(wait_available_step(&BridgeItem::Closed, false)), Some(Err(ErrorKind::Internal)));
}

#[test]
fn connect_resolves_only_on_matching_device() {
    let wait = ConnectionWait::new(id("target"), Operation::Connect);
    let other = BridgeItem::Event(CentralEvent::Connect { peripheral: id("other") });
    assert_eq!(done_kind(wait.step(&other, true)), None);
    let failed_other = BridgeItem::Event(CentralEvent::ConnectFailed { peripheral: id("other"), error: None });
    assert_eq!(done_kind(wait.step(&failed_other, true)), None);
    let mine = BridgeItem::Event(CentralEvent::Connect { peripheral: id("target") });
    assert_eq!(done_kind(wait.step(&mine, true)), Some(Ok(())));
}

#[test]
fn connect_failure_carries_native_error() {
    let wait = ConnectionWait::new(id("target"), Operation::Connect);
    let failed = BridgeItem::Event(CentralEvent::ConnectFailed {
        peripheral: id("target"),
        error: Some("peer refused".to_string()),
    });
    match wait.step(&failed, true) {
        Progress::Done(Err(e)) => {
            assert_eq!(e.kind, ErrorKind::ConnectionFailed);
            assert_eq!(e.message, "peer refused");
        }
        _ => panic!("connect should fail"),
    }
    let bare = BridgeItem::Event(CentralEvent::ConnectFailed { peripheral: id("target"), error: None });
    assert_eq!(done_kind(wait.step(&bare, true)), Some(Err(ErrorKind::ConnectionFailed)));
}

#[test]
fn connect_fails_when_adapter_goes_away() {
    assert_eq!(begin_operation(false).unwrap_err().kind, ErrorKind::AdapterUnavailable);
    assert!(begin_operation(true).is_ok());
    let wait = ConnectionWait::new(id("target"), Operation::Connect);
    let other = BridgeItem::Event(CentralEvent::StateChanged);
    assert_eq!(done_kind(wait.step(&other, false)), Some(Err(ErrorKind::AdapterUnavailable)));
    assert_eq!(done_kind(wait.step(&BridgeItem::Lagged(1), true)), None);
    assert_eq!(done_kind(wait.step(&BridgeItem::Closed, true)), Some(Err(ErrorKind::Internal)));
}

#[test]
fn disconnect_settles_on_its_report() {
    let wait = ConnectionWait::new(id("target"), Operation::Disconnect);
    let connect = BridgeItem::Event(CentralEvent::Connect { peripheral: id("target") });
    assert_eq!(done_kind(wait.step(&connect, true)), None);
    let clean = BridgeItem::Event(CentralEvent::Disconnect { peripheral: id("target"), error: None });
    assert_eq!(done_kind(wait.step(&clean, true)), Some(Ok(())));
    let faulty = BridgeItem::Event(CentralEvent::Disconnect {
        peripheral: id("target"),
        error: Some("link lost".to_string()),
    });
    assert_eq!(done_kind(wait.step(&faulty, true)), Some(Err(ErrorKind::ConnectionFailed)));
}

#[test]
fn second_scan_is_refused_until_first_finishes() {
    let mut state = ScanState::new();
    assert!(state.try_begin(true).is_ok());
    assert!(state.is_scanning());
    assert_eq!(state.try_begin(true).unwrap_err().kind, ErrorKind::AlreadyScanning);
    state.finish();
    assert!(!state.is_scanning());
    assert!(state.try_begin(true).is_ok());
}

#[test]
fn scan_refused_while_unavailable() {
    let mut state = ScanState::new();
    assert_eq!(state.try_begin(false).unwrap_err().kind, ErrorKind::AdapterUnavailable);
    assert!(!state.is_scanning());
}

#[test]
fn empty_filter_yields_every_advertisement() {
    match scan_step(&[], discovered("a", &[0x0d, 0x18]), true) {
        ScanStep::Yield(found) => {
            assert_eq!(found.device.id, id("a"));
            assert_eq!(found.rssi, Some(-60));
            assert_eq!(found.adv_data.services, vec![Uuid::from_u16(0x180d)]);
            assert!(found.adv_data.is_connectable);
        }
        _ => panic!("advertisement should pass"),
    }
    assert!(matches!(scan_step(&[], discovered("b", &[]), true), ScanStep::Yield(_)));
}

#[test]
fn service_filter_keeps_matching_advertisements() {
    let filter = [Uuid::from_u16(0x180d)];
    assert!(matches!(scan_step(&filter, discovered("a", &[0x0f, 0x18, 0x0d, 0x18]), true), ScanStep::Yield(_)));
    assert!(matches!(scan_step(&filter, discovered("b", &[0x0f, 0x18]), true), ScanStep::Skip));
    assert!(matches!(scan_step(&filter, discovered("c", &[]), true), ScanStep::Skip));
    assert!(matches_services(&[], &vec![]));
    assert!(!matches_services(&filter, &vec![]));
}

#[test]
fn scan_ends_with_power_or_stream() {
    assert!(matches!(scan_step(&[], discovered("a", &[]), false), ScanStep::End));
    assert!(matches!(scan_step(&[], BridgeItem::Closed, true), ScanStep::End));
    assert!(matches!(scan_step(&[], BridgeItem::Lagged(4), true), ScanStep::Skip));
    assert!(matches!(scan_step(&[], BridgeItem::Event(CentralEvent::StateChanged), true), ScanStep::Skip));
}

#[test]
fn connected_devices_without_the_service_is_empty() {
    let connected = vec![id("a"), id("b")];
    assert!(join_by_identity(&connected, &vec![]).is_empty());
    assert!(join_by_identity(&vec![], &vec![id("a")]).is_empty());
}

#[test]
fn join_keeps_each_connected_owner_once() {
    let connected = vec![id("a"), id("b"), id("c")];
    let owners = vec![id("b"), id("x"), id("b"), id("a")];
    assert_eq!(join_by_identity(&connected, &owners), vec![id("b"), id("a")]);
}

#[test]
fn service_query_text() {
    let ids = vec![id("dev1"), id("dev2")];
    assert_eq!(
        device_filter(&ids),
        "System.Devices.AepService.AepId:=\"dev1\" OR System.Devices.AepService.AepId:=\"dev2\""
    );
    let services = vec![Uuid::from_u16(0x180d)];
    assert_eq!(
        service_filter(&services),
        "System.Devices.AepService.Bluetooth.ServiceGuid:=\"{0000180d-0000-1000-8000-00805f9b34fb}\""
    );
    assert_eq!(
        aep_service_filter(&vec![id("d")], &services),
        "System.Devices.AepService.ProtocolId:=\"{BB7BB05E-5972-42B5-94FC-76EAA7084D49}\" AND (\
         System.Devices.AepService.AepId:=\"d\") AND (\
         System.Devices.AepService.Bluetooth.ServiceGuid:=\"{0000180d-0000-1000-8000-00805f9b34fb}\")"
    );
    assert_eq!(device_filter(&vec![]), "");
}

#[test]
fn advertising_dictionary_holds_manufacturer_data() {
    let mut data = AdvertisementData::empty(true);
    assert!(advertising_dictionary(&data).entries.is_empty());
    data.manufacturer_data = Some(ManufacturerData { company_id: 0x004c, data: vec![0x02, 0x15] });
    let dict = advertising_dictionary(&data);
    assert_eq!(dict.entries.len(), 1);
    assert_eq!(dict.entries[0].0, NSString::from_str("kCBAdvDataManufacturerData"));
    assert_eq!(dict.entries[0].1, NSData::from_vec(&[0x4c, 0x00, 0x02, 0x15]));
}

#[test]
fn dictionary_key_set_twice_keeps_last_value() {
    let mut dict = create_mutable_dictionary();
    add_data_to_dict(&mut dict, "k", &[1]);
    add_data_to_dict(&mut dict, "j", &[2]);
    add_data_to_dict(&mut dict, "k", &[3]);
    assert_eq!(dict.entries.len(), 2);
    assert_eq!(dict.entries[0].1.bytes, vec![3]);
    assert_eq!(dict.entries[1].0.text, "j");
}

#[test]
fn unknown_identity_is_not_found() {
    assert_eq!(device_or_not_found(None).unwrap_err().kind, ErrorKind::NotFound);
    assert_eq!(device_or_not_found(Some(Device::new(id("a")))).unwrap().id, id("a"));
}

#[test]
fn publisher_needs_manufacturer_data() {
    let mut data = AdvertisementData::empty(false);
    assert_eq!(publisher_manufacturer_data(&data).unwrap_err(), "no data to send.");
    data.manufacturer_data = Some(ManufacturerData { company_id: 7, data: vec![1, 2] });
    let m = publisher_manufacturer_data(&data).unwrap();
    assert_eq!(m.company_id, 7);
    assert_eq!(m.data, vec![1, 2]);
}
