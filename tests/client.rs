use simple_client::client::{
    check_actuator, current_value_of, current_value_subscription, current_value_update,
    metadata_from_entries, target_subscription, target_value_of, target_value_read,
    target_value_subscription, target_value_update, EntriesBatch,
};
use simple_client::common::RealReadings;
use simple_client::error::{ClientError, ConnectionFault};
use simple_client::response::{aggregate, collect_errors};
use simple_client::session::Session;
use simple_client::types::{
    DataEntry, DataEntryError, DataType, Datapoint, EntryView, ErrorEntry, Field, GetResponse,
    Metadata, SetResponse, Timestamp, Value,
};

fn err(code: u32, reason: &str) -> ErrorEntry {
    ErrorEntry { code, reason: reason.to_string(), message: format!("{reason} message") }
}

fn entry_error(path: &str, e: Option<ErrorEntry>) -> DataEntryError {
    DataEntryError { path: path.to_string(), error: e }
}

fn metadata_entry(path: &str, data_type: i32, entry_type: i32) -> DataEntry {
    DataEntry {
        path: path.to_string(),
        value: None,
        actuator_target: None,
        metadata: Some(Metadata { data_type, entry_type }),
    }
}

fn value_entry(path: &str, v: Value) -> DataEntry {
    DataEntry {
        path: path.to_string(),
        value: Some(Datapoint { timestamp: None, value: Some(v) }),
        actuator_target: None,
        metadata: None,
    }
}

fn reals_of(text: &str) -> RealReadings {
    RealReadings {
        single: text.parse::<f32>().ok().map(|x| x.to_bits()),
        double: text.parse::<f64>().ok().map(|x| x.to_bits()),
    }
}

const NOW: Timestamp = Timestamp { seconds: 1_700_000_000, nanos: 5 };

#[test]
fn top_level_error_comes_first() {
    let errors = vec![
        entry_error("A", Some(err(404, "not_found"))),
        entry_error("B", None),
        entry_error("C", Some(err(403, "forbidden"))),
    ];
    let r = aggregate(7u8, Some(err(500, "internal")), errors);
    match r {
        Err(ClientError::Function(list)) => {
            assert_eq!(list.len(), 3);
            assert_eq!(list[0], err(500, "internal"));
            assert_eq!(list[1], err(404, "not_found"));
            assert_eq!(list[2], err(403, "forbidden"));
        }
        other => panic!("unexpected {other:?}"),
    }
}

#[test]
fn no_errors_yield_the_payload() {
    let entries = vec![value_entry("Vehicle.Speed", Value::Int32(3))];
    let response = GetResponse {
        entries: entries.clone(),
        errors: vec![entry_error("Vehicle.Speed", None)],
        error: None,
    };
    assert_eq!(response.into_entries(), Ok(entries));
    let response = SetResponse { errors: vec![], error: None };
    assert_eq!(response.into_result(), Ok(()));
}

#[test]
fn per_entry_errors_alone_fail_the_call() {
    let response = SetResponse { errors: vec![entry_error("A", Some(err(400, "bad")))], error: None };
    assert_eq!(response.into_result(), Err(ClientError::Function(vec![err(400, "bad")])));
    assert_eq!(collect_errors(None, vec![entry_error("A", None)]), vec![]);
}

#[test]
fn operations_before_connect_fail() {
    let session = Session::new("http://127.0.0.1:55555");
    assert!(!session.is_connected());
    assert!(session.needs_dial());
    assert_eq!(session.server_address(), "http://127.0.0.1:55555");
    let refused = Err(ClientError::Connection(ConnectionFault::NotConnected));
    assert_eq!(session.get_request("Vehicle.Speed", EntryView::CurrentValue, vec![Field::Value]), refused.clone());
    assert_eq!(session.metadata_request("Vehicle.Speed"), refused.clone());
    assert_eq!(session.current_value_request("Vehicle.Speed"), refused.clone());
    assert_eq!(session.target_value_request("Vehicle.Speed"), refused);
    assert_eq!(
        session.set_request(vec![]),
        Err(ClientError::Connection(ConnectionFault::NotConnected))
    );
    assert_eq!(
        session.subscribe_request(current_value_subscription("Vehicle.Speed")),
        Err(ClientError::Connection(ConnectionFault::NotConnected))
    );
}

#[test]
fn connect_lifecycle() {
    let mut session = Session::new("http://127.0.0.1:55555");
    assert_eq!(
        session.finish_connect(false),
        Err(ClientError::Connection(ConnectionFault::Unreachable))
    );
    assert!(!session.is_connected());
    assert_eq!(session.finish_connect(true), Ok(()));
    assert!(session.is_connected());
    assert!(!session.needs_dial());
    assert_eq!(session.finish_connect(false), Ok(()));
    let req = session.current_value_request("Vehicle.Speed").unwrap();
    assert_eq!(req.path, "Vehicle.Speed");
    assert_eq!(req.view, EntryView::CurrentValue);
    assert_eq!(req.fields, vec![Field::Value]);
    let req = session.metadata_request("Vehicle").unwrap();
    assert_eq!((req.view, req.fields), (EntryView::Metadata, vec![Field::Metadata]));
    let req = session.target_value_request("Vehicle.Door").unwrap();
    assert_eq!((req.view, req.fields), (EntryView::TargetValue, vec![Field::ActuatorTarget]));
    session.disconnect();
    assert_eq!(session.check_connected(), Err(ClientError::Connection(ConnectionFault::NotConnected)));
}

#[test]
fn metadata_holes_are_dropped() {
    let entries = vec![
        metadata_entry("Vehicle.Speed", 11, 2),
        value_entry("Vehicle.Other", Value::Bool(true)),
        metadata_entry("Vehicle.Door", 2, 3),
    ];
    let m = metadata_from_entries(entries);
    assert_eq!(m.len(), 2);
    assert_eq!(m.get("Vehicle.Speed"), Some(&Metadata { data_type: 11, entry_type: 2 }));
    assert!(!m.contains_key("Vehicle.Other"));
}

#[test]
fn sensor_target_write_is_refused() {
    let m = metadata_from_entries(vec![metadata_entry("Vehicle.Speed", 11, 2)]);
    assert_eq!(check_actuator(&m, "Vehicle.Speed"), Err(ClientError::NotAnActuator));
    assert_eq!(
        target_value_update(&m, "Vehicle.Speed", "5", reals_of("5"), Some(NOW)),
        Err(ClientError::NotAnActuator)
    );
    assert_eq!(check_actuator(&m, "Vehicle.Missing"), Err(ClientError::NotAnActuator));
}

#[test]
fn actuator_target_write() {
    let m = metadata_from_entries(vec![metadata_entry("Vehicle.Door.IsOpen", 2, 3)]);
    assert_eq!(check_actuator(&m, "Vehicle.Door.IsOpen"), Ok(()));
    let u = target_value_update(&m, "Vehicle.Door.IsOpen", "true", reals_of("true"), Some(NOW))
        .unwrap();
    assert_eq!(u.fields, vec![Field::ActuatorTarget]);
    assert_eq!(u.entry.path, "Vehicle.Door.IsOpen");
    assert_eq!(u.entry.value, None);
    assert_eq!(
        u.entry.actuator_target,
        Some(Datapoint { timestamp: Some(NOW), value: Some(Value::Bool(true)) })
    );
    assert_eq!(
        target_value_update(&m, "Vehicle.Door.IsOpen", "yes", reals_of("yes"), Some(NOW)),
        Err(ClientError::Parse(DataType::Boolean))
    );
}

#[test]
fn float_current_value_write() {
    let m = metadata_from_entries(vec![metadata_entry("Vehicle.Speed", 11, 2)]);
    let u = current_value_update(&m, "Vehicle.Speed", "100001", reals_of("100001"), Some(NOW))
        .unwrap();
    assert_eq!(u.fields, vec![Field::Value]);
    assert_eq!(u.entry.path, "Vehicle.Speed");
    assert_eq!(u.entry.metadata, None);
    assert_eq!(u.entry.actuator_target, None);
    let point = u.entry.value.unwrap();
    assert_eq!(point.timestamp, Some(NOW));
    match point.value {
        Some(Value::Float(bits)) => assert_eq!(f32::from_bits(bits), 100001.0f32),
        other => panic!("unexpected {other:?}"),
    }
}

#[test]
fn missing_metadata_means_no_write() {
    let m = metadata_from_entries(vec![]);
    assert_eq!(
        current_value_update(&m, "Vehicle.Unknown.Path", "1", reals_of("1"), Some(NOW)),
        Err(ClientError::MetadataNotFound)
    );
    let m = metadata_from_entries(vec![metadata_entry("Vehicle.Speed", 11, 2)]);
    assert_eq!(
        current_value_update(&m, "Vehicle.Unknown.Path", "1", reals_of("1"), Some(NOW)),
        Err(ClientError::MetadataNotFound)
    );
}

#[test]
fn write_errors_by_kind() {
    let m = metadata_from_entries(vec![
        metadata_entry("Vehicle.Gear", 3, 2),
        metadata_entry("Vehicle.Cabin.Seats", 20, 1),
    ]);
    assert_eq!(
        current_value_update(&m, "Vehicle.Gear", "200", reals_of("200"), None),
        Err(ClientError::Parse(DataType::Int8))
    );
    assert_eq!(
        current_value_update(&m, "Vehicle.Cabin.Seats", "x", reals_of("x"), None),
        Err(ClientError::UnsupportedType(DataType::StringArray))
    );
    let bad = metadata_from_entries(vec![metadata_entry("Vehicle.Gear", 77, 2)]);
    assert_eq!(
        current_value_update(&bad, "Vehicle.Gear", "1", reals_of("1"), None),
        Err(ClientError::MetadataDecode)
    );
    let u = current_value_update(&m, "Vehicle.Gear", "-3", reals_of("-3"), None).unwrap();
    assert_eq!(u.entry.value, Some(Datapoint { timestamp: None, value: Some(Value::Int32(-3)) }));
}

#[test]
fn leaf_reads_need_exactly_one_entry() {
    assert_eq!(current_value_of(vec![]), Err(ClientError::NotALeaf));
    assert_eq!(
        current_value_of(vec![
            value_entry("A.B", Value::Int32(1)),
            value_entry("A.C", Value::Int32(2))
        ]),
        Err(ClientError::NotALeaf)
    );
    assert_eq!(
        current_value_of(vec![value_entry("A.B", Value::Uint64(9))]),
        Ok(Some(Datapoint { timestamp: None, value: Some(Value::Uint64(9)) }))
    );
    let mut target = value_entry("A.B", Value::Int32(1));
    target.actuator_target = Some(Datapoint { timestamp: None, value: Some(Value::Int32(4)) });
    assert_eq!(
        target_value_of(vec![target]),
        Ok(Some(Datapoint { timestamp: None, value: Some(Value::Int32(4)) }))
    );
    assert_eq!(target_value_of(vec![]), Err(ClientError::NotALeaf));
}

#[test]
fn batch_read_fails_fast() {
    let batch = EntriesBatch::new(vec!["A".to_string(), "B".to_string()]);
    assert_eq!(batch.next_path().map(|p| p.as_str()), Some("A"));
    let outcome = batch.record(Err(ClientError::NotALeaf));
    assert!(matches!(outcome, Err(ClientError::NotALeaf)));
}

#[test]
fn batch_read_collects_every_path() {
    let point = Datapoint { timestamp: None, value: Some(Value::Bool(false)) };
    let mut batch = EntriesBatch::new(vec!["A".to_string(), "B".to_string()]);
    batch = batch.record(Ok(Some(point.clone()))).unwrap();
    assert_eq!(batch.next_path().map(|p| p.as_str()), Some("B"));
    batch = batch.record(Ok(None)).unwrap();
    assert_eq!(batch.next_path(), None);
    let m = batch.finish();
    assert_eq!(m.len(), 2);
    assert_eq!(m.get("A"), Some(&Some(point)));
    assert_eq!(m.get("B"), Some(&None));
}

#[test]
fn subscriptions_select_view_and_field() {
    let s = current_value_subscription("Vehicle.Speed");
    assert_eq!(s.len(), 1);
    assert_eq!((s[0].path.as_str(), s[0].view), ("Vehicle.Speed", EntryView::CurrentValue));
    assert_eq!(s[0].fields, vec![Field::Value]);
    let s = target_value_subscription("Vehicle.Door");
    assert_eq!((s[0].path.as_str(), s[0].view), ("Vehicle.Door", EntryView::TargetValue));
    assert_eq!(s[0].fields, vec![Field::ActuatorTarget]);
}

#[test]
fn target_reads_and_subscriptions_need_an_actuator() {
    let mut session = Session::new("http://127.0.0.1:55555");
    let sensor = metadata_from_entries(vec![metadata_entry("Vehicle.Speed", 11, 2)]);
    let actuator = metadata_from_entries(vec![metadata_entry("Vehicle.Door", 2, 3)]);
    assert_eq!(
        target_value_read(&session, &actuator, "Vehicle.Door"),
        Err(ClientError::Connection(ConnectionFault::NotConnected))
    );
    session.finish_connect(true).unwrap();
    assert_eq!(
        target_value_read(&session, &sensor, "Vehicle.Speed"),
        Err(ClientError::NotAnActuator)
    );
    let req = target_value_read(&session, &actuator, "Vehicle.Door").unwrap();
    assert_eq!(req.path, "Vehicle.Door");
    assert_eq!((req.view, req.fields), (EntryView::TargetValue, vec![Field::ActuatorTarget]));
    assert_eq!(target_subscription(&sensor, "Vehicle.Speed"), Err(ClientError::NotAnActuator));
    assert_eq!(
        target_subscription(&actuator, "Vehicle.Door"),
        Ok(target_value_subscription("Vehicle.Door"))
    );
}
