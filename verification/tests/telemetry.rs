use vehicle_dashboard::web::{get_vehicle_data, send_vehicle_data, TelemetryStore};

#[test]
fn empty_store_reads_nothing() {
    let store: TelemetryStore<u32> = TelemetryStore::new();
    assert_eq!(get_vehicle_data(&store), None);
}

#[test]
fn read_after_write() {
    let mut store = TelemetryStore::new();
    assert_eq!(send_vehicle_data(&mut store, vec![1u8, 2, 3]), Ok("Vehicle data updated"));
    assert_eq!(get_vehicle_data(&store), Some(&vec![1u8, 2, 3]));
}

#[test]
fn last_write_wins() {
    let mut store = TelemetryStore::new();
    send_vehicle_data(&mut store, String::from("first"));
    send_vehicle_data(&mut store, String::from("second"));
    assert_eq!(get_vehicle_data(&store).map(|s| s.as_str()), Some("second"));
}
