use weather_publisher::codec::encode_record;
use weather_publisher::registry::{RegistryError, SourceRegistry};
use weather_publisher::scheduler::Scheduler;
use weather_publisher::station::{WeatherRecord, WeatherStation};

fn three_station_registry() -> SourceRegistry {
    SourceRegistry::new(vec![
        WeatherStation::new(1, "Station01", 1000),
        WeatherStation::new(3, "Station03", 2000),
        WeatherStation::new(7, "Station07", 3000),
    ])
    .expect("three stations")
}

#[test]
fn empty_registry_is_rejected() {
    let r = SourceRegistry::new(vec![]);
    assert!(matches!(r, Err(RegistryError::Empty)));
}

#[test]
fn nonempty_registry_is_accepted() {
    let reg = three_station_registry();
    assert_eq!(reg.len(), 3);
    assert_eq!(reg.get(0).id, 1);
    assert_eq!(reg.get(1).id, 3);
    assert_eq!(reg.get(2).id, 7);
    assert_eq!(reg.get(0).name(), "Station01");
}

#[test]
fn four_ticks_rotate_in_registry_order() {
    let mut sch = Scheduler::new(three_station_registry(), true);
    let deviations = [250, -100, 0, 42];
    let baselines = [1000i64, 2000, 3000, 1000];
    let expected_ids = [1u8, 3, 7, 1];
    let mut records: Vec<WeatherRecord> = Vec::new();
    for i in 0..4 {
        let rec = sch.tick(deviations[i]).expect("enabled tick emits");
        assert_eq!(rec.station_id, expected_ids[i]);
        assert_eq!(rec.temperature_centi, baselines[i] + deviations[i] as i64);
        assert!(rec.humidity < 100);
        records.push(rec);
    }
    assert_eq!(records.len(), 4);
}

#[test]
fn seven_ticks_wrap_twice() {
    let mut sch = Scheduler::new(three_station_registry(), true);
    let expected_ids = [1u8, 3, 7, 1, 3, 7, 1];
    for id in expected_ids {
        let rec = sch.tick(0).expect("enabled tick emits");
        assert_eq!(rec.station_id, id);
    }
}

#[test]
fn disabled_ticks_emit_nothing() {
    let mut sch = Scheduler::new(three_station_registry(), false);
    for _ in 0..3 {
        assert!(sch.tick(0).is_none());
        assert!(!sch.query());
        let st = sch.get_status();
        assert!(!st.publishing);
        assert_eq!(st.status, "Stopped");
    }
}

#[test]
fn cursor_survives_disable_enable() {
    let mut sch = Scheduler::new(three_station_registry(), false);
    sch.enable();
    let rec = sch.tick(0).expect("first enabled tick");
    assert_eq!(rec.station_id, 1);
    sch.disable();
    assert!(sch.tick(0).is_none());
    assert!(sch.tick(0).is_none());
    sch.enable();
    let rec = sch.tick(0).expect("tick after re-enable");
    assert_eq!(rec.station_id, 3);
}

#[test]
fn query_reflects_latest_control_call() {
    let mut sch = Scheduler::new(three_station_registry(), true);
    assert!(sch.query());
    sch.disable();
    assert!(!sch.query());
    sch.disable();
    assert!(!sch.query());
    sch.enable();
    assert!(sch.query());
    sch.enable();
    assert!(sch.query());
}

#[test]
fn control_surface_returns_wire_strings() {
    let mut sch = Scheduler::new(three_station_registry(), false);
    let started = sch.start_publishing();
    assert_eq!(started.status, "Started publishing every 1 second");
    assert!(started.publishing);
    assert!(sch.query());
    let status = sch.get_status();
    assert_eq!(status.status, "Publishing");
    assert!(status.publishing);
    let stopped = sch.stop_publishing();
    assert_eq!(stopped.status, "Stopped publishing");
    assert!(!stopped.publishing);
    assert!(!sch.query());
}

#[test]
fn generate_data_centers_on_baseline() {
    let st = WeatherStation::new(9, "Station09", 1500);
    let rec = st.generate_data(-200);
    assert_eq!(rec.station_id, 9);
    assert_eq!(rec.temperature_centi, 1300);
    let rec = st.generate_data(200);
    assert_eq!(rec.temperature_centi, 1700);
}

#[test]
fn humidity_is_always_below_100() {
    let st = WeatherStation::new(2, "Station02", 0);
    for _ in 0..200 {
        assert!(st.generate_data(0).humidity < 100);
    }
}

#[test]
fn timestamp_comes_from_the_clock() {
    // 2020-01-01T00:00:00Z in microseconds; a fresh record must be after it.
    let st = WeatherStation::new(2, "Station02", 0);
    let rec = st.generate_data(0);
    assert!(rec.ts_us > 1_577_836_800_000_000);
}

#[test]
fn encode_record_exact_bytes() {
    let rec = WeatherRecord { station_id: 1, temperature_centi: 1000, humidity: 55, ts_us: 123456 };
    let payload = encode_record(&rec);
    assert_eq!(
        payload,
        b"{\"station_id\":1,\"temperature_centi\":1000,\"humidity\":55,\"ts_us\":123456}".to_vec()
    );
}

#[test]
fn encode_record_negative_and_zero() {
    let rec = WeatherRecord { station_id: 0, temperature_centi: -250, humidity: 0, ts_us: 0 };
    let payload = encode_record(&rec);
    assert_eq!(
        payload,
        b"{\"station_id\":0,\"temperature_centi\":-250,\"humidity\":0,\"ts_us\":0}".to_vec()
    );
}

#[test]
fn encode_record_extreme_values() {
    let rec = WeatherRecord {
        station_id: 255,
        temperature_centi: i64::MIN,
        humidity: 99,
        ts_us: i64::MAX,
    };
    let payload = encode_record(&rec);
    assert_eq!(
        payload,
        b"{\"station_id\":255,\"temperature_centi\":-9223372036854775808,\"humidity\":99,\"ts_us\":9223372036854775807}"
            .to_vec()
    );
}

#[test]
fn payload_parses_as_json_with_matching_fields() {
    let rec = WeatherRecord { station_id: 7, temperature_centi: 3042, humidity: 61, ts_us: 1_700_000_000_000_000 };
    let payload = encode_record(&rec);
    let v: serde_json::Value = serde_json::from_slice(&payload).expect("valid JSON");
    assert_eq!(v.get("station_id").unwrap().as_i64().unwrap(), 7);
    assert_eq!(v.get("temperature_centi").unwrap().as_i64().unwrap(), 3042);
    assert_eq!(v.get("humidity").unwrap().as_i64().unwrap(), 61);
    assert_eq!(v.get("ts_us").unwrap().as_i64().unwrap(), 1_700_000_000_000_000);
}

#[test]
fn ticked_record_round_trips_through_json() {
    let mut sch = Scheduler::new(three_station_registry(), true);
    let rec = sch.tick(13).expect("enabled tick emits");
    let payload = encode_record(&rec);
    let v: serde_json::Value = serde_json::from_slice(&payload).expect("valid JSON");
    assert_eq!(v.get("station_id").unwrap().as_i64().unwrap(), 1);
    assert_eq!(v.get("temperature_centi").unwrap().as_i64().unwrap(), 1013);
}
