use uptime_sync::json::JsonValue;
use uptime_sync::store::{UptimeEvent, UptimeStore};
use uptime_sync::timestamp::window_cutoff_ms;

fn num(n: i64) -> JsonValue {
    JsonValue::Num {
        exact: Some(n),
        approx: n as i32,
    }
}

fn st(s: &str) -> JsonValue {
    JsonValue::Str(s.to_string())
}

fn record(status: i64, time: &str, ping: Option<JsonValue>, msg: Option<&str>) -> JsonValue {
    let mut fields = vec![
        ("status".to_string(), num(status)),
        ("time".to_string(), st(time)),
    ];
    if let Some(p) = ping {
        fields.push(("ping".to_string(), p));
    }
    if let Some(m) = msg {
        fields.push(("msg".to_string(), st(m)));
    }
    JsonValue::Obj(fields)
}

fn single(monitor_id: i64, status: i64, time: &str, ping: Option<JsonValue>, msg: Option<&str>) -> JsonValue {
    let mut fields = vec![("monitorID".to_string(), num(monitor_id))];
    if let JsonValue::Obj(rest) = record(status, time, ping, msg) {
        fields.extend(rest);
    }
    JsonValue::Obj(fields)
}

// 2024-01-01T00:00:00Z in milliseconds since the epoch.
const T0: i64 = 1_704_067_200_000;

#[test]
fn heartbeat_list_stores_one_monitor_and_snapshots() {
    let mut store = UptimeStore::new();
    let payload = JsonValue::Obj(vec![(
        "1".to_string(),
        JsonValue::Arr(vec![record(1, "2024-01-01T00:00:00", Some(num(42)), None)]),
    )]);
    let ev = store.apply_heartbeat_list(&payload, T0 - 1);

    assert_eq!(store.monitors.len(), 1);
    assert_eq!(store.monitors[0].kuma_id, 1);
    assert_eq!(store.monitors[0].heartbeats.len(), 1);
    let entry = &store.monitors[0].heartbeats[0];
    assert_eq!(entry.status, 1);
    assert_eq!(entry.time, "2024-01-01T00:00:00Z");
    assert_eq!(entry.ping, Some(42));
    assert_eq!(entry.msg, None);

    match ev {
        Some(UptimeEvent::Snapshot { monitors }) => {
            assert_eq!(monitors.len(), 1);
            assert_eq!(monitors[0].kuma_id, 1);
            assert_eq!(monitors[0].heartbeats.len(), 1);
            assert_eq!(monitors[0].heartbeats[0].time, "2024-01-01T00:00:00Z");
        }
        _ => panic!("expected a snapshot event"),
    }
}

#[test]
fn heartbeat_list_applied_twice_replaces_not_appends() {
    let mut store = UptimeStore::new();
    let payload = JsonValue::Obj(vec![(
        "1".to_string(),
        JsonValue::Arr(vec![
            record(1, "2024-01-01T00:00:00", Some(num(42)), None),
            record(0, "2024-01-01T00:01:00", None, Some("down")),
        ]),
    )]);
    store.apply_heartbeat_list(&payload, T0 - 1);
    store.apply_heartbeat_list(&payload, T0 - 1);

    assert_eq!(store.monitors.len(), 1);
    assert_eq!(store.monitors[0].heartbeats.len(), 2);
    assert_eq!(store.monitors[0].heartbeats[0].time, "2024-01-01T00:00:00Z");
    assert_eq!(store.monitors[0].heartbeats[1].time, "2024-01-01T00:01:00Z");
}

#[test]
fn heartbeat_list_touches_only_named_monitors() {
    let mut store = UptimeStore::new();
    let first = JsonValue::Obj(vec![
        ("1".to_string(), JsonValue::Arr(vec![record(1, "2024-01-01T00:00:00", None, None)])),
        ("2".to_string(), JsonValue::Arr(vec![record(0, "2024-01-01T00:00:01", None, None)])),
    ]);
    store.apply_heartbeat_list(&first, T0 - 1);

    let second = JsonValue::Obj(vec![(
        "2".to_string(),
        JsonValue::Arr(vec![
            record(1, "2024-01-01T00:05:00", None, None),
            record(1, "2024-01-01T00:06:00", None, None),
        ]),
    )]);
    store.apply_heartbeat_list(&second, T0 - 1);

    assert_eq!(store.monitors.len(), 2);
    let one = store.monitors.iter().find(|m| m.kuma_id == 1).unwrap();
    assert_eq!(one.heartbeats.len(), 1);
    assert_eq!(one.heartbeats[0].time, "2024-01-01T00:00:00Z");
    let two = store.monitors.iter().find(|m| m.kuma_id == 2).unwrap();
    assert_eq!(two.heartbeats.len(), 2);
    assert_eq!(two.heartbeats[0].time, "2024-01-01T00:05:00Z");
}

#[test]
fn heartbeat_list_sorts_ascending_by_time() {
    let mut store = UptimeStore::new();
    let payload = JsonValue::Obj(vec![(
        "3".to_string(),
        JsonValue::Arr(vec![
            record(1, "2024-01-01T00:02:00", None, None),
            record(1, "2024-01-01T00:00:30", None, None),
            record(0, "2024-01-01T00:01:15", None, None),
        ]),
    )]);
    store.apply_heartbeat_list(&payload, T0 - 1);
    let beats = &store.monitors[0].heartbeats;
    assert_eq!(beats.len(), 3);
    assert_eq!(beats[0].time, "2024-01-01T00:00:30Z");
    assert_eq!(beats[1].time, "2024-01-01T00:01:15Z");
    assert_eq!(beats[2].time, "2024-01-01T00:02:00Z");
}

#[test]
fn heartbeat_list_skips_bad_records_and_keeps_unparseable_times() {
    let mut store = UptimeStore::new();
    let payload = JsonValue::Obj(vec![(
        "9".to_string(),
        JsonValue::Arr(vec![
            // no status: dropped
            JsonValue::Obj(vec![("time".to_string(), st("2024-01-01T00:00:00"))]),
            // unreadable time: kept, conservatively
            record(1, "not-a-time", None, None),
            // outside the window: pruned
            record(1, "2023-12-31T22:00:00", None, None),
            // inside the window: kept
            record(1, "2024-01-01T00:00:10", None, None),
        ]),
    )]);
    store.apply_heartbeat_list(&payload, T0 - 1);
    let beats = &store.monitors[0].heartbeats;
    assert_eq!(beats.len(), 2);
    assert_eq!(beats[0].time, "2024-01-01T00:00:10Z");
    assert_eq!(beats[1].time, "not-a-timeZ");
}

#[test]
fn heartbeat_list_skips_unusable_keys() {
    let mut store = UptimeStore::new();
    let payload = JsonValue::Obj(vec![
        ("seven".to_string(), JsonValue::Arr(vec![record(1, "2024-01-01T00:00:00", None, None)])),
        ("2147483648".to_string(), JsonValue::Arr(vec![record(1, "2024-01-01T00:00:00", None, None)])),
        ("8".to_string(), JsonValue::Null),
    ]);
    let ev = store.apply_heartbeat_list(&payload, T0 - 1);
    assert_eq!(store.monitors.len(), 0);
    assert!(matches!(ev, Some(UptimeEvent::Snapshot { .. })));
}

#[test]
fn heartbeat_list_ignores_non_object_payload() {
    let mut store = UptimeStore::new();
    let ev = store.apply_heartbeat_list(&JsonValue::Null, T0);
    assert!(ev.is_none());
    assert_eq!(store.monitors.len(), 0);
}

#[test]
fn single_heartbeat_creates_monitor_and_emits_update() {
    let mut store = UptimeStore::new();
    let payload = single(7, 0, "2024-01-01T00:00:05", Some(JsonValue::Null), Some("timeout"));
    let ev = store.apply_heartbeat(&payload, T0 - 1);

    assert_eq!(store.monitors.len(), 1);
    assert_eq!(store.monitors[0].kuma_id, 7);
    assert_eq!(store.monitors[0].heartbeats.len(), 1);

    match ev {
        Some(UptimeEvent::Update { kuma_id, entry }) => {
            assert_eq!(kuma_id, 7);
            assert_eq!(entry.status, 0);
            assert_eq!(entry.time, "2024-01-01T00:00:05Z");
            assert_eq!(entry.ping, None);
            assert_eq!(entry.msg, Some("timeout".to_string()));
        }
        _ => panic!("expected an update event"),
    }
}

#[test]
fn heartbeat_missing_status_changes_nothing() {
    let mut store = UptimeStore::new();
    let payload = JsonValue::Obj(vec![
        ("monitorID".to_string(), num(7)),
        ("time".to_string(), st("2024-01-01T00:00:05")),
    ]);
    let ev = store.apply_heartbeat(&payload, T0 - 1);
    assert!(ev.is_none());
    assert_eq!(store.monitors.len(), 0);
}

#[test]
fn heartbeat_missing_monitor_id_changes_nothing() {
    let mut store = UptimeStore::new();
    let payload = record(1, "2024-01-01T00:00:05", None, None);
    let ev = store.apply_heartbeat(&payload, T0 - 1);
    assert!(ev.is_none());
    assert_eq!(store.monitors.len(), 0);
}

#[test]
fn heartbeat_appends_and_prunes_old_entries() {
    let mut store = UptimeStore::new();
    // First heartbeat arrives well before the second.
    store.apply_heartbeat(&single(5, 1, "2024-01-01T00:00:00", None, None), T0 - 3_600_000);
    // 90 minutes later the first entry is outside the one-hour window.
    let cutoff = window_cutoff_ms(T0 + 5_400_000);
    store.apply_heartbeat(&single(5, 1, "2024-01-01T01:30:00", None, None), cutoff);

    assert_eq!(store.monitors.len(), 1);
    let beats = &store.monitors[0].heartbeats;
    assert_eq!(beats.len(), 1);
    assert_eq!(beats[0].time, "2024-01-01T01:30:00Z");
}

#[test]
fn heartbeat_with_unreadable_time_survives_pruning() {
    let mut store = UptimeStore::new();
    store.apply_heartbeat(&single(5, 1, "garbage", None, None), T0);
    assert_eq!(store.monitors[0].heartbeats.len(), 1);
    assert_eq!(store.monitors[0].heartbeats[0].time, "garbageZ");
}

#[test]
fn heartbeat_ping_accepts_numbers_only() {
    let mut store = UptimeStore::new();
    let payload = single(2, 1, "2024-01-01T00:00:00", Some(st("fast")), None);
    store.apply_heartbeat(&payload, T0 - 1);
    assert_eq!(store.monitors[0].heartbeats[0].ping, None);
}

#[test]
fn window_cutoff_is_one_hour_before_now() {
    assert_eq!(window_cutoff_ms(T0), T0 - 3_600_000);
    assert_eq!(window_cutoff_ms(i64::MIN + 10), i64::MIN);
}
