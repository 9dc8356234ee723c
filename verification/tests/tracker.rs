use zigbee_leak_bot::cache::DeviceStateCache;
use zigbee_leak_bot::reading::SensorReading;
use zigbee_leak_bot::tracker::{evaluate, handle_publish, Outcome, Skip};

fn bare(leak: Option<bool>, water_leak: Option<bool>) -> SensorReading {
    SensorReading {
        water_leak,
        leak,
        battery_low: None,
        battery: None,
        tamper: None,
        linkquality: None,
        voltage: None,
    }
}

#[test]
fn kitchen_leak_is_announced_once_and_cleared_once() {
    let mut cache = DeviceStateCache::new();
    let topic = "bus/leak_kitchen/state";

    let first = handle_publish(
        &mut cache,
        topic,
        br#"{"water_leak": true, "battery": 80, "linkquality": 120}"#,
    );
    let expected_first = "💧 УТЕЧКА ОБНАРУЖЕНА!\n\
                          Место: Кухня, под мойкой\n\
                          Устройство: leak_kitchen\n\
                          Топик: bus/leak_kitchen/state\n\
                          \n\
                          🔋 Батарея: 80% (battery_low: Нет данных, ? mV)\n\
                          📶 Связь: 120 lqi\n\
                          🔧 Тампер: Нет данных";
    assert_eq!(first, Outcome::Alert(expected_first.to_string()));
    assert!(cache.get("leak_kitchen"));

    let second = handle_publish(&mut cache, topic, br#"{"water_leak": false, "battery": 79}"#);
    let expected_second = "✅ Утечка устранена / воды нет\n\
                           Место: Кухня, под мойкой\n\
                           Устройство: leak_kitchen\n\
                           Топик: bus/leak_kitchen/state\n\
                           \n\
                           🔋 Батарея: 79% (battery_low: Нет данных, ? mV)\n\
                           📶 Связь: ? lqi\n\
                           🔧 Тампер: Нет данных";
    assert_eq!(second, Outcome::Alert(expected_second.to_string()));
    assert!(!cache.get("leak_kitchen"));

    let third = handle_publish(&mut cache, topic, br#"{"water_leak": false, "battery": 79}"#);
    assert_eq!(third, Outcome::Unchanged);
    assert!(!cache.get("leak_kitchen"));
}

#[test]
fn alert_comes_only_when_the_state_differs_from_the_last_alert() {
    let mut cache = DeviceStateCache::new();
    let topic = "zigbee2mqtt/cellar";
    let flags = [false, true, true, false, false, true, false, true, true];
    let mut announced = false;
    for flag in flags {
        let alert = evaluate(&mut cache, topic, &bare(Some(flag), None));
        assert_eq!(alert.is_some(), flag != announced);
        if alert.is_some() {
            announced = flag;
        }
        assert_eq!(cache.get("cellar"), announced);
    }
}

#[test]
fn first_reading_without_leak_is_silent() {
    let mut cache = DeviceStateCache::new();
    let outcome = handle_publish(&mut cache, "zigbee2mqtt/attic", br#"{"water_leak": false}"#);
    assert_eq!(outcome, Outcome::Unchanged);
    assert!(!cache.contains("attic"));
}

#[test]
fn repeated_readings_alert_at_most_once() {
    let mut cache = DeviceStateCache::new();
    let mut alerts = 0;
    for round in 0..7 {
        let outcome = handle_publish(&mut cache, "zigbee2mqtt/cellar", br#"{"leak": true}"#);
        if round == 0 {
            assert!(matches!(outcome, Outcome::Alert(_)));
        } else {
            assert_eq!(outcome, Outcome::Unchanged);
        }
        if matches!(outcome, Outcome::Alert(_)) {
            alerts += 1;
        }
        // Another device in between does not disturb the first one.
        let other = handle_publish(&mut cache, "zigbee2mqtt/attic", br#"{"leak": false}"#);
        assert_eq!(other, Outcome::Unchanged);
    }
    assert_eq!(alerts, 1);
}

#[test]
fn devices_are_tracked_apart() {
    let mut cache = DeviceStateCache::new();
    assert!(evaluate(&mut cache, "zigbee2mqtt/a", &bare(Some(true), None)).is_some());
    assert!(evaluate(&mut cache, "zigbee2mqtt/b", &bare(Some(true), None)).is_some());
    assert!(evaluate(&mut cache, "zigbee2mqtt/a", &bare(Some(true), None)).is_none());
    assert!(evaluate(&mut cache, "zigbee2mqtt/b", &bare(Some(false), None)).is_some());
    assert!(cache.get("a"));
    assert!(!cache.get("b"));
}

#[test]
fn both_leak_names_count_alike() {
    let by_leak = bare(Some(true), None);
    let by_water_leak = bare(None, Some(true));
    assert!(by_leak.leak_active());
    assert!(by_water_leak.leak_active());

    let mut first = DeviceStateCache::new();
    let mut second = DeviceStateCache::new();
    let a = handle_publish(&mut first, "zigbee2mqtt/hall", br#"{"leak": true}"#);
    let b = handle_publish(&mut second, "zigbee2mqtt/hall", br#"{"water_leak": true}"#);
    assert!(matches!(a, Outcome::Alert(_)));
    assert_eq!(a, b);
    assert_eq!(first.get("hall"), second.get("hall"));
}

#[test]
fn leak_state_is_the_or_of_both_names() {
    for water_leak in [None, Some(false), Some(true)] {
        for leak in [None, Some(false), Some(true)] {
            let expected = water_leak == Some(true) || leak == Some(true);
            assert_eq!(bare(leak, water_leak).leak_active(), expected);
        }
    }
    assert!(!SensorReading::empty().leak_active());
}

#[test]
fn payload_that_is_no_json_is_put_aside() {
    let mut cache = DeviceStateCache::new();
    assert!(matches!(
        handle_publish(&mut cache, "zigbee2mqtt/hall", br#"{"leak": true}"#),
        Outcome::Alert(_)
    ));
    for payload in [&b"online"[..], b"", b"{", b"{\"leak\": tru}", b"{\"leak\": true} x"] {
        let outcome = handle_publish(&mut cache, "zigbee2mqtt/hall", payload);
        assert_eq!(outcome, Outcome::Skipped(Skip::Malformed));
        assert!(cache.get("hall"));
        assert!(!cache.contains("unknown"));
    }
}

#[test]
fn payload_that_is_no_reading_is_put_aside() {
    let mut cache = DeviceStateCache::new();
    for payload in [
        &b"true"[..],
        b"12",
        b"null",
        b"\"leak\"",
        b"[true]",
        b"{\"leak\": \"yes\"}",
        b"{\"leak\": 1}",
        b"{\"leak\": true, \"battery\": 256}",
        b"{\"leak\": true, \"battery\": -1}",
        b"{\"leak\": true, \"battery\": 80.0}",
        b"{\"leak\": true, \"voltage\": 65536}",
        b"{\"leak\": true, \"linkquality\": 70000}",
        b"{\"leak\": true, \"tamper\": []}",
        b"{\"leak\": true, \"battery_low\": {}}",
    ] {
        let outcome = handle_publish(&mut cache, "zigbee2mqtt/hall", payload);
        assert_eq!(outcome, Outcome::Skipped(Skip::Malformed));
        assert!(!cache.contains("hall"));
    }
}

#[test]
fn payload_that_is_no_utf8_is_put_aside() {
    let mut cache = DeviceStateCache::new();
    let outcome = handle_publish(&mut cache, "zigbee2mqtt/hall", &[0x7b, 0xff, 0xfe, 0x7d]);
    assert_eq!(outcome, Outcome::Skipped(Skip::NotUtf8));
    // The payload is looked at before the topic.
    let outcome = handle_publish(&mut cache, "zigbee2mqtt/bridge/state", &[0xc3]);
    assert_eq!(outcome, Outcome::Skipped(Skip::NotUtf8));
    assert!(!cache.contains("hall"));
}

#[test]
fn bridge_topics_never_alert() {
    let mut cache = DeviceStateCache::new();
    for topic in [
        "zigbee2mqtt/bridge",
        "zigbee2mqtt/bridge/state",
        "zigbee2mqtt/bridge/devices",
        "zigbee2mqtt/bridge_too",
    ] {
        for payload in [&br#"{"water_leak": true}"#[..], br#"{"leak": true}"#, b"online", b"{}"] {
            let outcome = handle_publish(&mut cache, topic, payload);
            assert_eq!(outcome, Outcome::Skipped(Skip::Administrative));
        }
    }
    assert!(!cache.contains("bridge"));
    assert!(!cache.contains("bridge_too"));
}

#[test]
fn topic_of_one_segment_names_the_unknown_device() {
    let mut cache = DeviceStateCache::new();
    let outcome = handle_publish(&mut cache, "sensors", br#"{"leak": true, "tamper": true}"#);
    let expected = "💧 УТЕЧКА ОБНАРУЖЕНА!\n\
                    Место: unknown\n\
                    Устройство: unknown\n\
                    Топик: sensors\n\
                    \n\
                    🔋 Батарея: ?% (battery_low: Нет данных, ? mV)\n\
                    📶 Связь: ? lqi\n\
                    🔧 Тампер: ⚠️ Датчик трогали/вскрывали";
    assert_eq!(outcome, Outcome::Alert(expected.to_string()));
    assert!(cache.get("unknown"));
}

#[test]
fn text_beyond_ascii_in_the_payload_is_read() {
    let mut cache = DeviceStateCache::new();
    let payload = "{\"место\": \"кухня\", \"leak\": true}".as_bytes();
    let outcome = handle_publish(&mut cache, "zigbee2mqtt/кухня", payload);
    assert!(matches!(outcome, Outcome::Alert(_)));
    assert!(cache.get("кухня"));
}

#[test]
fn cache_returns_false_for_a_device_it_does_not_know() {
    let mut cache = DeviceStateCache::new();
    assert!(!cache.get("anything"));
    assert!(!cache.contains("anything"));
    cache.set("anything", true);
    assert!(cache.get("anything"));
    assert!(cache.contains("anything"));
    cache.set("anything", false);
    assert!(!cache.get("anything"));
    assert!(cache.contains("anything"));
    assert!(!cache.get("other"));
}
