use zigbee_leak_bot::config::{resolve, resolve_port, Settings, SettingsError, DEFAULT_PORT};
use zigbee_leak_bot::text::{parse_signed, parse_unsigned};

fn some(text: &str) -> Option<String> {
    Some(text.to_string())
}

#[test]
fn defaults_fill_what_is_not_given() {
    let settings = resolve(some("123:abc"), some("-1001234567890"), None, None, None);
    assert_eq!(
        settings,
        Ok(Settings {
            bot_token: "123:abc".to_string(),
            chat_id: -1001234567890,
            mqtt_host: "127.0.0.1".to_string(),
            mqtt_port: 1883,
            mqtt_topic: "zigbee2mqtt/#".to_string(),
        })
    );
    assert_eq!(DEFAULT_PORT, 1883);
}

#[test]
fn given_values_are_kept() {
    let settings = resolve(
        some("token"),
        some("42"),
        some("broker.lan"),
        some("8883"),
        some("home/+/state"),
    );
    assert_eq!(
        settings,
        Ok(Settings {
            bot_token: "token".to_string(),
            chat_id: 42,
            mqtt_host: "broker.lan".to_string(),
            mqtt_port: 8883,
            mqtt_topic: "home/+/state".to_string(),
        })
    );
}

#[test]
fn missing_credential_comes_first() {
    assert_eq!(resolve(None, None, None, None, None), Err(SettingsError::MissingBotToken));
    assert_eq!(resolve(None, some("x"), None, None, None), Err(SettingsError::MissingBotToken));
    assert_eq!(resolve(None, some("1"), None, None, None), Err(SettingsError::MissingBotToken));
}

#[test]
fn missing_chat_is_an_error() {
    assert_eq!(
        resolve(some("token"), None, some("h"), some("1"), some("t")),
        Err(SettingsError::MissingChatId)
    );
}

#[test]
fn chat_that_is_no_integer_is_an_error() {
    for chat in ["", "chat", "12a", " 12", "12 ", "1.5", "+", "-", "9223372036854775808", "0x10"] {
        assert_eq!(
            resolve(some("token"), some(chat), None, None, None),
            Err(SettingsError::ChatIdNotInteger)
        );
    }
}

#[test]
fn port_that_cannot_be_read_falls_back() {
    assert_eq!(resolve_port(&None), 1883);
    assert_eq!(resolve_port(&some("")), 1883);
    assert_eq!(resolve_port(&some("mqtt")), 1883);
    assert_eq!(resolve_port(&some("65536")), 1883);
    assert_eq!(resolve_port(&some("-1")), 1883);
    assert_eq!(resolve_port(&some(" 1884")), 1883);
    assert_eq!(resolve_port(&some("1884")), 1884);
    assert_eq!(resolve_port(&some("+1884")), 1884);
    assert_eq!(resolve_port(&some("0")), 0);
    assert_eq!(resolve_port(&some("65535")), 65535);
    assert_eq!(resolve_port(&some("0001883")), 1883);
}

#[test]
fn unsigned_numbers_are_read_as_the_standard_library_reads_them() {
    let samples = [
        "", "0", "7", "007", "+7", "+", "-7", "-0", "65535", "65536", "99999999999999999999",
        "18446744073709551615", "18446744073709551616", "1 ", " 1", "1_000", "١٢٣", "12a", "++1",
    ];
    for text in samples {
        assert_eq!(parse_unsigned(text, u64::MAX), text.parse::<u64>().ok());
        assert_eq!(
            parse_unsigned(text, 0xffff).map(|n| n as u16),
            text.parse::<u16>().ok()
        );
    }
    assert_eq!(parse_unsigned("255", 255), Some(255));
    assert_eq!(parse_unsigned("256", 255), None);
}

#[test]
fn signed_numbers_are_read_as_the_standard_library_reads_them() {
    let samples = [
        "", "0", "-0", "+0", "-", "+", "42", "-42", "+42", "--42", "-+42", "+-42",
        "9223372036854775807", "9223372036854775808", "-9223372036854775808",
        "-9223372036854775809", "-1001234567890", "1e3", "12 ", "٤٢",
    ];
    for text in samples {
        assert_eq!(parse_signed(text), text.parse::<i64>().ok());
    }
    assert_eq!(parse_signed("-9223372036854775808"), Some(i64::MIN));
    assert_eq!(parse_signed("9223372036854775807"), Some(i64::MAX));
}
