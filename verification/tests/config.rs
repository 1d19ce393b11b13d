use wallguard_server::config::{
    control_service_address, decimal_text, default_control_service_address, endpoint_url,
    parse_decimal, Args, DatastoreConfig, MAX_DECODING_MESSAGE_SIZE,
};

#[test]
fn datastore_config_defaults() {
    let c = DatastoreConfig::from_env(None, None, None, None, None);
    assert_eq!(c.host, "127.0.0.1");
    assert_eq!(c.port, 6000);
    assert!(!c.tls);
    assert_eq!(c.email, "admin");
    assert_eq!(c.password, "admin");
    assert_eq!(c.token_leeway, 300);
}

#[test]
fn datastore_config_from_values() {
    let c = DatastoreConfig::from_env(
        Some(String::from("db.local")),
        Some(String::from("7000")),
        Some(String::from("me@x")),
        Some(String::from("pw")),
        Some(String::from("60")),
    );
    assert_eq!(c.host, "db.local");
    assert_eq!(c.port, 7000);
    assert!(!c.tls);
    assert_eq!(c.email, "me@x");
    assert_eq!(c.password, "pw");
    assert_eq!(c.token_leeway, 60);
}

#[test]
fn datastore_config_bad_numbers_fall_back() {
    let c = DatastoreConfig::from_env(None, Some(String::from("70000")), None, None, Some(String::from("-1")));
    assert_eq!(c.port, 6000);
    assert_eq!(c.token_leeway, 300);
}

#[test]
fn datastore_config_tls_is_read_from_the_port_variable() {
    let c = DatastoreConfig::from_env(None, Some(String::from("TRUE")), None, None, None);
    assert!(c.tls);
    assert_eq!(c.port, 6000);
}

#[test]
fn parse_decimal_edges() {
    assert_eq!(parse_decimal("0", 65535), Some(0));
    assert_eq!(parse_decimal("+80", 65535), Some(80));
    assert_eq!(parse_decimal("65535", 65535), Some(65535));
    assert_eq!(parse_decimal("65536", 65535), None);
    assert_eq!(parse_decimal("", 65535), None);
    assert_eq!(parse_decimal("+", 65535), None);
    assert_eq!(parse_decimal("8a", 65535), None);
    assert_eq!(parse_decimal("-5", 65535), None);
    assert_eq!(parse_decimal("007", 65535), Some(7));
    assert_eq!(parse_decimal("18446744073709551615", u64::MAX), Some(u64::MAX));
    assert_eq!(parse_decimal("18446744073709551616", u64::MAX), None);
}

#[test]
fn decimal_text_writes_numbers() {
    assert_eq!(decimal_text(0), "0");
    assert_eq!(decimal_text(7), "7");
    assert_eq!(decimal_text(10), "10");
    assert_eq!(decimal_text(50051), "50051");
    assert_eq!(decimal_text(u64::MAX), u64::MAX.to_string());
}

#[test]
fn decimal_text_reads_back() {
    for n in [0u64, 1, 9, 10, 99, 100, 6000, 65535] {
        assert_eq!(parse_decimal(&decimal_text(n), 65535), Some(n));
    }
}

#[test]
fn control_service_address_needs_both_values() {
    assert_eq!(
        control_service_address(Some(String::from("0.0.0.0")), Some(String::from("+8080"))),
        Some(String::from("0.0.0.0:8080"))
    );
    assert_eq!(control_service_address(Some(String::from("0.0.0.0")), None), None);
    assert_eq!(control_service_address(None, Some(String::from("8080"))), None);
    assert_eq!(
        control_service_address(Some(String::from("h")), Some(String::from("99999"))),
        None
    );
    assert_eq!(default_control_service_address(), "127.0.0.1:50051");
}

#[test]
fn endpoint_urls() {
    assert_eq!(endpoint_url(true, "db", 443), "https://db:443");
    assert_eq!(endpoint_url(false, "127.0.0.1", 6000), "http://127.0.0.1:6000");
    assert_eq!(MAX_DECODING_MESSAGE_SIZE, 50 * 1024 * 1024);
}

#[test]
fn args_default_cache_size() {
    assert_eq!(Args::default().ip_info_cache_size, 10_000);
}
