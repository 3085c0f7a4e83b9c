use saasexpress::admin::{default_page, default_records_per_page, PaginationParams};
use saasexpress::settings::{env_settings, ToHashMap};

#[test]
fn it_works() {
    let result = saasexpress::add(2, 2);
    assert_eq!(result, 4);
}

#[test]
fn env_settings_works() {
    let vars = vec![
        ("PATH".to_string(), "/usr/bin".to_string()),
        ("HOME".to_string(), "/root".to_string()),
    ];
    let settings = env_settings("TEST".to_string(), &vars);
    assert_eq!(settings.len(), 0);
}

#[test]
fn env_settings_strips_prefix_in_order() {
    let vars = vec![
        ("APP_URL".to_string(), "http://x".to_string()),
        ("OTHER".to_string(), "1".to_string()),
        ("APP_PORT".to_string(), "80".to_string()),
    ];
    let settings = env_settings("APP_".to_string(), &vars);
    assert_eq!(settings.len(), 2);
    assert_eq!(settings[0].key, "URL");
    assert_eq!(settings[0].value, "http://x");
    assert_eq!(settings[1].key, "PORT");
    assert_eq!(settings[1].value, "80");
}

#[test]
fn to_hash_map_keeps_last_value() {
    let vars = vec![
        ("A_K".to_string(), "1".to_string()),
        ("A_K".to_string(), "2".to_string()),
        ("A_J".to_string(), "3".to_string()),
    ];
    let settings = env_settings("A_".to_string(), &vars);
    let map = settings.to_hash_map();
    assert_eq!(map.len(), 2);
    assert_eq!(map.get("K").map(|s| s.as_str()), Some("2"));
    assert_eq!(map.get("J").map(|s| s.as_str()), Some("3"));
    assert!(map.get("X").is_none());
}

#[test]
fn pagination_defaults_and_offset() {
    assert_eq!(default_page(), 0);
    assert_eq!(default_records_per_page(), 25);
    let p = PaginationParams::default();
    assert_eq!(p.page, 0);
    assert_eq!(p.records_per_page, 25);
    let q = PaginationParams { page: 3, records_per_page: 25 };
    assert_eq!(q.offset(), 75);
}

#[test]
fn add_small_numbers() {
    assert_eq!(saasexpress::add(0, 0), 0);
    assert_eq!(saasexpress::add(u64::MAX - 1, 1), u64::MAX);
}
