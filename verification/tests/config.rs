use sqldb_postgres::config::{
    any_recognized_key, is_word_ignoring_case, lookup, parse_decimal, parse_flag, parse_pool_size,
    parse_port, parse_prefixed_config_from_map, ConnectionCreateOptions, RequiredKey,
    SettingsError, DEFAULT_PORT,
};

fn pairs(items: &[(&str, &str)]) -> Vec<(String, String)> {
    items.iter().map(|(k, v)| (k.to_string(), v.to_string())).collect()
}

fn full() -> Vec<(String, String)> {
    pairs(&[
        ("POSTGRES_HOST", "db"),
        ("POSTGRES_PORT", "5433"),
        ("POSTGRES_USERNAME", "u"),
        ("POSTGRES_PASSWORD", "p"),
        ("POSTGRES_DATABASE", "app"),
    ])
}

#[test]
fn parses_required_keys_and_defaults_the_rest() {
    let options = parse_prefixed_config_from_map("POSTGRES_", &full());
    assert_eq!(
        options,
        Ok(ConnectionCreateOptions {
            host: "db".to_string(),
            port: 5433,
            username: "u".to_string(),
            password: "p".to_string(),
            database: "app".to_string(),
            tls_required: false,
            pool_size: None,
        })
    );
}

#[test]
fn parses_optional_keys() {
    let mut entries = full();
    entries.push(("POSTGRES_TLS_REQUIRED".to_string(), "Yes".to_string()));
    entries.push(("POSTGRES_POOL_SIZE".to_string(), "12".to_string()));
    let options = parse_prefixed_config_from_map("POSTGRES_", &entries).unwrap();
    assert!(options.tls_required);
    assert_eq!(options.pool_size, Some(12));
}

#[test]
fn no_recognized_key_is_its_own_outcome() {
    let entries = pairs(&[("HOST", "db"), ("REDIS_URL", "redis://x"), ("postgres_host", "db")]);
    assert_eq!(
        parse_prefixed_config_from_map("POSTGRES_", &entries),
        Err(SettingsError::NoRecognizedKeys)
    );
    assert_eq!(
        parse_prefixed_config_from_map("POSTGRES_", &Vec::new()),
        Err(SettingsError::NoRecognizedKeys)
    );
}

#[test]
fn first_missing_required_key_is_named() {
    let only_tls = pairs(&[("POSTGRES_TLS_REQUIRED", "true")]);
    assert_eq!(
        parse_prefixed_config_from_map("POSTGRES_", &only_tls),
        Err(SettingsError::MissingKey(RequiredKey::Host))
    );
    let cases = [
        ("POSTGRES_HOST", RequiredKey::Host),
        ("POSTGRES_PORT", RequiredKey::Port),
        ("POSTGRES_USERNAME", RequiredKey::Username),
        ("POSTGRES_PASSWORD", RequiredKey::Password),
        ("POSTGRES_DATABASE", RequiredKey::Database),
    ];
    for (key, missing) in cases {
        let entries: Vec<(String, String)> =
            full().into_iter().filter(|(k, _)| k != key).collect();
        assert_eq!(
            parse_prefixed_config_from_map("POSTGRES_", &entries),
            Err(SettingsError::MissingKey(missing))
        );
    }
    let two_missing: Vec<(String, String)> = full()
        .into_iter()
        .filter(|(k, _)| k != "POSTGRES_PORT" && k != "POSTGRES_DATABASE")
        .collect();
    assert_eq!(
        parse_prefixed_config_from_map("POSTGRES_", &two_missing),
        Err(SettingsError::MissingKey(RequiredKey::Port))
    );
}

#[test]
fn keys_without_the_prefix_are_ignored() {
    let mut entries = pairs(&[("HOST", "elsewhere"), ("PORT", "1")]);
    entries.extend(full());
    let options = parse_prefixed_config_from_map("POSTGRES_", &entries).unwrap();
    assert_eq!(options.host, "db");
    assert_eq!(options.port, 5433);
}

#[test]
fn another_prefix_reads_other_keys() {
    let entries = pairs(&[
        ("PG_HOST", "h"),
        ("PG_PORT", "1"),
        ("PG_USERNAME", "u"),
        ("PG_PASSWORD", "p"),
        ("PG_DATABASE", "d"),
    ]);
    assert!(parse_prefixed_config_from_map("PG_", &entries).is_ok());
    assert_eq!(
        parse_prefixed_config_from_map("POSTGRES_", &entries),
        Err(SettingsError::NoRecognizedKeys)
    );
}

#[test]
fn first_entry_of_a_key_wins() {
    let mut entries = full();
    entries.push(("POSTGRES_HOST".to_string(), "later".to_string()));
    let options = parse_prefixed_config_from_map("POSTGRES_", &entries).unwrap();
    assert_eq!(options.host, "db");
    let key = "POSTGRES_HOST".to_string();
    assert_eq!(lookup(&entries, &key), Some(&"db".to_string()));
    assert_eq!(lookup(&entries, &"POSTGRES_NONE".to_string()), None);
}

#[test]
fn bad_port_falls_back_to_default() {
    assert_eq!(DEFAULT_PORT, 5432);
    assert_eq!(parse_port("5432"), 5432);
    assert_eq!(parse_port("+6543"), 6543);
    assert_eq!(parse_port("0"), 0);
    assert_eq!(parse_port("007"), 7);
    assert_eq!(parse_port("65535"), 65535);
    assert_eq!(parse_port("65536"), 5432);
    assert_eq!(parse_port(""), 5432);
    assert_eq!(parse_port("+"), 5432);
    assert_eq!(parse_port("-1"), 5432);
    assert_eq!(parse_port(" 80"), 5432);
    assert_eq!(parse_port("80 "), 5432);
    assert_eq!(parse_port("8o"), 5432);
    assert_eq!(parse_port("٣"), 5432);
    assert_eq!(parse_port("99999999999999999999999999"), 5432);
    let mut entries: Vec<(String, String)> =
        full().into_iter().filter(|(k, _)| k != "POSTGRES_PORT").collect();
    entries.push(("POSTGRES_PORT".to_string(), "not-a-port".to_string()));
    assert_eq!(parse_prefixed_config_from_map("POSTGRES_", &entries).unwrap().port, 5432);
}

#[test]
fn decimal_agrees_with_std_on_unsigned_numbers() {
    let samples = [
        "0", "1", "9", "10", "+10", "0010", "18446744073709551615", "18446744073709551616",
        "18446744073709551625", "184467440737095516150", "", "+", "++1", "+-1", "1+", "a", "1a",
        "１", "1_000", "0x10", "1e3", " 1",
    ];
    for text in samples {
        assert_eq!(parse_decimal(text, u64::MAX), text.parse::<u64>().ok(), "{:?}", text);
        assert_eq!(
            parse_decimal(text, 65535),
            text.parse::<u16>().ok().map(u64::from),
            "{:?}",
            text
        );
    }
    assert_eq!(parse_decimal("7", 7), Some(7));
    assert_eq!(parse_decimal("8", 7), None);
    assert_eq!(parse_decimal("0", 0), Some(0));
    assert_eq!(parse_decimal("1", 0), None);
}

#[test]
fn bad_pool_size_means_no_pool_size() {
    assert_eq!(parse_pool_size(None), None);
    assert_eq!(parse_pool_size(Some(&"16".to_string())), Some(16));
    assert_eq!(parse_pool_size(Some(&"0".to_string())), Some(0));
    assert_eq!(parse_pool_size(Some(&"many".to_string())), None);
    assert_eq!(parse_pool_size(Some(&"-3".to_string())), None);
    assert_eq!(parse_pool_size(Some(&"".to_string())), None);
    assert_eq!(parse_pool_size(Some(&"340282366920938463463374607431768211456".to_string())), None);
}

#[test]
fn flag_is_true_or_yes_in_any_case() {
    for text in ["true", "TRUE", "True", "tRuE", "yes", "YES", "Yes"] {
        assert!(parse_flag(text), "{:?}", text);
    }
    for text in ["", "false", "no", "1", "on", "y", "t", "true ", " yes", "truee", "yess", "ｔrue"] {
        assert!(!parse_flag(text), "{:?}", text);
    }
    assert!(is_word_ignoring_case("HeLLo", "hello"));
    assert!(!is_word_ignoring_case("hello", "HELLO"));
    assert!(!is_word_ignoring_case("hell", "hello"));
}

#[test]
fn recognizes_prefixed_keys() {
    assert!(any_recognized_key(&pairs(&[("A", "1"), ("POSTGRES_X", "2")]), "POSTGRES_"));
    assert!(!any_recognized_key(&pairs(&[("A", "1"), ("POSTGRES", "2")]), "POSTGRES_"));
    assert!(!any_recognized_key(&Vec::new(), "POSTGRES_"));
    assert!(any_recognized_key(&pairs(&[("A", "1")]), ""));
}

#[test]
fn starts_with_agrees_with_std() {
    let texts = ["", "P", "POSTGRES", "POSTGRES_", "POSTGRES_HOST", "postgres_host", "ПOSTGRES_", "é", "éa"];
    for text in texts {
        for prefix in texts {
            assert_eq!(
                sqldb_postgres::config::starts_with(text, prefix),
                text.starts_with(prefix),
                "{:?} {:?}",
                text,
                prefix
            );
        }
    }
}
