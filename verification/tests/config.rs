use lethe_server::config::{database_url, env_flag, parse_int, settings_from, EnvVars, IntError};

fn vars() -> EnvVars {
    EnvVars {
        database_url: None,
        default_board_pow_bits: None,
        server_key_path: None,
        federation_enabled: None,
        pull_interval_secs: None,
        pull_horizon_days: None,
        admin_token: None,
        moderation_summary: None,
        operator_label: None,
        release_manifest: None,
    }
}

#[test]
fn integers_parse_as_from_str_does() {
    let u8_range = (0, 255);
    for (text, expected) in [
        ("18", Ok(18)),
        ("+7", Ok(7)),
        ("255", Ok(255)),
        ("256", Err(IntError::PosOverflow)),
        ("", Err(IntError::Empty)),
        ("+", Err(IntError::InvalidDigit)),
        ("-", Err(IntError::InvalidDigit)),
        ("-1", Err(IntError::InvalidDigit)),
        ("1x", Err(IntError::InvalidDigit)),
        ("9999x", Err(IntError::PosOverflow)),
        (" 1", Err(IntError::InvalidDigit)),
    ] {
        assert_eq!(parse_int(text, false, u8_range.0, u8_range.1), expected, "{text}");
        let std_result = text.parse::<u8>().map(i128::from).map_err(|e| e.to_string());
        let ours = parse_int(text, false, 0, 255).map_err(|e| e.message().to_string());
        assert_eq!(ours, std_result, "{text}");
    }
    for text in ["-9223372036854775808", "9223372036854775807", "-9223372036854775809", "9223372036854775808", "-0", "+-1", "--1", "١"] {
        let std_result = text.parse::<i64>().map(i128::from).map_err(|e| e.to_string());
        let ours = parse_int(text, true, i64::MIN as i128, i64::MAX as i128).map_err(|e| e.message().to_string());
        assert_eq!(ours, std_result, "{text}");
    }
}

#[test]
fn flags_accept_one_true_yes_in_any_case() {
    for on in ["1", "true", "TRUE", "Yes", "yEs"] {
        assert!(env_flag(&Some(on.to_string())), "{on}");
    }
    for off in ["0", "false", "no", "", " true", "on"] {
        assert!(!env_flag(&Some(off.to_string())), "{off}");
    }
    assert!(!env_flag(&None));
}

#[test]
fn settings_take_defaults_and_name_bad_variables() {
    assert_eq!(database_url(None).err().as_deref(), Some("DATABASE_URL is required"));
    assert_eq!(database_url(Some("postgres://x".to_string())).ok().as_deref(), Some("postgres://x"));
    let s = settings_from(vars(), "postgres://x".to_string()).ok().expect("defaults");
    assert_eq!(s.default_pow_bits, 18);
    assert_eq!(s.pull_interval_secs, 60);
    assert_eq!(s.pull_horizon_days, 30);
    assert_eq!(s.server_key_path, "./server-key");
    assert!(!s.federation_enabled);
    assert!(s.admin_token.is_none());
    assert_eq!(s.database_url, "postgres://x");

    let mut v = vars();
    v.admin_token = Some(String::new());
    v.federation_enabled = Some("Yes".to_string());
    v.pull_horizon_days = Some("-3".to_string());
    let s = settings_from(v, String::new()).ok().expect("settings");
    assert!(s.admin_token.is_none());
    assert!(s.federation_enabled);
    assert_eq!(s.pull_horizon_days, -3);

    let mut v = vars();
    v.default_board_pow_bits = Some("300".to_string());
    v.pull_interval_secs = Some("x".to_string());
    assert_eq!(
        settings_from(v, String::new()).err().as_deref(),
        Some("DEFAULT_BOARD_POW_BITS: number too large to fit in target type")
    );
    let mut v = vars();
    v.pull_interval_secs = Some("x".to_string());
    assert_eq!(settings_from(v, String::new()).err().as_deref(), Some("LETHE_PULL_INTERVAL_SECS: invalid digit found in string"));
}
