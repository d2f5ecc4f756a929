use rspi_bios::config::{parse_duration, Config, ParseDurationError};

#[test]
fn plain_seconds_parse() {
    assert_eq!(parse_duration("5"), Ok(5));
    assert_eq!(parse_duration("0"), Ok(0));
    assert_eq!(parse_duration("007"), Ok(7));
    assert_eq!(parse_duration("3600"), Ok(3600));
}

#[test]
fn a_leading_plus_sign_is_accepted() {
    assert_eq!(parse_duration("+7"), Ok(7));
    assert_eq!(parse_duration("+0"), Ok(0));
}

#[test]
fn the_empty_string_is_its_own_error() {
    assert_eq!(parse_duration(""), Err(ParseDurationError::Empty));
}

#[test]
fn non_digits_are_rejected() {
    assert_eq!(parse_duration("+"), Err(ParseDurationError::InvalidDigit));
    assert_eq!(parse_duration("12a"), Err(ParseDurationError::InvalidDigit));
    assert_eq!(parse_duration("-5"), Err(ParseDurationError::InvalidDigit));
    assert_eq!(parse_duration(" 5"), Err(ParseDurationError::InvalidDigit));
    assert_eq!(parse_duration("5 "), Err(ParseDurationError::InvalidDigit));
    assert_eq!(parse_duration("++1"), Err(ParseDurationError::InvalidDigit));
}

#[test]
fn the_largest_value_fits_and_one_more_overflows() {
    assert_eq!(parse_duration("18446744073709551615"), Ok(u64::MAX));
    assert_eq!(
        parse_duration("18446744073709551616"),
        Err(ParseDurationError::PosOverflow)
    );
}

#[test]
fn overflow_before_a_later_bad_character_reports_overflow() {
    assert_eq!(
        parse_duration("99999999999999999999x"),
        Err(ParseDurationError::PosOverflow)
    );
}

#[test]
fn the_defaults_are_the_served_products() {
    let c = Config::default();
    assert_eq!(c.sample_interval_secs, 5);
    assert_eq!(c.graceful_shutdown_grace_secs, 10);
    assert_eq!(c.liveness_log_interval_secs, 1);
    assert_eq!(c.keep_alive_interval_secs, 1);
    assert!(!c.https_redirect);
    assert_eq!(c.http_port, 2000);
    assert_eq!(c.https_port, 3000);
    assert_eq!(c.tls_dir.as_str(), "/etc/rspi-bios/certs");
    assert_eq!(c.tls_cert_file_name.as_str(), "cert.pem");
    assert_eq!(c.tls_key_file_name.as_str(), "key.pem");
    assert_eq!(c.log_dir.as_str(), "/var/log/rspi-bios/");
    assert_eq!(c.error_sentinel.as_str(), "0, 0, 0, 0");
    assert_eq!(c.model_name_fallback.as_str(), "Raspberry Pi 4 Model B Rev 1.4");
    assert_eq!(c.fallbacks.cpu_brand.as_str(), "Cortex-A72");
    assert_eq!(c.fallbacks.cpu_brand_short.as_str(), "Cortex-A");
    assert_eq!(c.fallbacks.cpu_speed_mhz, 1800);
    assert_eq!(c.fallbacks.disk_bytes, 32_000_000_000);
    assert_eq!(c.fallbacks.kernel_version.as_str(), "v6.1");
    assert_eq!(c.fallbacks.os_version.as_str(), "Raspbian GNU/Linux 11 (bullseye)");
    assert_eq!(c.fallbacks.cpu_arch.as_str(), "aarch64");
}

#[test]
fn parsing_agrees_with_the_standard_integer_grammar() {
    for case in ["5", "+7", "", "+", "12a", "18446744073709551615", "18446744073709551616"] {
        let ours = parse_duration(case);
        let std_parse = case.parse::<u64>();
        assert_eq!(ours.is_ok(), std_parse.is_ok(), "case {case:?}");
        if let (Ok(a), Ok(b)) = (&ours, &std_parse) {
            assert_eq!(a, b);
        }
    }
}
