use rspi_bios::certs::{candidate_dirs, join_path, CertResolver};

#[test]
fn join_puts_the_name_under_the_directory() {
    assert_eq!(join_path("/etc/certs", "cert.pem").as_str(), "/etc/certs/cert.pem");
}

#[test]
fn candidates_are_ordered_dev_then_system_then_exe() {
    let dirs = candidate_dirs(
        Some("dev/certs".to_string()),
        Some("/etc/rspi-bios/certs".to_string()),
        "exe/certs".to_string(),
    );
    assert_eq!(dirs, vec!["dev/certs", "/etc/rspi-bios/certs", "exe/certs"]);
}

#[test]
fn absent_candidates_are_skipped_keeping_order() {
    let dirs = candidate_dirs(None, Some("/etc/certs".to_string()), "exe/certs".to_string());
    assert_eq!(dirs, vec!["/etc/certs", "exe/certs"]);
    let only_exe = candidate_dirs(None, None, "exe/certs".to_string());
    assert_eq!(only_exe, vec!["exe/certs"]);
}

#[test]
fn resolution_returns_the_first_usable_directory_untouched_by_later_ones() {
    // Directories A, B, C where only B holds a valid pair: the resolver must
    // hand out A's paths once (they fail), then B's (they succeed), and must
    // never surface any path under C.
    let dirs = vec!["A".to_string(), "B".to_string(), "C".to_string()];
    let mut resolver = CertResolver::new(dirs, "cert.pem".to_string(), "key.pem".to_string());

    let (cert_a, key_a) = resolver.current_candidate().unwrap();
    assert_eq!(cert_a.as_str(), "A/cert.pem");
    assert_eq!(key_a.as_str(), "A/key.pem");
    // Loading A's pair fails (simulated): skip it.
    resolver.record_failure();

    let (cert_b, key_b) = resolver.current_candidate().unwrap();
    assert_eq!(cert_b.as_str(), "B/cert.pem");
    assert_eq!(key_b.as_str(), "B/key.pem");
    // Loading B's pair succeeds: resolve, without ever asking about C.
    let bundle = resolver.resolve_success();
    assert_eq!(bundle.dir.as_str(), "B");
    assert_eq!(bundle.cert_path.as_str(), "B/cert.pem");
    assert_eq!(bundle.key_path.as_str(), "B/key.pem");

    // The resolver still stands at B: no file from C was ever exposed.
    let (cert_after, key_after) = resolver.current_candidate().unwrap();
    assert_eq!(cert_after.as_str(), "B/cert.pem");
    assert_eq!(key_after.as_str(), "B/key.pem");
}

#[test]
fn exhausting_every_candidate_reports_not_found() {
    let dirs = vec!["A".to_string(), "B".to_string()];
    let mut resolver = CertResolver::new(dirs, "cert.pem".to_string(), "key.pem".to_string());
    assert!(resolver.current_candidate().is_some());
    resolver.record_failure();
    assert!(resolver.current_candidate().is_some());
    resolver.record_failure();
    assert!(resolver.current_candidate().is_none());
}

#[test]
fn a_directory_with_only_one_file_is_just_a_failed_candidate() {
    // The caller loads both files as a matched pair; one missing file makes
    // the whole candidate fail and the search move on.
    let dirs = vec!["only-cert".to_string(), "good".to_string()];
    let mut resolver = CertResolver::new(dirs, "cert.pem".to_string(), "key.pem".to_string());
    let (_cert, _key) = resolver.current_candidate().unwrap();
    resolver.record_failure();
    let bundle = resolver.resolve_success();
    assert_eq!(bundle.dir.as_str(), "good");
}
