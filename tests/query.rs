use uptimeem::badge::{count_badge, error_badge, push_decimal, version_badge, BadgeError};
use uptimeem::handler::{answer, lookup_badge, register_badge, route_badge};
use uptimeem::route::{parse_path, MetricKind, Route};
use uptimeem::state::{Address, SharedState};

fn target_of(r: &Route) -> (Vec<u8>, MetricKind) {
    match r {
        Route::Uptime { target, kind } => (target.clone(), *kind),
        other => panic!("not an uptime query: {:?}", other),
    }
}

#[test]
fn parse_special_commands() {
    assert!(matches!(parse_path(b"/num_tracked"), Route::NumTracked));
    assert!(matches!(parse_path(b"/num_tracked///"), Route::NumTracked));
    assert!(matches!(parse_path(b"/version"), Route::Version));
    assert!(matches!(parse_path(b"/version/"), Route::Version));
}

#[test]
fn parse_uptime_queries() {
    let (t, k) = target_of(&parse_path(b"/example.com/by_avg"));
    assert_eq!(t, b"example.com".to_vec());
    assert_eq!(k, MetricKind::ByAvg);
    let (t, k) = target_of(&parse_path(b"/10.0.0.1/by_loss/"));
    assert_eq!(t, b"10.0.0.1".to_vec());
    assert_eq!(k, MetricKind::ByLoss);
}

#[test]
fn parse_target_length_bounds() {
    let long = format!("/{}/by_avg", "a".repeat(253));
    let (t, _) = target_of(&parse_path(long.as_bytes()));
    assert_eq!(t.len(), 253);
    let too_long = format!("/{}/by_avg", "a".repeat(254));
    assert!(matches!(parse_path(too_long.as_bytes()), Route::Invalid));
    assert!(matches!(parse_path(b"//by_avg"), Route::Invalid));
}

#[test]
fn parse_invalid_paths() {
    assert!(matches!(parse_path(b""), Route::Invalid));
    assert!(matches!(parse_path(b"/"), Route::Invalid));
    assert!(matches!(parse_path(b"/foo/bar/baz"), Route::Invalid));
    assert!(matches!(parse_path(b"/example.com"), Route::Invalid));
    assert!(matches!(parse_path(b"/example.com/by_max"), Route::Invalid));
    assert!(matches!(parse_path(b"/num_tracked/x"), Route::Invalid));
}

#[test]
fn badges_render() {
    assert_eq!(
        count_badge(42),
        "{\"schemaVersion\":1,\"label\":\"tracked hosts\",\"message\":\"42\",\"color\":\"blue\"}"
    );
    assert_eq!(
        version_badge("1.2.3"),
        "{\"schemaVersion\":1,\"label\":\"hosted version\",\"message\":\"1.2.3\",\"color\":\"blue\"}"
    );
    assert_eq!(
        error_badge(BadgeError::InvalidParameters),
        "{\"schemaVersion\":1,\"label\":\"uptime\",\"message\":\"invalid parameters\",\"color\":\"critical\",\"isError\":true}"
    );
    assert_eq!(
        error_badge(BadgeError::UnresolvableHostname),
        "{\"schemaVersion\":1,\"label\":\"uptime\",\"message\":\"unresolvable hostname\",\"color\":\"critical\",\"isError\":true}"
    );
}

#[test]
fn decimal_notation() {
    for n in [0u64, 7, 10, 99, 100, 65535, 1234567890, u64::MAX] {
        let mut s = String::from("n=");
        push_decimal(&mut s, n);
        assert_eq!(s, format!("n={}", n));
    }
}

#[test]
fn first_query_is_unknown() {
    let mut s = SharedState::new();
    let (t, k) = target_of(&parse_path(b"/example.com/by_avg"));
    assert_eq!(t, b"example.com".to_vec());
    let ip = Address::V4(0x5db8d822);
    let (body, start) = answer(&mut s, k, Some(ip));
    assert_eq!(body, "{\"schemaVersion\":1,\"label\":\"uptime\",\"message\":\"??%\",\"color\":\"lightgrey\"}");
    assert!(start);
    assert_eq!(s.get_num_tracked(), 1);
    let (_, again) = answer(&mut s, k, Some(ip));
    assert!(!again);
    assert_eq!(s.get_num_tracked(), 1);
}

#[test]
fn unresolvable_hostname_badge() {
    let mut s = SharedState::new();
    let (t, k) = target_of(&parse_path(b"/not a valid host!!/by_avg"));
    assert_eq!(t, b"not a valid host!!".to_vec());
    let (body, start) = answer(&mut s, k, None);
    assert_eq!(
        body,
        "{\"schemaVersion\":1,\"label\":\"uptime\",\"message\":\"unresolvable hostname\",\"color\":\"critical\",\"isError\":true}"
    );
    assert!(!start);
    assert_eq!(s.get_num_tracked(), 0);
}

#[test]
fn invalid_parameters_badge() {
    let s = SharedState::new();
    let r = parse_path(b"/foo/bar/baz");
    assert_eq!(
        route_badge(&r, &s, "0.1.0").unwrap(),
        "{\"schemaVersion\":1,\"label\":\"uptime\",\"message\":\"invalid parameters\",\"color\":\"critical\",\"isError\":true}"
    );
}

#[test]
fn special_route_badges() {
    let mut s = SharedState::new();
    s.insert(Address::V4(1));
    s.insert(Address::V4(2));
    assert_eq!(
        route_badge(&parse_path(b"/num_tracked"), &s, "0.1.0").unwrap(),
        "{\"schemaVersion\":1,\"label\":\"tracked hosts\",\"message\":\"2\",\"color\":\"blue\"}"
    );
    assert_eq!(
        route_badge(&parse_path(b"/version"), &s, "0.1.0").unwrap(),
        "{\"schemaVersion\":1,\"label\":\"hosted version\",\"message\":\"0.1.0\",\"color\":\"blue\"}"
    );
    assert!(route_badge(&parse_path(b"/a/by_avg"), &s, "0.1.0").is_none());
}

#[test]
fn tracked_host_badges() {
    let mut s = SharedState::new();
    let ip = Address::V6(3);
    assert!(lookup_badge(&s, MetricKind::ByLoss, &ip).is_none());
    let (body, start) = register_badge(&mut s, MetricKind::ByLoss, ip);
    assert!(start);
    assert_eq!(body, "{\"schemaVersion\":1,\"label\":\"uptime\",\"message\":\"??%\",\"color\":\"lightgrey\"}");
    // a racing registration finds the metric and starts nothing
    let (body, start) = register_badge(&mut s, MetricKind::ByLoss, ip);
    assert!(!start);
    assert_eq!(body, "{\"schemaVersion\":1,\"label\":\"uptime\",\"message\":\">99.99%\",\"color\":\"brightgreen\"}");
    s.fail_ping(&ip);
    assert_eq!(
        lookup_badge(&s, MetricKind::ByAvg, &ip).unwrap(),
        "{\"schemaVersion\":1,\"label\":\"uptime\",\"message\":\"<90%\",\"color\":\"red\"}"
    );
}
