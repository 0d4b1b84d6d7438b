use arra_export::config::{parse_oracle_url, ConfigError};
use arra_export::net::{is_loopback, is_public_ip, IpAddress};
use arra_export::oracle_client::{
    after_resolution, artifact_from_response, artifact_path, check_resolved_addresses,
    collections_path, endpoint, filename_from_headers, is_success_status, run_path,
    start_connection_test, test_connection_path, upstream_error, verify_ip, verify_user_target,
    Collection, ConnectionStatus, ConnectionTestStep, OracleClientError, OracleTarget,
    TargetCheck,
};

fn v4(a: u8, b: u8, c: u8, d: u8) -> IpAddress {
    IpAddress::V4([a, b, c, d])
}

fn v6(first: u16, second: u16, last: u16) -> IpAddress {
    IpAddress::V6([first, second, 0, 0, 0, 0, 0, last])
}

#[test]
fn public_ipv4_addresses() {
    assert!(is_public_ip(&v4(8, 8, 8, 8)));
    assert!(is_public_ip(&v4(172, 32, 0, 1)));
    assert!(is_public_ip(&v4(192, 0, 3, 1)));
    assert!(is_public_ip(&v4(100, 63, 255, 255)));
    assert!(is_public_ip(&v4(100, 128, 0, 0)));
    assert!(is_public_ip(&v4(198, 20, 0, 1)));
    assert!(is_public_ip(&v4(223, 255, 255, 255)));
    for reserved in [
        v4(10, 0, 0, 1),
        v4(172, 16, 0, 1),
        v4(172, 31, 255, 255),
        v4(192, 168, 1, 1),
        v4(127, 0, 0, 1),
        v4(169, 254, 1, 1),
        v4(255, 255, 255, 255),
        v4(192, 0, 2, 1),
        v4(198, 51, 100, 7),
        v4(203, 0, 113, 9),
        v4(0, 0, 0, 0),
        v4(224, 0, 0, 1),
        v4(239, 255, 255, 255),
        v4(0, 1, 2, 3),
        v4(100, 64, 0, 1),
        v4(100, 127, 255, 255),
        v4(192, 0, 0, 8),
        v4(198, 18, 0, 1),
        v4(198, 19, 255, 255),
        v4(240, 0, 0, 1),
        v4(250, 1, 2, 3),
    ] {
        assert!(!is_public_ip(&reserved), "{reserved:?}");
    }
}

#[test]
fn public_ipv6_addresses() {
    assert!(is_public_ip(&v6(0x2606, 0x4700, 1)));
    for reserved in [
        v6(0, 0, 1),
        v6(0, 0, 0),
        v6(0xff02, 0, 1),
        v6(0xfe80, 0, 1),
        v6(0xfebf, 0, 1),
        v6(0xfc00, 0, 1),
        v6(0xfd12, 0, 1),
        v6(0x2001, 0x0db8, 1),
    ] {
        assert!(!is_public_ip(&reserved), "{reserved:?}");
    }
    assert!(is_public_ip(&v6(0xfec0, 0, 1)));
}

fn mapped(a: u8, b: u8, c: u8, d: u8) -> IpAddress {
    IpAddress::V6([0, 0, 0, 0, 0, 0xffff, u16::from(a) * 256 + u16::from(b), u16::from(c) * 256 + u16::from(d)])
}

#[test]
fn ipv4_mapped_addresses_are_judged_as_ipv4() {
    assert!(is_public_ip(&mapped(8, 8, 8, 8)));
    assert!(!is_public_ip(&mapped(10, 0, 0, 1)));
    assert!(!is_public_ip(&mapped(192, 168, 1, 1)));
    assert!(!is_public_ip(&mapped(240, 0, 0, 1)));
    assert!(is_loopback(&mapped(127, 0, 0, 1)));
    assert_eq!(verify_ip(&mapped(127, 0, 0, 1)), Ok(()));
    assert_eq!(verify_ip(&mapped(10, 0, 0, 1)), Err(OracleClientError::UnsafeAddress));
    assert_eq!(verify_ip(&mapped(8, 8, 8, 8)), Ok(()));
}

#[test]
fn loopback_is_allowed_and_private_refused() {
    assert!(is_loopback(&v4(127, 0, 0, 1)));
    assert!(is_loopback(&v6(0, 0, 1)));
    assert_eq!(verify_ip(&v4(127, 0, 0, 1)), Ok(()));
    assert_eq!(verify_ip(&v6(0, 0, 1)), Ok(()));
    assert_eq!(verify_ip(&v4(1, 1, 1, 1)), Ok(()));
    assert_eq!(verify_ip(&v4(10, 0, 0, 1)), Err(OracleClientError::UnsafeAddress));
    assert_eq!(verify_ip(&v6(0xfe80, 0, 1)), Err(OracleClientError::UnsafeAddress));
}

#[test]
fn target_checks() {
    let check = |url: &str| verify_user_target(&parse_oracle_url(url).expect("valid origin"));
    assert_eq!(check("http://10.0.0.1"), TargetCheck::Rejected(OracleClientError::UnsafeAddress));
    assert_eq!(check("http://192.168.0.10:47778"), TargetCheck::Rejected(OracleClientError::UnsafeAddress));
    assert_eq!(check("http://localhost:47778"), TargetCheck::Allowed);
    assert_eq!(check("http://127.0.0.1:9"), TargetCheck::Allowed);
    assert_eq!(check("http://[::1]"), TargetCheck::Allowed);
    assert_eq!(check("http://8.8.8.8"), TargetCheck::Allowed);
    assert_eq!(check("http://240.0.0.1"), TargetCheck::Rejected(OracleClientError::UnsafeAddress));
    assert_eq!(
        check("http://[::ffff:10.0.0.1]"),
        TargetCheck::Rejected(OracleClientError::UnsafeAddress)
    );
    assert_eq!(check("http://[::ffff:127.0.0.1]:8080"), TargetCheck::Allowed);
    assert_eq!(
        check("https://example.com"),
        TargetCheck::Resolve { host: "example.com".to_string(), port: 443 }
    );
    assert_eq!(
        check("http://example.com:8080"),
        TargetCheck::Resolve { host: "example.com".to_string(), port: 8080 }
    );
}

#[test]
fn resolved_addresses_must_all_be_safe() {
    assert_eq!(check_resolved_addresses(&vec![]), Err(OracleClientError::UnsafeAddress));
    assert_eq!(check_resolved_addresses(&vec![v4(93, 184, 216, 34)]), Ok(()));
    assert_eq!(check_resolved_addresses(&vec![v4(127, 0, 0, 1), v6(0, 0, 1)]), Ok(()));
    assert_eq!(
        check_resolved_addresses(&vec![v4(93, 184, 216, 34), v4(10, 1, 2, 3)]),
        Err(OracleClientError::UnsafeAddress)
    );
}

#[test]
fn endpoints_join_the_oracle_url() {
    let base = parse_oracle_url("http://localhost:47778").expect("valid origin");
    assert_eq!(
        endpoint(&base, "api/v1/export/test-connection"),
        Ok("http://localhost:47778/api/v1/export/test-connection".to_string())
    );
    assert_eq!(
        endpoint(&base, "api/v1/export/app/download/job-42"),
        Ok("http://localhost:47778/api/v1/export/app/download/job-42".to_string())
    );
    assert_eq!(
        endpoint(&base, "api/v1/export/app/download/a b"),
        Ok("http://localhost:47778/api/v1/export/app/download/a%20b".to_string())
    );
    assert_eq!(endpoint(&base, "http://[::1"), Err(OracleClientError::HostResolution));
}

#[test]
fn filename_from_the_disposition_header() {
    let name = |header: Option<&str>| filename_from_headers(header, "job-42", "json");
    assert_eq!(name(Some("attachment; filename=\"oracle_documents.json\"")), "oracle_documents.json");
    assert_eq!(name(Some("attachment; filename='x.csv'")), "x.csv");
    assert_eq!(name(Some("attachment; filename=a b/c.txt")), "abc.txt");
    assert_eq!(name(Some("attachment; filename=\"../../etc/passwd\"")), "....etcpasswd");
    assert_eq!(name(Some("attachment; filename=x; filename=y")), "x");
    assert_eq!(name(Some("attachment; filename=\"\"")), "oracle-export-job-42.json");
    assert_eq!(name(Some("attachment; filename=\"///\"")), "oracle-export-job-42.json");
    assert_eq!(name(Some("attachment")), "oracle-export-job-42.json");
    assert_eq!(name(None), "oracle-export-job-42.json");
    assert_eq!(filename_from_headers(None, "a/b", "md"), "oracle-export-ab.md");
}

#[test]
fn success_statuses() {
    assert!(is_success_status(200));
    assert!(is_success_status(299));
    assert!(!is_success_status(199));
    assert!(!is_success_status(300));
    assert!(!is_success_status(404));
}

#[test]
fn upstream_errors_carry_status_and_body() {
    let error = upstream_error(404, Some("missing".to_string()));
    assert_eq!(error, OracleClientError::Upstream { status: 404, message: "missing".to_string() });
    assert_eq!(error.message(), "Oracle returned HTTP 404 Not Found: missing");
    let error = upstream_error(599, None);
    assert_eq!(
        error.message(),
        "Oracle returned HTTP 599 <unknown status code>: Oracle did not provide an error response"
    );
    assert_eq!(
        upstream_error(503, Some(String::new())).message(),
        "Oracle returned HTTP 503 Service Unavailable: "
    );
}

#[test]
fn client_error_messages() {
    assert_eq!(
        OracleClientError::from(ConfigError::InvalidOracleUrl).message(),
        "invalid Oracle URL: ORACLE_URL must be an absolute http or https URL without credentials, query parameters, or fragments"
    );
    assert_eq!(OracleClientError::HostResolution.message(), "could not resolve Oracle host");
    assert_eq!(
        OracleClientError::UnsafeAddress.message(),
        "Oracle URL must resolve only to public addresses or loopback"
    );
    assert_eq!(
        OracleClientError::Client("x".to_string()).message(),
        "unable to create HTTP client: x"
    );
    assert_eq!(OracleClientError::Request("y".to_string()).message(), "Oracle request failed: y");
    assert_eq!(
        OracleClientError::Response("z".to_string()).message(),
        "Oracle returned an invalid response: z"
    );
}

#[test]
fn artifacts_take_the_response_details() {
    let artifact = artifact_from_response(
        Some("application/json".to_string()),
        Some("attachment; filename=\"oracle_documents.json\""),
        b"{\"documents\":3}\n".to_vec(),
        "job-42",
        "json",
    );
    assert_eq!(artifact.content_type, "application/json");
    assert_eq!(artifact.filename, "oracle_documents.json");
    assert_eq!(artifact.bytes, b"{\"documents\":3}\n".to_vec());
    let artifact = artifact_from_response(None, None, vec![], "job-7", "csv");
    assert_eq!(artifact.content_type, "application/octet-stream");
    assert_eq!(artifact.filename, "oracle-export-job-7.csv");
}

fn status(ok: bool) -> ConnectionStatus {
    ConnectionStatus {
        ok,
        status: if ok { "connected".to_string() } else { "down".to_string() },
        collections: vec![Collection { name: "oracle_documents".to_string(), row_count: 3 }],
        total_rows: 3,
        url: None,
    }
}

#[test]
fn a_successful_test_switches_the_target() {
    let mut target = OracleTarget::new(parse_oracle_url("http://localhost:47778").expect("valid"));
    let answer = target.record_connection(
        parse_oracle_url("http://127.0.0.1:9000").expect("valid"),
        status(true),
    );
    assert_eq!(answer.url.as_deref(), Some("http://127.0.0.1:9000/"));
    assert_eq!(answer.total_rows, 3);
    assert_eq!(answer.collections[0].name, "oracle_documents");
    assert_eq!(target.current_url().as_str(), "http://127.0.0.1:9000/");
}

#[test]
fn a_failed_test_keeps_the_target() {
    let mut target = OracleTarget::new(parse_oracle_url("http://localhost:47778").expect("valid"));
    let answer = target.record_connection(
        parse_oracle_url("http://127.0.0.1:9000").expect("valid"),
        status(false),
    );
    assert!(!answer.ok);
    assert_eq!(answer.status, "down");
    assert_eq!(answer.url.as_deref(), Some("http://127.0.0.1:9000/"));
    assert_eq!(target.current_url().as_str(), "http://localhost:47778/");
}

#[test]
fn api_paths() {
    assert_eq!(test_connection_path(), "api/v1/export/test-connection");
    assert_eq!(collections_path(), "api/v1/export/app/collections");
    assert_eq!(run_path(), "api/v1/export/app/run");
    assert_eq!(artifact_path("job-42"), "api/v1/export/app/download/job-42");
}

#[test]
fn connection_test_steps() {
    let start = |url: &str| start_connection_test(&parse_oracle_url(url).expect("valid origin"));
    assert_eq!(
        start("http://localhost:47778"),
        ConnectionTestStep::Send {
            url: "http://localhost:47778/api/v1/export/test-connection".to_string()
        }
    );
    assert_eq!(start("http://240.0.0.1"), ConnectionTestStep::Fail(OracleClientError::UnsafeAddress));
    assert_eq!(start("http://10.0.0.1"), ConnectionTestStep::Fail(OracleClientError::UnsafeAddress));
    assert_eq!(
        start("https://oracle.example.com"),
        ConnectionTestStep::Resolve { host: "oracle.example.com".to_string(), port: 443 }
    );
}

#[test]
fn resolved_targets_are_checked_before_sending() {
    let target = parse_oracle_url("https://oracle.example.com").expect("valid origin");
    assert_eq!(after_resolution(&target, None), Err(OracleClientError::HostResolution));
    assert_eq!(after_resolution(&target, Some(vec![])), Err(OracleClientError::UnsafeAddress));
    assert_eq!(
        after_resolution(&target, Some(vec![v4(93, 184, 216, 34), v4(192, 168, 0, 2)])),
        Err(OracleClientError::UnsafeAddress)
    );
    assert_eq!(
        after_resolution(&target, Some(vec![v4(93, 184, 216, 34)])),
        Ok("https://oracle.example.com/api/v1/export/test-connection".to_string())
    );
}
