use arra_export::app::{download_headers, job_not_found, validate_connection_url, AppError};
use arra_export::config::{parse_oracle_url, ConfigError};
use arra_export::export::ExportArtifact;
use arra_export::oracle_client::{verify_user_target, OracleClientError, TargetCheck};

#[test]
fn client_errors_become_bad_requests_or_upstream_failures() {
    let parts = |e: OracleClientError| AppError::from(e).response_parts();
    assert_eq!(
        parts(OracleClientError::InvalidUrl(ConfigError::InvalidOracleUrl)),
        (400, ConfigError::InvalidOracleUrl.message())
    );
    assert_eq!(
        parts(OracleClientError::HostResolution),
        (400, "Oracle host could not be resolved".to_string())
    );
    assert_eq!(
        parts(OracleClientError::UnsafeAddress),
        (400, "Oracle URL must resolve only to public addresses or loopback".to_string())
    );
    assert_eq!(
        parts(OracleClientError::Request("timed out".to_string())),
        (502, "Oracle request failed: timed out".to_string())
    );
    assert_eq!(
        parts(OracleClientError::Upstream { status: 500, message: "boom".to_string() }),
        (502, "Oracle returned HTTP 500 Internal Server Error: boom".to_string())
    );
}

#[test]
fn blank_connection_urls_are_refused() {
    assert_eq!(validate_connection_url("http://localhost:47778"), Ok(()));
    let error = validate_connection_url("   ").expect_err("blank URL is refused");
    assert_eq!(error.response_parts(), (400, "url is required".to_string()));
    assert!(validate_connection_url("").is_err());
}

#[test]
fn unknown_jobs_are_not_found() {
    assert_eq!(
        job_not_found("job-9").response_parts(),
        (404, "export job not found: job-9".to_string())
    );
}

#[test]
fn a_private_network_target_is_refused_before_contact() {
    let url = "http://10.0.0.1";
    assert_eq!(validate_connection_url(url), Ok(()));
    let target = parse_oracle_url(url).expect("the URL itself is a valid origin");
    let error = match verify_user_target(&target) {
        TargetCheck::Rejected(error) => error,
        other => panic!("unexpected check: {other:?}"),
    };
    assert_eq!(
        AppError::from(error).response_parts(),
        (400, "Oracle URL must resolve only to public addresses or loopback".to_string())
    );
}

fn artifact(content_type: &str, filename: &str) -> ExportArtifact {
    ExportArtifact {
        bytes: vec![],
        content_type: content_type.to_string(),
        filename: filename.to_string(),
    }
}

#[test]
fn download_headers_name_the_file() {
    assert_eq!(
        download_headers(&artifact("application/json", "oracle_documents.json")),
        (
            "application/json".to_string(),
            "attachment; filename=\"oracle_documents.json\"".to_string()
        )
    );
}

#[test]
fn download_headers_fall_back_on_unusable_values() {
    assert_eq!(
        download_headers(&artifact("text/csv\u{1}", "oracle-export-a\nb.csv")),
        ("application/octet-stream".to_string(), "attachment".to_string())
    );
    assert_eq!(
        download_headers(&artifact("text/markdown", "caf\u{e9}.md")).1,
        "attachment; filename=\"caf\u{e9}.md\""
    );
}
