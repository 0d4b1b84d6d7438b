//! The decisions of the REST handlers: how errors are answered, which
//! requests are refused, and the headers of a download.
use vstd::prelude::*;
use vstd::utf8::encode_utf8;

use crate::config::config_error_text;
use crate::export::ExportArtifact;
use crate::oracle_client::{client_error_text, OracleClientError};
use crate::text::{is_blank, str_is_blank};

verus! {

/// How a request failed, as answered to the client.
#[derive(Debug, PartialEq, Eq)]
pub enum AppError {
    BadRequest(String),
    NotFound(String),
    Upstream(OracleClientError),
}

/// The text of a bad request made from an Oracle client failure.
pub open spec fn bad_request_text(e: OracleClientError) -> Seq<char> {
    match e {
        OracleClientError::InvalidUrl(c) => config_error_text(c),
        OracleClientError::HostResolution => "Oracle host could not be resolved"@,
        _ => "Oracle URL must resolve only to public addresses or loopback"@,
    }
}

/// An Oracle client failure caused by the requested URL.
pub open spec fn is_bad_request_error(e: OracleClientError) -> bool {
    e is InvalidUrl || e is HostResolution || e is UnsafeAddress
}

/// The status with which an Oracle client failure is answered: 400 when
/// the requested URL is invalid, unresolvable or unsafe, 502 otherwise.
pub open spec fn client_error_status(e: OracleClientError) -> u16 {
    if is_bad_request_error(e) {
        400
    } else {
        502
    }
}

/// Converts as `AppError::from_client_error` does. The text of a bad
/// request is a `String`, which no spec function can build, so the
/// `FromSpecImpl` below leaves `from_spec` unused and the clauses are
/// stated on `from` itself.
impl From<OracleClientError> for AppError {
    fn from(value: OracleClientError) -> (res: Self)
        ensures
            is_bad_request_error(value) ==> (res matches AppError::BadRequest(m) && m@
                == bad_request_text(value)),
            !is_bad_request_error(value) ==> res == AppError::Upstream(value),
            app_error_status(res) == client_error_status(value),
    {
        AppError::from_client_error(value)
    }
}

impl vstd::std_specs::convert::FromSpecImpl<OracleClientError> for AppError {
    open spec fn obeys_from_spec() -> bool {
        false
    }

    /// No spec value names the result, whose text is a `String`; since
    /// `obeys_from_spec` is false this is never consulted.
    open spec fn from_spec(v: OracleClientError) -> Self {
        arbitrary()
    }
}

/// The HTTP status of an error answer.
pub open spec fn app_error_status(e: AppError) -> u16 {
    match e {
        AppError::BadRequest(_) => 400,
        AppError::NotFound(_) => 404,
        AppError::Upstream(_) => 502,
    }
}

/// The text of an error answer.
pub open spec fn app_error_text(e: AppError) -> Seq<char> {
    match e {
        AppError::BadRequest(m) => m@,
        AppError::NotFound(m) => m@,
        AppError::Upstream(u) => client_error_text(u),
    }
}

impl AppError {
    /// The error that an Oracle client failure becomes.
    pub fn from_client_error(value: OracleClientError) -> (res: Self)
        ensures
            is_bad_request_error(value) ==> (res matches AppError::BadRequest(m) && m@
                == bad_request_text(value)),
            !is_bad_request_error(value) ==> res == AppError::Upstream(value),
            app_error_status(res) == client_error_status(value),
    {
        match value {
            OracleClientError::InvalidUrl(error) => AppError::BadRequest(error.message()),
            OracleClientError::HostResolution => AppError::BadRequest(
                String::from_str("Oracle host could not be resolved"),
            ),
            OracleClientError::UnsafeAddress => AppError::BadRequest(
                String::from_str("Oracle URL must resolve only to public addresses or loopback"),
            ),
            error => AppError::Upstream(error),
        }
    }

    /// The status code and the error text of the answer.
    pub fn response_parts(&self) -> (res: (u16, String))
        ensures
            res.0 == app_error_status(*self),
            res.1@ == app_error_text(*self),
    {
        match self {
            AppError::BadRequest(m) => (400, m.clone()),
            AppError::NotFound(m) => (404, m.clone()),
            AppError::Upstream(e) => (502, e.message()),
        }
    }
}

/// Refuses a connection test whose URL is blank.
pub fn validate_connection_url(url: &str) -> (res: Result<(), AppError>)
    ensures
        is_blank(url@) ==> (res matches Err(AppError::BadRequest(m)) && m@ == "url is required"@),
        !is_blank(url@) ==> res is Ok,
{
    if str_is_blank(url) {
        Err(AppError::BadRequest(String::from_str("url is required")))
    } else {
        Ok(())
    }
}

/// The answer to a download of a job that the history does not hold.
pub fn job_not_found(id: &str) -> (res: AppError)
    ensures
        res matches AppError::NotFound(m) && m@ == "export job not found: "@ + id@,
{
    let mut m = String::from_str("export job not found: ");
    m.append(id);
    AppError::NotFound(m)
}

/// A byte that a header value may hold: visible ASCII, tab, or any byte
/// from 0x80 on.
pub open spec fn is_header_byte(b: u8) -> bool {
    b >= 32 && b != 127 || b == 9
}

/// Text whose UTF-8 bytes may all stand in a header value.
pub open spec fn is_header_text(s: Seq<char>) -> bool {
    forall|i: int| 0 <= i < encode_utf8(s).len() ==> is_header_byte(#[trigger] encode_utf8(s)[i])
}

/// Whether `http::HeaderValue::from_str` accepts `s`. Its source accepts a
/// string exactly when every byte is a tab, or at least 32 and not 127.
#[verifier::external_body]
fn header_value_accepts(s: &str) -> (res: bool)
    ensures
        res == is_header_text(s@),
{
    axum::http::HeaderValue::from_str(s).is_ok()
}

/// Printable ASCII text may stand in a header value.
proof fn lemma_printable_header_text(s: Seq<char>)
    requires
        forall|i: int| 0 <= i < s.len() ==> ' ' <= #[trigger] s[i] <= '~',
    ensures
        is_header_text(s),
{
    assert(vstd::utf8::is_ascii_chars(s));
    vstd::utf8::is_ascii_chars_encode_utf8(s);
    assert forall|i: int| 0 <= i < encode_utf8(s).len() implies is_header_byte(
        #[trigger] encode_utf8(s)[i],
    ) by {
        assert(s[i] as u8 == encode_utf8(s)[i]);
    }
}

/// The `Content-Disposition` value that names a file.
pub open spec fn attachment_text(filename: Seq<char>) -> Seq<char> {
    "attachment; filename=\""@ + filename + "\""@
}

/// The `Content-Type` and `Content-Disposition` values of a download: the
/// artifact's content type and an attachment with its file name, each
/// replaced by a plain default where it cannot stand in a header.
pub fn download_headers(artifact: &ExportArtifact) -> (res: (String, String))
    ensures
        res.0@ == if is_header_text(artifact.content_type@) {
            artifact.content_type@
        } else {
            "application/octet-stream"@
        },
        res.1@ == if is_header_text(attachment_text(artifact.filename@)) {
            attachment_text(artifact.filename@)
        } else {
            "attachment"@
        },
        is_header_text(res.0@),
        is_header_text(res.1@),
{
    let content_type = if header_value_accepts(artifact.content_type.as_str()) {
        artifact.content_type.clone()
    } else {
        String::from_str("application/octet-stream")
    };
    let mut disposition = String::from_str("attachment; filename=\"");
    disposition.append(artifact.filename.as_str());
    disposition.append("\"");
    let disposition = if header_value_accepts(disposition.as_str()) {
        disposition
    } else {
        String::from_str("attachment")
    };
    proof {
        reveal_strlit("application/octet-stream");
        reveal_strlit("attachment");
        lemma_printable_header_text("application/octet-stream"@);
        lemma_printable_header_text("attachment"@);
    }
    (content_type, disposition)
}

} // verus!
