//! The Oracle export API as the service sees it: the records it exchanges,
//! the checks made on a requested target and the shaping of its replies.
use vstd::prelude::*;

use crate::config::{
    config_error_text, opt_text, text_or, ConfigError, HostView, OracleUrl, UrlHost, UrlPartsView,
};
use crate::export::ExportArtifact;
use crate::net::{is_loopback, is_public_ip, spec_is_loopback, spec_is_public_ip, IpAddress};
use crate::text::{chars_of, decimal_text, push_char, push_decimal};

verus! {

/// A collection that the Oracle can export.
#[derive(Debug, PartialEq, Eq)]
pub struct Collection {
    pub name: String,
    pub row_count: u64,
}

/// The graph collection that the Oracle can add to an export.
#[derive(Debug, PartialEq, Eq)]
pub struct GraphCapability {
    pub collection: Option<String>,
}

/// The Oracle's list of collections and export formats.
#[derive(Debug, PartialEq, Eq)]
pub struct CollectionsResponse {
    pub collections: Vec<Collection>,
    pub formats: Vec<String>,
    pub graph: Option<GraphCapability>,
}

/// The Oracle's answer to a connection test.
#[derive(Debug, PartialEq, Eq)]
pub struct ConnectionStatus {
    pub ok: bool,
    pub status: String,
    pub collections: Vec<Collection>,
    pub total_rows: u64,
    pub url: Option<String>,
}

/// An export job as the Oracle reports it when the job is started.
#[derive(Debug, PartialEq, Eq)]
pub struct RemoteExportJob {
    pub job_id: String,
    pub status: Option<String>,
    pub progress: Option<u8>,
    pub filename: Option<String>,
    pub created_at: Option<String>,
}

/// Why a call to the Oracle failed. The variants that wrap an HTTP
/// client failure hold that failure's description.
#[derive(Debug, PartialEq, Eq)]
pub enum OracleClientError {
    InvalidUrl(ConfigError),
    HostResolution,
    UnsafeAddress,
    Client(String),
    Request(String),
    Upstream { status: u16, message: String },
    Response(String),
}

impl From<ConfigError> for OracleClientError {
    fn from(value: ConfigError) -> (res: Self) {
        OracleClientError::InvalidUrl(value)
    }
}

impl vstd::std_specs::convert::FromSpecImpl<ConfigError> for OracleClientError {
    open spec fn obeys_from_spec() -> bool {
        true
    }

    open spec fn from_spec(v: ConfigError) -> Self {
        OracleClientError::InvalidUrl(v)
    }
}

/// The reason phrase that the `http` crate registers for a status code.
pub uninterp spec fn status_reason(code: u16) -> Option<Seq<char>>;

/// `http::StatusCode::from_u16` followed by `canonical_reason`: the
/// registered reason phrase of the code, named `status_reason`; `None` for
/// a code outside 100 through 999, which `from_u16` refuses.
#[verifier::external_body]
fn canonical_reason(code: u16) -> (res: Option<&'static str>)
    ensures
        res matches Some(r) ==> status_reason(code) == Some(r@),
        res is None <==> status_reason(code) is None,
        code < 100 || code > 999 ==> res is None,
{
    match axum::http::StatusCode::from_u16(code) {
        Ok(status) => status.canonical_reason(),
        Err(_) => None,
    }
}

/// How a status code is displayed: the number and its reason phrase.
pub open spec fn status_line(code: u16) -> Seq<char> {
    decimal_text(code as nat) + " "@ + match status_reason(code) {
        Some(r) => r,
        None => "<unknown status code>"@,
    }
}

pub open spec fn client_error_text(e: OracleClientError) -> Seq<char> {
    match e {
        OracleClientError::InvalidUrl(c) => "invalid Oracle URL: "@ + config_error_text(c),
        OracleClientError::HostResolution => "could not resolve Oracle host"@,
        OracleClientError::UnsafeAddress => "Oracle URL must resolve only to public addresses or loopback"@,
        OracleClientError::Client(m) => "unable to create HTTP client: "@ + m@,
        OracleClientError::Request(m) => "Oracle request failed: "@ + m@,
        OracleClientError::Upstream { status, message } => "Oracle returned HTTP "@ + status_line(
            status,
        ) + ": "@ + message@,
        OracleClientError::Response(m) => "Oracle returned an invalid response: "@ + m@,
    }
}

impl OracleClientError {
    /// The human-readable description of the error.
    pub fn message(&self) -> (res: String)
        ensures
            res@ == client_error_text(*self),
    {
        match self {
            OracleClientError::InvalidUrl(c) => {
                let mut out = String::from_str("invalid Oracle URL: ");
                out.append(c.message().as_str());
                out
            },
            OracleClientError::HostResolution => String::from_str("could not resolve Oracle host"),
            OracleClientError::UnsafeAddress => String::from_str(
                "Oracle URL must resolve only to public addresses or loopback",
            ),
            OracleClientError::Client(m) => {
                let mut out = String::from_str("unable to create HTTP client: ");
                out.append(m.as_str());
                out
            },
            OracleClientError::Request(m) => {
                let mut out = String::from_str("Oracle request failed: ");
                out.append(m.as_str());
                out
            },
            OracleClientError::Upstream { status, message } => {
                let mut out = String::from_str("Oracle returned HTTP ");
                push_decimal(&mut out, *status);
                out.append(" ");
                match canonical_reason(*status) {
                    Some(r) => out.append(r),
                    None => out.append("<unknown status code>"),
                }
                out.append(": ");
                out.append(message.as_str());
                out
            },
            OracleClientError::Response(m) => {
                let mut out = String::from_str("Oracle returned an invalid response: ");
                out.append(m.as_str());
                out
            },
        }
    }
}

/// An address the service may contact: loopback or public.
pub open spec fn is_allowed_address(address: IpAddress) -> bool {
    spec_is_loopback(address) || spec_is_public_ip(address)
}

/// Accepts loopback and public addresses and refuses every other one.
pub fn verify_ip(address: &IpAddress) -> (res: Result<(), OracleClientError>)
    ensures
        is_allowed_address(*address) ==> res is Ok,
        !is_allowed_address(*address) ==> res == Err::<(), OracleClientError>(
            OracleClientError::UnsafeAddress,
        ),
{
    if is_loopback(address) || is_public_ip(address) {
        Ok(())
    } else {
        Err(OracleClientError::UnsafeAddress)
    }
}

/// What checking a requested target's host decides before any name is
/// resolved.
#[derive(Debug, PartialEq, Eq)]
pub enum TargetCheck {
    /// The target may be contacted.
    Allowed,
    /// The target is refused.
    Rejected(OracleClientError),
    /// The host name must be resolved, and every address it resolves to
    /// checked with `check_resolved_addresses`.
    Resolve { host: String, port: u16 },
}

/// Decides on a user-supplied target: an IP address must be loopback or
/// public, `localhost` is accepted, and any other host name must be
/// resolved (on the URL's port) before it is judged.
pub fn verify_user_target(target: &OracleUrl) -> (res: TargetCheck)
    ensures
        match target@.host {
            HostView::V4(a) => if is_allowed_address(IpAddress::V4(a)) {
                res is Allowed
            } else {
                res == TargetCheck::Rejected(OracleClientError::UnsafeAddress)
            },
            HostView::V6(s) => if is_allowed_address(IpAddress::V6(s)) {
                res is Allowed
            } else {
                res == TargetCheck::Rejected(OracleClientError::UnsafeAddress)
            },
            HostView::Domain(d) => if d == "localhost"@ {
                res is Allowed
            } else {
                match target@.port {
                    Some(p) => res matches TargetCheck::Resolve { host, port } && host@ == d
                        && port == p,
                    None => res == TargetCheck::Rejected(OracleClientError::HostResolution),
                }
            },
            HostView::Absent => res == TargetCheck::Rejected(OracleClientError::HostResolution),
        },
{
    match target.host() {
        UrlHost::V4(a) => match verify_ip(&IpAddress::V4(*a)) {
            Ok(()) => TargetCheck::Allowed,
            Err(e) => TargetCheck::Rejected(e),
        },
        UrlHost::V6(s) => match verify_ip(&IpAddress::V6(*s)) {
            Ok(()) => TargetCheck::Allowed,
            Err(e) => TargetCheck::Rejected(e),
        },
        UrlHost::Absent => TargetCheck::Rejected(OracleClientError::HostResolution),
        UrlHost::Domain(host) => {
            if *host == String::from_str("localhost") {
                TargetCheck::Allowed
            } else {
                match target.port_or_known_default() {
                    Some(port) => TargetCheck::Resolve { host: host.clone(), port },
                    None => TargetCheck::Rejected(OracleClientError::HostResolution),
                }
            }
        },
    }
}

/// Judges the addresses that a target's host name resolved to: at least
/// one, and each loopback or public.
pub fn check_resolved_addresses(addresses: &Vec<IpAddress>) -> (res: Result<(), OracleClientError>)
    ensures
        addresses@.len() > 0 && (forall|i: int|
            0 <= i < addresses@.len() ==> is_allowed_address(#[trigger] addresses@[i]))
            ==> res is Ok,
        !(addresses@.len() > 0 && (forall|i: int|
            0 <= i < addresses@.len() ==> is_allowed_address(#[trigger] addresses@[i])))
            ==> res == Err::<(), OracleClientError>(OracleClientError::UnsafeAddress),
{
    if addresses.len() == 0 {
        return Err(OracleClientError::UnsafeAddress);
    }
    let mut i: usize = 0;
    while i < addresses.len()
        invariant
            i <= addresses@.len(),
            forall|j: int| 0 <= j < i ==> is_allowed_address(#[trigger] addresses@[j]),
        decreases addresses@.len() - i,
    {
        if verify_ip(&addresses[i]).is_err() {
            return Err(OracleClientError::UnsafeAddress);
        }
        i += 1;
    }
    Ok(())
}

/// What `url::Url::join` gives when the URL that `base` serialises is
/// joined with `input`: `None` when joining fails.
pub uninterp spec fn url_join(base: Seq<char>, input: Seq<char>) -> Option<Seq<char>>;

/// `url::Url::parse` of the serialised base URL, then `Url::join` with
/// `input`; the serialised result is named `url_join`.
#[verifier::external_body]
fn join_url(base: &str, input: &str) -> (res: Option<String>)
    ensures
        res matches Some(s) ==> url_join(base@, input@) == Some(s@),
        res is None <==> url_join(base@, input@) is None,
{
    let base = url::Url::parse(base).ok()?;
    match base.join(input) {
        Ok(joined) => Some(joined.as_str().to_owned()),
        Err(_) => None,
    }
}

/// The URL of an Oracle API path on the given Oracle.
pub fn endpoint(base: &OracleUrl, path: &str) -> (res: Result<String, OracleClientError>)
    ensures
        match url_join(base@.href, path@) {
            Some(u) => res matches Ok(s) && s@ == u,
            None => res == Err::<String, OracleClientError>(OracleClientError::HostResolution),
        },
{
    match join_url(base.as_str(), path) {
        Some(url) => Ok(url),
        None => Err(OracleClientError::HostResolution),
    }
}

/// The Oracle API path of a connection test.
pub open spec fn test_connection_api() -> Seq<char> {
    "api/v1/export/test-connection"@
}

/// The Oracle API path of a connection test.
pub fn test_connection_path() -> (res: &'static str)
    ensures
        res@ == test_connection_api(),
{
    "api/v1/export/test-connection"
}

/// The Oracle API path that lists collections and formats.
pub fn collections_path() -> (res: &'static str)
    ensures
        res@ == "api/v1/export/app/collections"@,
{
    "api/v1/export/app/collections"
}

/// The Oracle API path that starts an export.
pub fn run_path() -> (res: &'static str)
    ensures
        res@ == "api/v1/export/app/run"@,
{
    "api/v1/export/app/run"
}

/// The Oracle API path of an export job's artifact.
pub fn artifact_path(remote_job_id: &str) -> (res: String)
    ensures
        res@ == "api/v1/export/app/download/"@ + remote_job_id@,
{
    let mut path = String::from_str("api/v1/export/app/download/");
    path.append(remote_job_id);
    path
}

/// A target that may be contacted without resolving a name: an allowed IP
/// address, or `localhost`.
pub open spec fn accepted_without_lookup(t: UrlPartsView) -> bool {
    match t.host {
        HostView::V4(a) => is_allowed_address(IpAddress::V4(a)),
        HostView::V6(s) => is_allowed_address(IpAddress::V6(s)),
        HostView::Domain(d) => d == "localhost"@,
        HostView::Absent => false,
    }
}

/// The host name and port to resolve before a target may be contacted.
pub open spec fn host_to_resolve(t: UrlPartsView) -> Option<(Seq<char>, u16)> {
    match t.host {
        HostView::Domain(d) => if d == "localhost"@ {
            None
        } else {
            match t.port {
                Some(p) => Some((d, p)),
                None => None,
            }
        },
        _ => None,
    }
}

/// Why a target that is neither accepted nor to be resolved is refused.
pub open spec fn target_rejection(t: UrlPartsView) -> OracleClientError {
    match t.host {
        HostView::V4(_) => OracleClientError::UnsafeAddress,
        HostView::V6(_) => OracleClientError::UnsafeAddress,
        _ => OracleClientError::HostResolution,
    }
}

/// Every address resolved is allowed, and there is at least one.
pub open spec fn all_allowed(addresses: Seq<IpAddress>) -> bool {
    addresses.len() > 0 && forall|i: int|
        0 <= i < addresses.len() ==> is_allowed_address(#[trigger] addresses[i])
}

/// What a connection test does next.
#[derive(Debug, PartialEq, Eq)]
pub enum ConnectionTestStep {
    /// Resolve the host name and hand the addresses to `after_resolution`.
    Resolve { host: String, port: u16 },
    /// Send the test request to this URL.
    Send { url: String },
    /// Stop with this error; nothing is sent.
    Fail(OracleClientError),
}

/// The first step of a connection test of a parsed target: send at once
/// when the target is accepted as it stands, resolve its name first, or
/// fail. A request is sent only to an accepted target.
pub fn start_connection_test(target: &OracleUrl) -> (res: ConnectionTestStep)
    ensures
        accepted_without_lookup(target@) ==> match url_join(target@.href, test_connection_api()) {
            Some(u) => res matches ConnectionTestStep::Send { url } && url@ == u,
            None => res == ConnectionTestStep::Fail(OracleClientError::HostResolution),
        },
        !accepted_without_lookup(target@) ==> match host_to_resolve(target@) {
            Some((h, p)) => res matches ConnectionTestStep::Resolve { host, port } && host@ == h
                && port == p,
            None => res == ConnectionTestStep::Fail(target_rejection(target@)),
        },
        res is Send ==> accepted_without_lookup(target@),
        target@.host matches HostView::V4(a) ==> (res is Send <==> (is_allowed_address(
            IpAddress::V4(a),
        ) && url_join(target@.href, test_connection_api()) is Some)),
        target@.host matches HostView::V6(s) ==> (res is Send <==> (is_allowed_address(
            IpAddress::V6(s),
        ) && url_join(target@.href, test_connection_api()) is Some)),
        target@.host matches HostView::V4(a) && a[0] == 127 && url_join(
            target@.href,
            test_connection_api(),
        ) is Some ==> res is Send,
        target@.host matches HostView::V4(a) && !is_allowed_address(IpAddress::V4(a)) ==> res
            == ConnectionTestStep::Fail(OracleClientError::UnsafeAddress),
        target@.host matches HostView::V6(s) && !is_allowed_address(IpAddress::V6(s)) ==> res
            == ConnectionTestStep::Fail(OracleClientError::UnsafeAddress),
        target@.host == HostView::Domain("localhost"@) && url_join(
            target@.href,
            test_connection_api(),
        ) is Some ==> res is Send,
{
    match verify_user_target(target) {
        TargetCheck::Allowed => match endpoint(target, test_connection_path()) {
            Ok(url) => ConnectionTestStep::Send { url },
            Err(e) => ConnectionTestStep::Fail(e),
        },
        TargetCheck::Rejected(e) => ConnectionTestStep::Fail(e),
        TargetCheck::Resolve { host, port } => ConnectionTestStep::Resolve { host, port },
    }
}

/// The step after the target's host name was resolved (`None` when the
/// lookup failed): the URL to send the test request to, once every
/// resolved address is allowed.
pub fn after_resolution(target: &OracleUrl, resolved: Option<Vec<IpAddress>>) -> (res: Result<
    String,
    OracleClientError,
>)
    ensures
        resolved is None ==> res == Err::<String, OracleClientError>(
            OracleClientError::HostResolution,
        ),
        resolved matches Some(a) && !all_allowed(a@) ==> res == Err::<String, OracleClientError>(
            OracleClientError::UnsafeAddress,
        ),
        resolved matches Some(a) && all_allowed(a@) ==> match url_join(
            target@.href,
            test_connection_api(),
        ) {
            Some(u) => res matches Ok(url) && url@ == u,
            None => res == Err::<String, OracleClientError>(OracleClientError::HostResolution),
        },
        res is Ok ==> (resolved matches Some(a) && all_allowed(a@)),
{
    let addresses = match resolved {
        Some(a) => a,
        None => return Err(OracleClientError::HostResolution),
    };
    check_resolved_addresses(&addresses)?;
    endpoint(target, test_connection_path())
}

/// Whether an HTTP status code reports success (200 through 299).
pub fn is_success_status(status: u16) -> (res: bool)
    ensures
        res == (200 <= status < 300),
{
    200 <= status && status < 300
}

/// The error for an unsuccessful Oracle response with the given status and
/// body text (`None` when the body could not be read).
pub fn upstream_error(status: u16, body: Option<String>) -> (res: OracleClientError)
    ensures
        res matches OracleClientError::Upstream { status: s, message } && s == status
            && message@ == match body {
            Some(b) => b@,
            None => "Oracle did not provide an error response"@,
        },
{
    let message = match body {
        Some(b) => b,
        None => String::from_str("Oracle did not provide an error response"),
    };
    OracleClientError::Upstream { status, message }
}

/// Whether `pat` occurs in `s` at index `i`.
pub open spec fn occurs_at(s: Seq<char>, pat: Seq<char>, i: int) -> bool {
    0 <= i && i + pat.len() <= s.len() && s.subrange(i, i + pat.len()) == pat
}

/// The first index from `start` on where `pat` occurs in `s`.
pub open spec fn find_from(s: Seq<char>, pat: Seq<char>, start: int) -> Option<int>
    decreases s.len() + 1 - start,
{
    if start < 0 || start + pat.len() > s.len() {
        None
    } else if occurs_at(s, pat, start) {
        Some(start)
    } else {
        find_from(s, pat, start + 1)
    }
}

/// A found occurrence is an occurrence, at or after the starting index.
proof fn lemma_find_from(s: Seq<char>, pat: Seq<char>, start: int)
    ensures
        find_from(s, pat, start) matches Some(j) ==> start <= j && occurs_at(s, pat, j),
    decreases s.len() + 1 - start,
{
    if !(start < 0 || start + pat.len() > s.len()) && !occurs_at(s, pat, start) {
        lemma_find_from(s, pat, start + 1);
    }
}

/// The second piece of `s` split at `pat` (`str::split(pat).nth(1)`): the
/// text between the first occurrence and the next one, or the end.
pub open spec fn second_piece(s: Seq<char>, pat: Seq<char>) -> Option<Seq<char>> {
    match find_from(s, pat, 0) {
        None => None,
        Some(i) => {
            let from = i + pat.len();
            let to = match find_from(s, pat, from) {
                Some(j) => j,
                None => s.len() as int,
            };
            Some(s.subrange(from, to))
        },
    }
}

/// The characters that `filename_from_headers` trims.
pub open spec fn is_quote_or_space(c: char) -> bool {
    c == '"' || c == '\'' || c == ' '
}

/// `s` without its leading quotes and spaces.
pub open spec fn trim_start_quotes(s: Seq<char>) -> Seq<char>
    decreases s.len(),
{
    if s.len() > 0 && is_quote_or_space(s[0]) {
        trim_start_quotes(s.drop_first())
    } else {
        s
    }
}

/// `s` without its trailing quotes and spaces.
pub open spec fn trim_end_quotes(s: Seq<char>) -> Seq<char>
    decreases s.len(),
{
    if s.len() > 0 && is_quote_or_space(s.last()) {
        trim_end_quotes(s.drop_last())
    } else {
        s
    }
}

/// `str::trim_matches(['"', '\'', ' '])`.
pub open spec fn trim_quotes(s: Seq<char>) -> Seq<char> {
    trim_end_quotes(trim_start_quotes(s))
}

/// The characters kept in an artifact's file name.
pub open spec fn is_filename_char(c: char) -> bool {
    ||| 'a' <= c <= 'z'
    ||| 'A' <= c <= 'Z'
    ||| '0' <= c <= '9'
    ||| c == '.'
    ||| c == '_'
    ||| c == '-'
}

/// The characters of `s` that may stand in a file name, in order.
pub open spec fn filename_chars(s: Seq<char>) -> Seq<char>
    decreases s.len(),
{
    if s.len() == 0 {
        Seq::empty()
    } else {
        let rest = filename_chars(s.drop_last());
        if is_filename_char(s.last()) {
            rest.push(s.last())
        } else {
            rest
        }
    }
}

/// The file name that a `Content-Disposition` value offers, if any.
pub open spec fn disposition_filename(header: Option<Seq<char>>) -> Option<Seq<char>> {
    match header {
        None => None,
        Some(h) => match second_piece(h, "filename="@) {
            None => None,
            Some(piece) => {
                let name = trim_quotes(piece);
                if name.len() > 0 {
                    Some(name)
                } else {
                    None
                }
            },
        },
    }
}

/// The file name used when the Oracle offers none that can be used.
pub open spec fn fallback_filename(job_id: Seq<char>, extension: Seq<char>) -> Seq<char> {
    "oracle-export-"@ + job_id + "."@ + extension
}

/// The file name of a downloaded artifact: the offered name, or the
/// fallback, reduced to its file-name characters; the fallback itself when
/// nothing is left.
pub open spec fn artifact_filename(
    header: Option<Seq<char>>,
    job_id: Seq<char>,
    extension: Seq<char>,
) -> Seq<char> {
    let fallback = fallback_filename(job_id, extension);
    let value = match disposition_filename(header) {
        Some(v) => v,
        None => fallback,
    };
    let safe = filename_chars(value);
    if safe.len() == 0 {
        fallback
    } else {
        safe
    }
}

/// `filename_chars` keeps file-name characters only.
proof fn lemma_filename_chars(s: Seq<char>)
    ensures
        forall|i: int|
            0 <= i < filename_chars(s).len() ==> is_filename_char(#[trigger] filename_chars(s)[i]),
    decreases s.len(),
{
    if s.len() > 0 {
        let rest = filename_chars(s.drop_last());
        lemma_filename_chars(s.drop_last());
        if is_filename_char(s.last()) {
            assert forall|i: int| 0 <= i < rest.push(s.last()).len() implies is_filename_char(
                #[trigger] rest.push(s.last())[i],
            ) by {
                if i < rest.len() {
                    assert(rest.push(s.last())[i] == rest[i]);
                }
            }
        }
    }
}

/// A run of ASCII letters, digits, `.`, `_` and `-` passes the
/// file-name filter unchanged.
pub proof fn lemma_filename_chars_keeps_safe(s: Seq<char>)
    requires
        forall|i: int|
            0 <= i < s.len() ==> {
                let c = #[trigger] s[i];
                ||| 'a' <= c <= 'z'
                ||| 'A' <= c <= 'Z'
                ||| '0' <= c <= '9'
                ||| c == '.'
                ||| c == '_'
                ||| c == '-'
            },
    ensures
        filename_chars(s) == s,
    decreases s.len(),
{
    if s.len() > 0 {
        let init = s.drop_last();
        assert forall|i: int| 0 <= i < init.len() implies {
            let c = #[trigger] init[i];
            ||| 'a' <= c <= 'z'
            ||| 'A' <= c <= 'Z'
            ||| '0' <= c <= '9'
            ||| c == '.'
            ||| c == '_'
            ||| c == '-'
        } by {
            assert(init[i] == s[i]);
        }
        lemma_filename_chars_keeps_safe(init);
        assert(s[s.len() - 1] == s.last());
        assert(init.push(s.last()) =~= s);
    }
}

/// A name offered by the Oracle that is made only of ASCII letters,
/// digits, `.`, `_` and `-` is used as it stands.
pub proof fn lemma_safe_offered_name_kept(
    header: Option<Seq<char>>,
    job_id: Seq<char>,
    extension: Seq<char>,
    name: Seq<char>,
)
    requires
        disposition_filename(header) == Some(name),
        forall|i: int|
            0 <= i < name.len() ==> {
                let c = #[trigger] name[i];
                ||| 'a' <= c <= 'z'
                ||| 'A' <= c <= 'Z'
                ||| '0' <= c <= '9'
                ||| c == '.'
                ||| c == '_'
                ||| c == '-'
            },
    ensures
        artifact_filename(header, job_id, extension) == name,
{
    lemma_filename_chars_keeps_safe(name);
}

/// An artifact's file name is the fallback name, or a non-empty name made
/// of ASCII letters, digits, `.`, `_` and `-` only.
pub proof fn lemma_artifact_filename_safe(
    header: Option<Seq<char>>,
    job_id: Seq<char>,
    extension: Seq<char>,
)
    ensures
        ({
            let name = artifact_filename(header, job_id, extension);
            ||| name == fallback_filename(job_id, extension)
            ||| name.len() > 0 && forall|i: int|
                0 <= i < name.len() ==> {
                    let c = #[trigger] name[i];
                    ||| 'a' <= c <= 'z'
                    ||| 'A' <= c <= 'Z'
                    ||| '0' <= c <= '9'
                    ||| c == '.'
                    ||| c == '_'
                    ||| c == '-'
                }
        }),
{
    let value = match disposition_filename(header) {
        Some(v) => v,
        None => fallback_filename(job_id, extension),
    };
    lemma_filename_chars(value);
}

/// The first index from `start` on where `pat` occurs in `s`.
fn find_pattern(s: &Vec<char>, pat: &Vec<char>, start: usize) -> (res: Option<usize>)
    ensures
        match res {
            Some(j) => find_from(s@, pat@, start as int) == Some(j as int),
            None => find_from(s@, pat@, start as int) is None,
        },
{
    let mut i: usize = start;
    while i <= s.len() && pat.len() <= s.len() - i
        invariant
            start <= i,
            find_from(s@, pat@, start as int) == find_from(s@, pat@, i as int),
        decreases s@.len() + 1 - i,
    {
        let mut k: usize = 0;
        let mut same = true;
        while k < pat.len()
            invariant
                i + pat.len() <= s.len(),
                k <= pat@.len(),
                same ==> forall|m: int| 0 <= m < k ==> s@[i + m] == pat@[m],
                !same ==> !occurs_at(s@, pat@, i as int),
            decreases pat@.len() - k,
        {
            if s[i + k] != pat[k] {
                same = false;
                assert(s@.subrange(i as int, i + pat@.len())[k as int] != pat@[k as int]);
            }
            k += 1;
        }
        if same {
            assert(s@.subrange(i as int, i + pat@.len()) =~= pat@);
            return Some(i);
        }
        if i == s.len() {
            assert(find_from(s@, pat@, i + 1) is None);
            return None;
        }
        i += 1;
    }
    None
}

/// `str::trim_matches(['"', '\'', ' '])` on a run of characters.
fn trim_quote_chars(s: &Vec<char>, from: usize, to: usize) -> (res: Vec<char>)
    requires
        from <= to <= s@.len(),
    ensures
        res@ == trim_quotes(s@.subrange(from as int, to as int)),
{
    let mut a: usize = from;
    while a < to && (s[a] == '"' || s[a] == '\'' || s[a] == ' ')
        invariant
            from <= a <= to <= s@.len(),
            trim_start_quotes(s@.subrange(from as int, to as int)) == trim_start_quotes(
                s@.subrange(a as int, to as int),
            ),
        decreases to - a,
    {
        assert(s@.subrange(a as int, to as int).drop_first() =~= s@.subrange(a + 1, to as int));
        a += 1;
    }
    let mut b: usize = to;
    while b > a && (s[b - 1] == '"' || s[b - 1] == '\'' || s[b - 1] == ' ')
        invariant
            from <= a <= b <= to <= s@.len(),
            trim_end_quotes(s@.subrange(a as int, to as int)) == trim_end_quotes(
                s@.subrange(a as int, b as int),
            ),
        decreases b - a,
    {
        assert(s@.subrange(a as int, b as int).drop_last() =~= s@.subrange(a as int, b - 1));
        b -= 1;
    }
    let mut out: Vec<char> = Vec::new();
    let mut i: usize = a;
    while i < b
        invariant
            a <= i <= b <= s@.len(),
            out@ == s@.subrange(a as int, i as int),
        decreases b - i,
    {
        out.push(s[i]);
        i += 1;
        assert(out@ =~= s@.subrange(a as int, i as int));
    }
    out
}

/// The file name offered by a `Content-Disposition` value, if any.
fn offered_filename(header: &str) -> (res: Option<Vec<char>>)
    ensures
        match res {
            Some(v) => disposition_filename(Some(header@)) == Some(v@),
            None => disposition_filename(Some(header@)) is None,
        },
{
    let s = chars_of(header);
    let pat = chars_of("filename=");
    let first = match find_pattern(&s, &pat, 0) {
        Some(i) => i,
        None => return None,
    };
    proof {
        lemma_find_from(s@, pat@, 0);
        assert(occurs_at(s@, pat@, first as int));
        assert(first + pat@.len() <= s@.len());
        assert(first + pat.len() <= s.len());
    }
    let from = first + pat.len();
    let to = match find_pattern(&s, &pat, from) {
        Some(j) => j,
        None => s.len(),
    };
    proof {
        lemma_find_from(s@, pat@, from as int);
    }
    let name = trim_quote_chars(&s, from, to);
    if name.len() > 0 {
        Some(name)
    } else {
        None
    }
}

/// The file-name characters of `chars`, as a string.
fn keep_filename_chars(chars: &Vec<char>) -> (res: String)
    ensures
        res@ == filename_chars(chars@),
{
    let mut out = String::new();
    let mut i: usize = 0;
    while i < chars.len()
        invariant
            i <= chars@.len(),
            out@ == filename_chars(chars@.take(i as int)),
        decreases chars@.len() - i,
    {
        let c = chars[i];
        assert(chars@.take(i + 1).drop_last() =~= chars@.take(i as int));
        if ('a' <= c && c <= 'z') || ('A' <= c && c <= 'Z') || ('0' <= c && c <= '9') || c == '.'
            || c == '_' || c == '-' {
            push_char(&mut out, c);
        }
        i += 1;
    }
    assert(chars@.take(i as int) =~= chars@);
    out
}

/// The file name to give a downloaded artifact, from the Oracle's
/// `Content-Disposition` value (`None` when absent or not visible ASCII),
/// the Oracle's job id and the format's extension.
pub fn filename_from_headers(disposition: Option<&str>, job_id: &str, extension: &str) -> (res:
    String)
    ensures
        res@ == artifact_filename(
            match disposition {
                Some(h) => Some(h@),
                None => None,
            },
            job_id@,
            extension@,
        ),
{
    let mut fallback = String::from_str("oracle-export-");
    fallback.append(job_id);
    fallback.append(".");
    fallback.append(extension);
    let offered = match disposition {
        Some(h) => offered_filename(h),
        None => None,
    };
    let value = match offered {
        Some(v) => v,
        None => chars_of(fallback.as_str()),
    };
    let safe = keep_filename_chars(&value);
    if safe.as_str().is_empty() {
        fallback
    } else {
        safe
    }
}

/// The artifact of a successful download: the Oracle's bytes, its content
/// type (`None` when absent or not visible ASCII) or
/// `application/octet-stream`, and the file name that
/// `filename_from_headers` gives.
pub fn artifact_from_response(
    content_type: Option<String>,
    disposition: Option<&str>,
    bytes: Vec<u8>,
    remote_job_id: &str,
    extension: &str,
) -> (res: ExportArtifact)
    ensures
        res.bytes == bytes,
        res.content_type@ == text_or(opt_text(content_type), "application/octet-stream"@),
        res.filename@ == artifact_filename(
            match disposition {
                Some(h) => Some(h@),
                None => None,
            },
            remote_job_id@,
            extension@,
        ),
{
    let content_type = match content_type {
        Some(c) => c,
        None => String::from_str("application/octet-stream"),
    };
    let filename = filename_from_headers(disposition, remote_job_id, extension);
    ExportArtifact { bytes, content_type, filename }
}

/// The Oracle that the service currently talks to.
#[derive(Debug, PartialEq, Eq)]
pub struct OracleTarget {
    current: OracleUrl,
}

impl View for OracleTarget {
    type V = UrlPartsView;

    closed spec fn view(&self) -> UrlPartsView {
        self.current@
    }
}

impl OracleTarget {
    /// Starts with the given Oracle.
    pub fn new(url: OracleUrl) -> (res: Self)
        ensures
            res@ == url@,
    {
        OracleTarget { current: url }
    }

    /// A copy of the current Oracle URL.
    pub fn current_url(&self) -> (res: OracleUrl)
        ensures
            res@ == self@,
    {
        self.current.clone()
    }

    /// Takes in the Oracle's answer to a connection test of `target`: the
    /// answer is returned with the tested URL filled in, and `target`
    /// becomes the current Oracle exactly when the answer reports success.
    pub fn record_connection(&mut self, target: OracleUrl, status: ConnectionStatus) -> (res:
        ConnectionStatus)
        ensures
            res.ok == status.ok,
            res.status == status.status,
            res.collections == status.collections,
            res.total_rows == status.total_rows,
            res.url matches Some(u) && u@ == target@.href,
            status.ok ==> final(self)@ == target@,
            !status.ok ==> final(self)@ == old(self)@,
    {
        let ConnectionStatus { ok, status, collections, total_rows, .. } = status;
        let url = target.as_str().to_owned();
        if ok {
            self.current = target;
        }
        ConnectionStatus { ok, status, collections, total_rows, url: Some(url) }
    }
}

} // verus!
