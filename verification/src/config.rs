//! Service configuration: the Oracle origin URL and the listening port.
use url::{Host, Url};
use vstd::prelude::*;

use crate::text::{parse_u16, u16_from_decimal};

verus! {

/// Why a configuration value was refused.
#[derive(Clone, Copy, Debug, PartialEq, Eq)]
pub enum ConfigError {
    InvalidOracleUrl,
    InvalidPort,
}

/// The description of a configuration error.
pub open spec fn config_error_text(e: ConfigError) -> Seq<char> {
    match e {
        ConfigError::InvalidOracleUrl => "ORACLE_URL must be an absolute http or https URL without credentials, query parameters, or fragments"@,
        ConfigError::InvalidPort => "ARRA_EXPORT_PORT must be an integer from 1 through 65535"@,
    }
}

impl ConfigError {
    /// The human-readable description of the error.
    pub fn message(&self) -> (res: String)
        ensures
            res@ == config_error_text(*self),
    {
        match self {
            ConfigError::InvalidOracleUrl => String::from_str(
                "ORACLE_URL must be an absolute http or https URL without credentials, query parameters, or fragments",
            ),
            ConfigError::InvalidPort => String::from_str(
                "ARRA_EXPORT_PORT must be an integer from 1 through 65535",
            ),
        }
    }
}

/// The host of a parsed URL.
#[derive(Debug, PartialEq, Eq)]
pub enum UrlHost {
    Absent,
    Domain(String),
    V4([u8; 4]),
    V6([u16; 8]),
}

impl Clone for UrlHost {
    fn clone(&self) -> (res: Self)
        ensures
            res == *self,
    {
        match self {
            UrlHost::Absent => UrlHost::Absent,
            UrlHost::Domain(d) => UrlHost::Domain(d.clone()),
            UrlHost::V4(a) => UrlHost::V4(*a),
            UrlHost::V6(a) => UrlHost::V6(*a),
        }
    }
}

/// A URL host as a mathematical value.
pub enum HostView {
    Absent,
    Domain(Seq<char>),
    V4([u8; 4]),
    V6([u16; 8]),
}

impl View for UrlHost {
    type V = HostView;

    open spec fn view(&self) -> HostView {
        match self {
            UrlHost::Absent => HostView::Absent,
            UrlHost::Domain(d) => HostView::Domain(d@),
            UrlHost::V4(a) => HostView::V4(*a),
            UrlHost::V6(a) => HostView::V6(*a),
        }
    }
}

/// The components of a parsed URL, as the URL parser reports them.
#[derive(Debug, PartialEq, Eq)]
pub struct UrlParts {
    pub scheme: String,
    pub username: String,
    pub password: Option<String>,
    pub host: UrlHost,
    pub port: Option<u16>,
    pub path: String,
    pub query: Option<String>,
    pub fragment: Option<String>,
    pub href: String,
}

/// The components of a parsed URL as mathematical values.
pub struct UrlPartsView {
    pub scheme: Seq<char>,
    pub username: Seq<char>,
    pub password: Option<Seq<char>>,
    pub host: HostView,
    pub port: Option<u16>,
    pub path: Seq<char>,
    pub query: Option<Seq<char>>,
    pub fragment: Option<Seq<char>>,
    pub href: Seq<char>,
}

/// The text of an optional string.
pub open spec fn opt_text(o: Option<String>) -> Option<Seq<char>> {
    match o {
        Some(s) => Some(s@),
        None => None,
    }
}

impl View for UrlParts {
    type V = UrlPartsView;

    open spec fn view(&self) -> UrlPartsView {
        UrlPartsView {
            scheme: self.scheme@,
            username: self.username@,
            password: opt_text(self.password),
            host: self.host@,
            port: self.port,
            path: self.path@,
            query: opt_text(self.query),
            fragment: opt_text(self.fragment),
            href: self.href@,
        }
    }
}

/// What `url::Url::parse` makes of an input string: `None` when it fails,
/// else the components of the parsed URL (scheme, user name, password,
/// host, the port or the scheme's default port, path, query, fragment and
/// the serialisation).
pub uninterp spec fn url_parse(input: Seq<char>) -> Option<UrlPartsView>;

/// The schemes an Oracle may be reached by.
pub open spec fn is_web_scheme(scheme: Seq<char>) -> bool {
    scheme == "http"@ || scheme == "https"@
}

/// `url::Url::parse`, with the parsed URL taken apart by its accessors.
/// The result is named `url_parse`; the one further claim is that a URL of
/// a special scheme (such as http or https) has a path that starts with
/// `/`, which the parser's `parse_path_start` guarantees.
#[verifier::external_body]
fn parse_url(input: &str) -> (res: Option<UrlParts>)
    ensures
        res matches Some(p) ==> url_parse(input@) == Some(p@),
        res is None <==> url_parse(input@) is None,
        res matches Some(p) ==> (is_web_scheme(p.scheme@) ==> p.path@.len() > 0 && p.path@[0]
            == '/'),
{
    let u = Url::parse(input).ok()?;
    Some(UrlParts { scheme: u.scheme().to_owned(), username: u.username().to_owned(),
        password: u.password().map(str::to_owned), host: match u.host() {
            Some(Host::Domain(d)) => UrlHost::Domain(d.to_owned()),
            Some(Host::Ipv4(a)) => UrlHost::V4(a.octets()),
            Some(Host::Ipv6(a)) => UrlHost::V6(a.segments()),
            None => UrlHost::Absent
        }, port: u.port_or_known_default(), path: u.path().to_owned(),
        query: u.query().map(str::to_owned), fragment: u.fragment().map(str::to_owned),
        href: u.as_str().to_owned() })
}

/// An absolute http(s) origin: a host, no credentials, no query, no
/// fragment and an empty or root path.
pub open spec fn is_oracle_origin(p: UrlPartsView) -> bool {
    &&& is_web_scheme(p.scheme)
    &&& !(p.host is Absent)
    &&& p.username.len() == 0
    &&& p.password is None
    &&& p.query is None
    &&& p.fragment is None
    &&& (p.path.len() == 0 || p.path == "/"@)
}

/// A validated Oracle origin URL: an http or https URL with a host, no
/// credentials, no query, no fragment and the root path.
#[derive(Debug, PartialEq, Eq)]
pub struct OracleUrl {
    scheme: String,
    host: UrlHost,
    port: Option<u16>,
    href: String,
}

impl View for OracleUrl {
    type V = UrlPartsView;

    closed spec fn view(&self) -> UrlPartsView {
        UrlPartsView {
            scheme: self.scheme@,
            username: Seq::empty(),
            password: None,
            host: self.host@,
            port: self.port,
            path: "/"@,
            query: None,
            fragment: None,
            href: self.href@,
        }
    }
}

impl Clone for OracleUrl {
    fn clone(&self) -> (res: Self)
        ensures
            res == *self,
    {
        OracleUrl {
            scheme: self.scheme.clone(),
            host: self.host.clone(),
            port: self.port,
            href: self.href.clone(),
        }
    }
}

impl OracleUrl {
    /// The serialised URL.
    pub fn as_str(&self) -> (res: &str)
        ensures
            res@ == self@.href,
    {
        self.href.as_str()
    }

    /// The host of the URL.
    pub fn host(&self) -> (res: &UrlHost)
        ensures
            self@.host == res@,
    {
        &self.host
    }

    /// The explicit port, or the default port of the scheme.
    pub fn port_or_known_default(&self) -> (res: Option<u16>)
        ensures
            res == self@.port,
    {
        self.port
    }
}

/// Every `OracleUrl` has no credentials, query or fragment and the root path.
pub proof fn lemma_oracle_url_shape(u: OracleUrl)
    ensures
        u@.username.len() == 0,
        u@.password is None,
        u@.query is None,
        u@.fragment is None,
        u@.path == "/"@,

{
}

/// What validating `text` as an Oracle origin gives: the parsed URL when it
/// is an http(s) origin, `None` otherwise.
pub open spec fn oracle_origin(text: Seq<char>) -> Option<UrlPartsView> {
    match url_parse(text) {
        Some(p) => if is_oracle_origin(p) {
            Some(p)
        } else {
            None
        },
        None => None,
    }
}

/// Takes parsed URL components as an Oracle origin: an http(s) URL with a
/// host, no credentials, no query, no fragment and the root path. An empty
/// path, which the URL parser never gives an http(s) URL, is refused too:
/// no serialisation with the root path can be formed from these parts.
pub fn oracle_url_from_parts(parts: UrlParts) -> (res: Result<OracleUrl, ConfigError>)
    ensures
        is_oracle_origin(parts@) && parts@.path == "/"@ ==> (res matches Ok(u) && u@ == parts@),
        !(is_oracle_origin(parts@) && parts@.path == "/"@) ==> res == Err::<OracleUrl, ConfigError>(
            ConfigError::InvalidOracleUrl,
        ),
{
    let valid_scheme = parts.scheme == String::from_str("http") || parts.scheme
        == String::from_str("https");
    let path_is_root = parts.path == String::from_str("/");
    let has_host = match parts.host {
        UrlHost::Absent => false,
        _ => true,
    };
    if !valid_scheme || !has_host || !parts.username.as_str().is_empty()
        || parts.password.is_some() || parts.query.is_some() || parts.fragment.is_some()
        || !path_is_root {
        return Err(ConfigError::InvalidOracleUrl);
    }
    assert(parts.username@ =~= Seq::<char>::empty());
    let UrlParts { scheme, host, port, href, .. } = parts;
    Ok(OracleUrl { scheme, host, port, href })
}

/// Parses an Oracle origin URL and normalises it to the root path.
pub fn parse_oracle_url(value: &str) -> (res: Result<OracleUrl, ConfigError>)
    ensures
        match oracle_origin(value@) {
            Some(p) => res matches Ok(u) && u@ == p,
            None => res == Err::<OracleUrl, ConfigError>(ConfigError::InvalidOracleUrl),
        },
{
    match parse_url(value) {
        Some(parts) => oracle_url_from_parts(parts),
        None => Err(ConfigError::InvalidOracleUrl),
    }
}

/// The Oracle origin used when `ORACLE_URL` is not set.
pub const DEFAULT_ORACLE_URL: &'static str = "http://localhost:47778";

/// The port used when `ARRA_EXPORT_PORT` is not set.
pub const DEFAULT_PORT: u16 = 4778;

/// The static UI directory used when `ARRA_EXPORT_FRONTEND_DIST` is not set.
pub const DEFAULT_FRONTEND_DIST: &'static str = "frontend/build";

/// The service configuration.
#[derive(Debug, PartialEq, Eq)]
pub struct AppConfig {
    pub oracle_url: OracleUrl,
    pub port: u16,
    pub frontend_dist: String,
}

/// The port that a `ARRA_EXPORT_PORT` value selects: the default when it is
/// unset, the parsed number when it is a decimal from 1 through 65535, and
/// `None` when it is refused.
pub open spec fn configured_port(value: Option<Seq<char>>) -> Option<u16> {
    match value {
        None => Some(DEFAULT_PORT),
        Some(v) => match u16_from_decimal(v) {
            Some(n) => if n != 0 {
                Some(n)
            } else {
                None
            },
            None => None,
        },
    }
}

/// The given text, or the default when there is none.
pub open spec fn text_or(value: Option<Seq<char>>, default: Seq<char>) -> Seq<char> {
    match value {
        Some(v) => v,
        None => default,
    }
}

impl AppConfig {
    /// Builds the configuration from the values of `ORACLE_URL`,
    /// `ARRA_EXPORT_PORT` and `ARRA_EXPORT_FRONTEND_DIST` (`None` where a
    /// variable is unset). The port is checked before the URL.
    pub fn from_env_values(
        oracle_url: Option<String>,
        port: Option<String>,
        frontend_dist: Option<String>,
    ) -> (res: Result<AppConfig, ConfigError>)
        ensures
            configured_port(opt_text(port)) is None ==> res == Err::<AppConfig, ConfigError>(
                ConfigError::InvalidPort,
            ),
            configured_port(opt_text(port)) matches Some(n) ==> match oracle_origin(
                text_or(opt_text(oracle_url), DEFAULT_ORACLE_URL@),
            ) {
                Some(p) => res matches Ok(c) && c.port == n && c.oracle_url@ == p
                    && c.frontend_dist@ == text_or(opt_text(frontend_dist), DEFAULT_FRONTEND_DIST@),
                None => res == Err::<AppConfig, ConfigError>(ConfigError::InvalidOracleUrl),
            },
            match port {
                Some(v) => match u16_from_decimal(v@) {
                    Some(n) => 1 <= n && oracle_origin(
                        text_or(opt_text(oracle_url), DEFAULT_ORACLE_URL@),
                    ) is Some ==> (res matches Ok(c) && c.port == n),
                    None => res == Err::<AppConfig, ConfigError>(ConfigError::InvalidPort),
                },
                None => oracle_origin(text_or(opt_text(oracle_url), DEFAULT_ORACLE_URL@))
                    is Some ==> (res matches Ok(c) && c.port == 4778),
            },
            res == Err::<AppConfig, ConfigError>(ConfigError::InvalidPort) ==> (port matches Some(
                v,
            ) && (u16_from_decimal(v@) is None || u16_from_decimal(v@) == Some(0u16))),
            res is Ok ==> (res matches Ok(c) && c.port != 0),
    {
        let port = match port {
            Some(value) => match parse_u16(value.as_str()) {
                Some(n) => n,
                None => return Err(ConfigError::InvalidPort),
            },
            None => DEFAULT_PORT,
        };
        if port == 0 {
            return Err(ConfigError::InvalidPort);
        }
        let frontend_dist = match frontend_dist {
            Some(dist) => dist,
            None => String::from_str(DEFAULT_FRONTEND_DIST),
        };
        let oracle_url = match oracle_url {
            Some(url) => url,
            None => String::from_str(DEFAULT_ORACLE_URL),
        };
        let oracle_url = parse_oracle_url(oracle_url.as_str())?;
        Ok(AppConfig { oracle_url, port, frontend_dist })
    }
}

} // verus!
