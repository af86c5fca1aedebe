//! The comparison engine: the port and host equivalence checks, the
//! per-request [`Analyzer`] that runs both parsers and both checks exactly
//! once, and the configuration-driven [`Validator`] that later interprets the
//! cached [`Analysis`].

use vstd::prelude::*;

use crate::util::{
    ascii_eq_ignore_case, parse_host_header, parse_request_line, spec_parse_host_header,
    spec_split_request_line, str_eq, str_eq_ignore_ascii_case, uri_authority_of, uri_parses,
};
use crate::{CheckSwitch, HostCheckRigor, ValidationConfig};

verus! {

// ---------------------------------------------------------------------------
// The port check
// ---------------------------------------------------------------------------

/// Whether a connection bound to `conn_port` is consistent with a request
/// that declares `req_port`, under a scheme whose default port is
/// `scheme_port`.
///
/// With a known connection port, the declared port — or, failing that, the
/// scheme default — must equal it; with neither there is no way to judge the
/// connection consistent. With an unknown connection port the request must
/// not declare one; the scheme default is deliberately not consulted in that
/// branch.
pub open spec fn spec_validate_port(
    conn_port: Option<u16>,
    req_port: Option<u16>,
    scheme_port: Option<u16>,
) -> bool {
    match conn_port {
        Some(cp) => match (if req_port is Some {
            req_port
        } else {
            scheme_port
        }) {
            Some(ep) => cp == ep,
            None => false,
        },
        None => req_port is None,
    }
}

/// The port check, applied once per declared source.
pub fn validate_port(conn_port: Option<u16>, req_port: Option<u16>, scheme_port: Option<u16>) -> (r:
    bool)
    ensures
        r == spec_validate_port(conn_port, req_port, scheme_port),
{
    if let Some(cp) = conn_port {
        let effective = if req_port.is_some() {
            req_port
        } else {
            scheme_port
        };
        if let Some(ep) = effective {
            cp == ep
        } else {
            false
        }
    } else {
        req_port.is_none()
    }
}

/// When the declared port equals the connection port, the port check passes,
/// whatever the scheme default is.
pub proof fn lemma_validate_port_reflexive(p: u16, scheme_port: Option<u16>)
    ensures
        spec_validate_port(Some(p), Some(p), scheme_port),
{
}

// ---------------------------------------------------------------------------
// The host check
// ---------------------------------------------------------------------------

/// ASCII case-insensitive equality of two host names.
pub fn eq_host_name(host1: &str, host2: &str) -> (r: bool)
    ensures
        r == ascii_eq_ignore_case(host1@, host2@),
{
    str_eq_ignore_ascii_case(host1, host2)
}

/// Whether the selected virtual host is consistent with the TLS server name:
/// true unless both are present and differ under ASCII case-insensitive
/// comparison. A missing value never counts against the request.
pub open spec fn spec_validate_host(selected_host: Option<&str>, sni_name: Option<&str>) -> bool {
    match (selected_host, sni_name) {
        (Some(h), Some(s)) => ascii_eq_ignore_case(s@, h@),
        _ => true,
    }
}

/// The host check.
pub fn validate_host(selected_host: Option<&str>, sni_name: Option<&str>) -> (r: bool)
    ensures
        r == spec_validate_host(selected_host, sni_name),
        selected_host is None ==> r,
        sni_name is None ==> r,
{
    match (selected_host, sni_name) {
        (Some(h), Some(s)) => eq_host_name(s, h),
        _ => true,
    }
}

// ---------------------------------------------------------------------------
// Scheme default ports
// ---------------------------------------------------------------------------

/// The default port of a scheme: 80 for `http`, 443 for `https` (compared
/// exactly), nothing for anything else.
pub open spec fn spec_scheme_default_port(scheme: Option<&str>) -> Option<u16> {
    match scheme {
        Some(s) => if s@ == "http"@ {
            Some(80u16)
        } else if s@ == "https"@ {
            Some(443u16)
        } else {
            None
        },
        None => None,
    }
}

/// Looks up the default port of a scheme string.
pub fn scheme_default_port(scheme: &str) -> (r: Option<u16>)
    ensures
        r == spec_scheme_default_port(Some(scheme)),
{
    if str_eq(scheme, "http") {
        Some(80)
    } else if str_eq(scheme, "https") {
        Some(443)
    } else {
        None
    }
}

// ---------------------------------------------------------------------------
// The two declared sources
// ---------------------------------------------------------------------------

/// What the `Host` header contributes: its parse, or nothing when the header
/// is poisoned by a malformed port.
pub fn extract_header_host_port<'a>(hhs: &'a str) -> (r: Option<(&'a str, Option<u16>)>)
    ensures
        match r {
            Some(hp) => spec_parse_host_header(hhs@) == Some((hp.0@, hp.1)),
            None => spec_parse_host_header(hhs@) is None,
        },
{
    match parse_host_header(hhs) {
        Ok(hp) => Some(hp),
        Err(_) => None,
    }
}

/// What the request line contributes: the authority of an absolute-form,
/// non-tunnel request-target. A `CONNECT` target names a peer, not this
/// server, so it contributes nothing; so does an unparseable line or target,
/// or a target without an authority.
pub open spec fn spec_line_authority(s: Seq<char>) -> Option<(Seq<char>, Option<u16>)> {
    match spec_split_request_line(s) {
        Some(toks) => if uri_parses(toks.1) && !ascii_eq_ignore_case(toks.0, "CONNECT"@) {
            uri_authority_of(toks.1)
        } else {
            None
        },
        None => None,
    }
}

/// The request-line source, following [`spec_line_authority`].
pub fn extract_line_host_port<'a>(rls: &'a str) -> (r: Option<(&'a str, Option<u16>)>)
    ensures
        match r {
            Some(hp) => spec_line_authority(rls@) == Some((hp.0@, hp.1)),
            None => spec_line_authority(rls@) is None,
        },
{
    if let Ok((method, auth, _version)) = parse_request_line(rls) {
        if !str_eq_ignore_ascii_case(method, "CONNECT") {
            if let Some(hp) = auth {
                return Some((hp.host, hp.port));
            }
        }
    }
    None
}

// ---------------------------------------------------------------------------
// The analyzer
// ---------------------------------------------------------------------------

/// The outcome of analyzing one request: whether each consistency check
/// passed. Computed exactly once per request, read-only afterwards.
#[derive(Debug, Clone, Copy, PartialEq, Eq, Structural)]
pub struct Analysis {
    pub port_succ_flag: bool,
    pub host_succ_flag: bool,
}

/// The port flag of an analysis: every declared source that contributed a
/// host/port pair must individually pass the port check; a source that
/// contributed nothing is vacuously satisfied.
pub open spec fn spec_port_ok(
    host_header: Option<&str>,
    request_line: Option<&str>,
    conn_port: Option<u16>,
    scheme: Option<&str>,
) -> bool {
    let sp = spec_scheme_default_port(scheme);
    let header_ok = match host_header {
        Some(s) => match spec_parse_host_header(s@) {
            Some(hp) => spec_validate_port(conn_port, hp.1, sp),
            None => true,
        },
        None => true,
    };
    let line_ok = match request_line {
        Some(s) => match spec_line_authority(s@) {
            Some(hp) => spec_validate_port(conn_port, hp.1, sp),
            None => true,
        },
        None => true,
    };
    header_ok && line_ok
}

/// The per-request values the host environment resolves for the analyzer:
/// the selected virtual host, the scheme and the TLS server name, each absent
/// when the environment could not resolve it for this request.
#[derive(Debug, Clone, Copy)]
pub struct Analyzer<'a> {
    pub host: Option<&'a str>,
    pub scheme: Option<&'a str>,
    pub sni: Option<&'a str>,
}

impl<'a> Analyzer<'a> {
    /// Runs both parsers and both checks once, whether or not any check is
    /// currently enabled, and tolerates every individual parse failure.
    pub fn analyze(&self, host_header: Option<&str>, request_line: Option<&str>, conn_port: Option<
        u16,
    >) -> (a: Analysis)
        ensures
            a.port_succ_flag == spec_port_ok(host_header, request_line, conn_port, self.scheme),
            a.host_succ_flag == spec_validate_host(self.host, self.sni),
    {
        let scheme_port = match self.scheme {
            Some(s) => scheme_default_port(s),
            None => None,
        };
        let mut port_succ_flag = true;
        if let Some(hhs) = host_header {
            if let Some(hp) = extract_header_host_port(hhs) {
                port_succ_flag = port_succ_flag && validate_port(conn_port, hp.1, scheme_port);
            }
        }
        if let Some(rls) = request_line {
            if let Some(hp) = extract_line_host_port(rls) {
                port_succ_flag = port_succ_flag && validate_port(conn_port, hp.1, scheme_port);
            }
        }
        let host_succ_flag = validate_host(self.host, self.sni);
        Analysis { port_succ_flag, host_succ_flag }
    }
}

/// Analyzing the same immutable request twice yields identical analyses: the
/// record is a function of the resolved request values alone.
pub proof fn lemma_analyze_idempotent(
    az: Analyzer,
    host_header: Option<&str>,
    request_line: Option<&str>,
    conn_port: Option<u16>,
    a1: Analysis,
    a2: Analysis,
)
    requires
        a1.port_succ_flag == spec_port_ok(host_header, request_line, conn_port, az.scheme),
        a1.host_succ_flag == spec_validate_host(az.host, az.sni),
        a2.port_succ_flag == spec_port_ok(host_header, request_line, conn_port, az.scheme),
        a2.host_succ_flag == spec_validate_host(az.host, az.sni),
    ensures
        a1 == a2,
{
}

// ---------------------------------------------------------------------------
// The validator
// ---------------------------------------------------------------------------

/// A client-facing rejection of the request.
#[derive(Debug, Clone, Copy, PartialEq, Eq, Structural)]
pub enum HttpRejection {
    MisdirectedRequest,
}

impl HttpRejection {
    /// The HTTP status this rejection answers with.
    pub fn status_code(&self) -> (c: u16)
        ensures
            c == 421,
    {
        421
    }
}

/// The checks a resolved configuration actually enables: the port check, and
/// the host check with its rigor. Ephemeral, derived per evaluation.
#[derive(Debug, Clone, Copy)]
pub struct Validator {
    pub port_mode: Option<()>,
    pub host_mode: Option<HostCheckRigor>,
}

/// Whether an analysis passes under a validator: each enabled check must
/// have succeeded. The host rigor is carried but does not change the
/// outcome.
pub open spec fn spec_validate(v: Validator, a: Analysis) -> bool {
    &&& (v.port_mode is Some ==> a.port_succ_flag)
    &&& (v.host_mode is Some ==> a.host_succ_flag)
}

impl Validator {
    /// Reads off which checks a resolved configuration enables.
    pub fn from_config(conf: &ValidationConfig) -> (v: Validator)
        ensures
            v.port_mode == (match conf.port_mode {
                CheckSwitch::On(m) => Some(m),
                _ => None,
            }),
            v.host_mode == (match conf.host_mode {
                CheckSwitch::On(r) => Some(r),
                _ => None,
            }),
    {
        let port_mode = match conf.port_mode {
            CheckSwitch::On(m) => Some(m),
            _ => None,
        };
        let host_mode = match conf.host_mode {
            CheckSwitch::On(r) => Some(r),
            _ => None,
        };
        Validator { port_mode, host_mode }
    }

    /// Evaluates the cached analysis: both enabled checks are always
    /// consulted, and failure is answered with 421 Misdirected Request.
    pub fn validate(&self, analysis: &Analysis) -> (r: Result<(), HttpRejection>)
        ensures
            r is Ok <==> spec_validate(*self, *analysis),
            r is Err ==> r == Result::<(), HttpRejection>::Err(HttpRejection::MisdirectedRequest),
    {
        let mut succ_flag = true;
        if self.port_mode.is_some() {
            succ_flag = succ_flag && analysis.port_succ_flag;
        }
        if self.host_mode.is_some() {
            succ_flag = succ_flag && analysis.host_succ_flag;
        }
        if !succ_flag {
            return Err(HttpRejection::MisdirectedRequest);
        }
        Ok(())
    }
}

// ---------------------------------------------------------------------------
// The per-phase handler decisions
// ---------------------------------------------------------------------------

/// The phases of the host environment's request pipeline at which a handler
/// can be registered. This checker's own handlers run at `PostRead` (analyze
/// once, validate the top-level override configuration) and at `PreAccess`
/// (validate the per-location configuration against the cached analysis).
#[derive(Debug, Clone, Copy, PartialEq, Eq, Structural)]
pub enum Phase {
    PostRead,
    ServerRewrite,
    FindConfig,
    Rewrite,
    PostRewrite,
    PreAccess,
    Access,
    PostAccess,
    PreContent,
    Content,
    Log,
}

/// What a handler asks the host environment to do with the request.
#[derive(Debug, Clone, Copy, PartialEq, Eq, Structural)]
pub enum Decision {
    /// Fall through to the next processing stage.
    Declined,
    /// Answer the client with the rejection's status.
    Rejected(HttpRejection),
    /// A server-side failure, distinct from a failed consistency check.
    InternalError,
}

/// The decision of the early, post-read handler: it validates the fresh
/// analysis against the top-level override configuration. A missing
/// configuration is a hard server-side error.
pub fn post_read_decision(main_conf: Option<&ValidationConfig>, analysis: &Analysis) -> (d:
    Decision)
    ensures
        match main_conf {
            Some(conf) => d == (if spec_validate(
                Validator {
                    port_mode: (match conf.port_mode {
                        CheckSwitch::On(m) => Some(m),
                        _ => None,
                    }),
                    host_mode: (match conf.host_mode {
                        CheckSwitch::On(r) => Some(r),
                        _ => None,
                    }),
                },
                *analysis,
            ) {
                Decision::Declined
            } else {
                Decision::Rejected(HttpRejection::MisdirectedRequest)
            }),
            None => d is InternalError,
        },
{
    if let Some(conf) = main_conf {
        let val = Validator::from_config(conf);
        match val.validate(analysis) {
            Ok(()) => Decision::Declined,
            Err(rejection) => Decision::Rejected(rejection),
        }
    } else {
        Decision::InternalError
    }
}

/// The decision of the pre-access handler: it validates the analysis cached
/// at post-read time against the per-location configuration. An internally
/// redirected request does not inherit the cached analysis, and that is
/// fine; any other missing piece is a hard server-side error.
pub fn preaccess_decision(
    loc_conf: Option<&ValidationConfig>,
    analysis: Option<&Analysis>,
    is_internal: bool,
) -> (d: Decision)
    ensures
        match (loc_conf, analysis) {
            (Some(conf), Some(an)) => d == (if spec_validate(
                Validator {
                    port_mode: (match conf.port_mode {
                        CheckSwitch::On(m) => Some(m),
                        _ => None,
                    }),
                    host_mode: (match conf.host_mode {
                        CheckSwitch::On(r) => Some(r),
                        _ => None,
                    }),
                },
                *an,
            ) {
                Decision::Declined
            } else {
                Decision::Rejected(HttpRejection::MisdirectedRequest)
            }),
            (Some(conf), None) => d == (if is_internal {
                Decision::Declined
            } else {
                Decision::InternalError
            }),
            (None, _) => d is InternalError,
        },
{
    if let Some(conf) = loc_conf {
        if let Some(an) = analysis {
            let val = Validator::from_config(conf);
            match val.validate(an) {
                Ok(()) => Decision::Declined,
                Err(rejection) => Decision::Rejected(rejection),
            }
        } else if is_internal {
            Decision::Declined
        } else {
            Decision::InternalError
        }
    } else {
        Decision::InternalError
    }
}

} // verus!
