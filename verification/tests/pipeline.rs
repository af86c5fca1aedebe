//! End-to-end behaviour: analyzer scenarios, the validator, the handler
//! decisions, the configuration directives and the inheritance merge.

use strict_sni::logic::{
    post_read_decision, preaccess_decision, Analysis, Analyzer, Decision, HttpRejection, Validator,
};
use strict_sni::{CheckSwitch, HostCheckRigor, ValidationConfig};

fn analyzer<'a>(host: Option<&'a str>, scheme: Option<&'a str>, sni: Option<&'a str>) -> Analyzer<'a> {
    Analyzer { host, scheme, sni }
}

#[test]
fn analyzer_is_idempotent() {
    let az = analyzer(Some("example.com"), Some("https"), Some("example.com"));
    let a1 = az.analyze(Some("example.com:443"), Some("GET / HTTP/1.1"), Some(443));
    let a2 = az.analyze(Some("example.com:443"), Some("GET / HTTP/1.1"), Some(443));
    assert_eq!(a1, a2);
}

#[test]
fn scenario_https_default_port() {
    // Connection port 443, scheme https, `Host: example.com` without an
    // explicit port: the scheme default stands in and the check passes.
    let az = analyzer(Some("example.com"), Some("https"), None);
    let a = az.analyze(Some("example.com"), Some("GET / HTTP/1.1"), Some(443));
    assert!(a.port_succ_flag);
    assert!(a.host_succ_flag);
}

#[test]
fn scenario_mismatched_header_port_is_rejected() {
    // `Host: example.com:8443` on a connection bound to 443 fails the port
    // check, and with the port check enabled the request draws a 421.
    let az = analyzer(Some("example.com"), Some("https"), None);
    let a = az.analyze(Some("example.com:8443"), Some("GET / HTTP/1.1"), Some(443));
    assert!(!a.port_succ_flag);

    let conf = ValidationConfig {
        rfc_mode: CheckSwitch::Unset,
        port_mode: CheckSwitch::On(()),
        host_mode: CheckSwitch::Unset,
    };
    let v = Validator::from_config(&conf);
    let r = v.validate(&a);
    assert_eq!(r, Err(HttpRejection::MisdirectedRequest));
    assert_eq!(r.unwrap_err().status_code(), 421);
}

#[test]
fn scenario_sni_mismatch_depends_on_host_mode() {
    // SNI a.example.com but selected host b.example.com: rejected when the
    // host check is on, accepted regardless when it is off.
    let az = analyzer(Some("b.example.com"), Some("https"), Some("a.example.com"));
    let a = az.analyze(Some("b.example.com"), Some("GET / HTTP/1.1"), None);
    assert!(!a.host_succ_flag);

    let on = ValidationConfig {
        rfc_mode: CheckSwitch::Unset,
        port_mode: CheckSwitch::Off,
        host_mode: CheckSwitch::On(HostCheckRigor::Normal),
    };
    assert_eq!(
        Validator::from_config(&on).validate(&a),
        Err(HttpRejection::MisdirectedRequest)
    );

    let off = ValidationConfig {
        rfc_mode: CheckSwitch::Unset,
        port_mode: CheckSwitch::Off,
        host_mode: CheckSwitch::Off,
    };
    assert_eq!(Validator::from_config(&off).validate(&a), Ok(()));
}

#[test]
fn scenario_plaintext_with_no_declared_ports() {
    // Unknown connection port, no port in the header, origin-form request
    // line: both sources contribute nothing and the port flag holds
    // vacuously.
    let az = analyzer(Some("example.com"), None, None);
    let a = az.analyze(Some("example.com"), Some("GET /path HTTP/1.1"), None);
    assert!(a.port_succ_flag);
    assert!(a.host_succ_flag);
}

#[test]
fn scenario_poisoned_header_leaves_only_the_line_source() {
    // A malformed header port discards the whole header source; the request
    // line alone then constrains the decision.
    let az = analyzer(Some("example.com"), None, None);
    let a = az.analyze(
        Some("badport:notanumber"),
        Some("GET http://example.com:8443/ HTTP/1.1"),
        Some(8443),
    );
    assert!(a.port_succ_flag);

    let b = az.analyze(
        Some("badport:notanumber"),
        Some("GET http://example.com:8443/ HTTP/1.1"),
        Some(443),
    );
    assert!(!b.port_succ_flag);
}

#[test]
fn connect_target_claims_nothing() {
    let az = analyzer(Some("example.com"), None, None);
    let a = az.analyze(None, Some("CONNECT example.com:9999 HTTP/1.1"), Some(443));
    assert!(a.port_succ_flag);
    let b = az.analyze(None, Some("connect http://example.com:9999/ HTTP/1.1"), Some(443));
    assert!(b.port_succ_flag);
}

#[test]
fn absent_inputs_pass_vacuously() {
    let az = analyzer(None, None, None);
    let a = az.analyze(None, None, None);
    assert!(a.port_succ_flag);
    assert!(a.host_succ_flag);
}

#[test]
fn validator_consults_only_enabled_checks() {
    let a = Analysis { port_succ_flag: false, host_succ_flag: false };
    let none = Validator { port_mode: None, host_mode: None };
    assert_eq!(none.validate(&a), Ok(()));
    let both = Validator { port_mode: Some(()), host_mode: Some(HostCheckRigor::Normal) };
    assert_eq!(both.validate(&a), Err(HttpRejection::MisdirectedRequest));
    let strict = Validator { port_mode: None, host_mode: Some(HostCheckRigor::Strict) };
    let host_only_good = Analysis { port_succ_flag: false, host_succ_flag: true };
    assert_eq!(strict.validate(&host_only_good), Ok(()));
}

#[test]
fn post_read_decisions() {
    let a = Analysis { port_succ_flag: false, host_succ_flag: true };
    assert_eq!(post_read_decision(None, &a), Decision::InternalError);
    let off = ValidationConfig {
        rfc_mode: CheckSwitch::Unset,
        port_mode: CheckSwitch::Unset,
        host_mode: CheckSwitch::Unset,
    };
    assert_eq!(post_read_decision(Some(&off), &a), Decision::Declined);
    let on = ValidationConfig {
        rfc_mode: CheckSwitch::Unset,
        port_mode: CheckSwitch::On(()),
        host_mode: CheckSwitch::Unset,
    };
    assert_eq!(
        post_read_decision(Some(&on), &a),
        Decision::Rejected(HttpRejection::MisdirectedRequest)
    );
}

#[test]
fn preaccess_decisions() {
    let a = Analysis { port_succ_flag: true, host_succ_flag: true };
    let conf = ValidationConfig {
        rfc_mode: CheckSwitch::Unset,
        port_mode: CheckSwitch::On(()),
        host_mode: CheckSwitch::On(HostCheckRigor::Normal),
    };
    assert_eq!(preaccess_decision(None, Some(&a), false), Decision::InternalError);
    assert_eq!(preaccess_decision(Some(&conf), Some(&a), false), Decision::Declined);
    // An internal redirect does not inherit the cached analysis, and that is
    // accepted; a missing analysis on an ordinary request is a server error.
    assert_eq!(preaccess_decision(Some(&conf), None, true), Decision::Declined);
    assert_eq!(preaccess_decision(Some(&conf), None, false), Decision::InternalError);
}

fn unset() -> ValidationConfig {
    ValidationConfig {
        rfc_mode: CheckSwitch::Unset,
        port_mode: CheckSwitch::Unset,
        host_mode: CheckSwitch::Unset,
    }
}

#[test]
fn directive_values() {
    let mut c = unset();
    c.apply_directive("on");
    assert!(matches!(c.port_mode, CheckSwitch::On(())));
    assert!(matches!(c.host_mode, CheckSwitch::On(HostCheckRigor::Normal)));

    let mut c = unset();
    c.apply_directive("off");
    assert!(matches!(c.port_mode, CheckSwitch::Off));
    assert!(matches!(c.host_mode, CheckSwitch::Off));

    let mut c = unset();
    c.apply_directive("strict");
    assert!(matches!(c.port_mode, CheckSwitch::On(())));
    assert!(matches!(c.host_mode, CheckSwitch::On(HostCheckRigor::Strict)));

    let mut c = unset();
    c.apply_directive("port");
    assert!(matches!(c.port_mode, CheckSwitch::On(())));
    assert!(matches!(c.host_mode, CheckSwitch::Unset));

    let mut c = unset();
    c.apply_directive("no_port");
    assert!(matches!(c.port_mode, CheckSwitch::Off));
    assert!(matches!(c.host_mode, CheckSwitch::Unset));

    let mut c = unset();
    c.apply_directive("host");
    assert!(matches!(c.port_mode, CheckSwitch::Unset));
    assert!(matches!(c.host_mode, CheckSwitch::On(HostCheckRigor::Normal)));

    let mut c = unset();
    c.apply_directive("strict_host");
    assert!(matches!(c.host_mode, CheckSwitch::On(HostCheckRigor::Strict)));

    let mut c = unset();
    c.apply_directive("no_host");
    assert!(matches!(c.host_mode, CheckSwitch::Off));
}

#[test]
fn directive_values_are_case_insensitive() {
    let mut c = unset();
    c.apply_directive("ON");
    assert!(matches!(c.port_mode, CheckSwitch::On(())));
    let mut c = unset();
    c.apply_directive("Strict_Host");
    assert!(matches!(c.host_mode, CheckSwitch::On(HostCheckRigor::Strict)));
}

#[test]
fn unknown_directive_value_changes_nothing() {
    let mut c = unset();
    c.apply_directive("bogus");
    assert!(matches!(c.rfc_mode, CheckSwitch::Unset));
    assert!(matches!(c.port_mode, CheckSwitch::Unset));
    assert!(matches!(c.host_mode, CheckSwitch::Unset));
}

#[test]
fn merge_fills_only_unset_switches() {
    let parent = ValidationConfig {
        rfc_mode: CheckSwitch::Unset,
        port_mode: CheckSwitch::On(()),
        host_mode: CheckSwitch::On(HostCheckRigor::Strict),
    };
    let mut child = ValidationConfig {
        rfc_mode: CheckSwitch::Unset,
        port_mode: CheckSwitch::Off,
        host_mode: CheckSwitch::Unset,
    };
    child.merge(&parent);
    assert!(matches!(child.rfc_mode, CheckSwitch::Unset));
    assert!(matches!(child.port_mode, CheckSwitch::Off));
    assert!(matches!(child.host_mode, CheckSwitch::On(HostCheckRigor::Strict)));
}

#[test]
fn default_configuration_is_fully_unset() {
    let c = ValidationConfig::default();
    assert!(matches!(c.rfc_mode, CheckSwitch::Unset));
    assert!(matches!(c.port_mode, CheckSwitch::Unset));
    assert!(matches!(c.host_mode, CheckSwitch::Unset));
    let s: CheckSwitch<()> = CheckSwitch::default();
    assert!(matches!(s, CheckSwitch::Unset));
}
