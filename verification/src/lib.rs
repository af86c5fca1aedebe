//! Authority-consistency checking for an HTTP(S) request pipeline.
//!
//! For each request, the library decides whether the destination the client
//! actually connected to (the bound local port and, for TLS, the SNI name)
//! is consistent with the destination the request itself claims (the `Host`
//! header and, for absolute-form targets, the request-line authority).
//!
//! The crate is split into:
//! - [`util`]: the two narrow grammars (the `Host` header value and the
//!   request line) together with a decimal port parser;
//! - [`logic`]: the port and host equivalence checks, the per-request
//!   [`logic::Analyzer`] and the configuration-driven [`logic::Validator`];
//! - this root module: the tri-state per-scope configuration and its
//!   bottom-up inheritance merge.

use vstd::prelude::*;

pub mod logic;
pub mod util;

verus! {

/// One tri-state configuration switch: not configured in this scope,
/// explicitly disabled, or enabled with a payload `M`.
#[derive(Debug, Clone, Copy)]
pub enum CheckSwitch<M> {
    Unset,
    Off,
    On(M),
}

/// How rigorously the host check is meant to be applied. `Strict` is parsed
/// and stored but the comparison algorithm does not yet distinguish it from
/// `Normal`; it is carried as a forward-compatible placeholder.
#[derive(Debug, Clone, Copy)]
pub enum HostCheckRigor {
    Normal,
    Strict,
}

/// The per-scope configuration record: two independent switches (plus one
/// reserved switch) that decide which consistency checks are enforced.
#[derive(Debug, Clone, Copy)]
pub struct ValidationConfig {
    pub rfc_mode: CheckSwitch<()>,
    pub port_mode: CheckSwitch<()>,
    pub host_mode: CheckSwitch<HostCheckRigor>,
}

impl<M> Default for CheckSwitch<M> {
    /// A switch starts out not configured.
    fn default() -> (r: Self)
        ensures
            r is Unset,
    {
        CheckSwitch::Unset
    }
}

impl Default for ValidationConfig {
    /// A freshly created scope has every switch unset.
    fn default() -> (r: Self)
        ensures
            r == (ValidationConfig {
                rfc_mode: CheckSwitch::Unset,
                port_mode: CheckSwitch::Unset,
                host_mode: CheckSwitch::Unset,
            }),
    {
        ValidationConfig {
            rfc_mode: CheckSwitch::Unset,
            port_mode: CheckSwitch::Unset,
            host_mode: CheckSwitch::Unset,
        }
    }
}

/// What one switch becomes when a scope is merged onto its parent: a value
/// set in the scope itself wins, an unset one inherits the parent's value.
pub open spec fn spec_merge_switch<M>(own: CheckSwitch<M>, parent: CheckSwitch<M>) -> CheckSwitch<M> {
    if own is Unset {
        parent
    } else {
        own
    }
}

/// What one case-insensitive directive value does to a configuration record:
/// `on`, `off` and `strict` set both switches; `port` and `no_port` only the
/// port switch; `host`, `strict_host` and `no_host` only the host switch; an
/// unrecognized value changes nothing.
pub open spec fn spec_apply_directive(c: ValidationConfig, arg: Seq<char>) -> ValidationConfig {
    if crate::util::ascii_eq_ignore_case(arg, "on"@) {
        ValidationConfig {
            rfc_mode: c.rfc_mode,
            port_mode: CheckSwitch::On(()),
            host_mode: CheckSwitch::On(HostCheckRigor::Normal),
        }
    } else if crate::util::ascii_eq_ignore_case(arg, "off"@) {
        ValidationConfig { rfc_mode: c.rfc_mode, port_mode: CheckSwitch::Off, host_mode: CheckSwitch::Off }
    } else if crate::util::ascii_eq_ignore_case(arg, "strict"@) {
        ValidationConfig {
            rfc_mode: c.rfc_mode,
            port_mode: CheckSwitch::On(()),
            host_mode: CheckSwitch::On(HostCheckRigor::Strict),
        }
    } else if crate::util::ascii_eq_ignore_case(arg, "port"@) {
        ValidationConfig { rfc_mode: c.rfc_mode, port_mode: CheckSwitch::On(()), host_mode: c.host_mode }
    } else if crate::util::ascii_eq_ignore_case(arg, "no_port"@) {
        ValidationConfig { rfc_mode: c.rfc_mode, port_mode: CheckSwitch::Off, host_mode: c.host_mode }
    } else if crate::util::ascii_eq_ignore_case(arg, "host"@) {
        ValidationConfig {
            rfc_mode: c.rfc_mode,
            port_mode: c.port_mode,
            host_mode: CheckSwitch::On(HostCheckRigor::Normal),
        }
    } else if crate::util::ascii_eq_ignore_case(arg, "strict_host"@) {
        ValidationConfig {
            rfc_mode: c.rfc_mode,
            port_mode: c.port_mode,
            host_mode: CheckSwitch::On(HostCheckRigor::Strict),
        }
    } else if crate::util::ascii_eq_ignore_case(arg, "no_host"@) {
        ValidationConfig { rfc_mode: c.rfc_mode, port_mode: c.port_mode, host_mode: CheckSwitch::Off }
    } else {
        c
    }
}

impl ValidationConfig {
    /// Bottom-up inheritance step of the configuration resolver: every switch
    /// this scope leaves unset is filled from the nearest configured ancestor.
    pub fn merge(&mut self, prev: &ValidationConfig)
        ensures
            final(self).rfc_mode == spec_merge_switch(old(self).rfc_mode, prev.rfc_mode),
            final(self).port_mode == spec_merge_switch(old(self).port_mode, prev.port_mode),
            final(self).host_mode == spec_merge_switch(old(self).host_mode, prev.host_mode),
    {
        if let CheckSwitch::Unset = self.rfc_mode {
            self.rfc_mode = prev.rfc_mode;
        }
        if let CheckSwitch::Unset = self.port_mode {
            self.port_mode = prev.port_mode;
        }
        if let CheckSwitch::Unset = self.host_mode {
            self.host_mode = prev.host_mode;
        }
    }

    /// Applies one configuration-directive value, compared case-insensitively,
    /// following [`spec_apply_directive`] exactly.
    pub fn apply_directive(&mut self, arg: &str)
        ensures
            *final(self) == spec_apply_directive(*old(self), arg@),
    {
        if crate::util::str_eq_ignore_ascii_case(arg, "on") {
            self.port_mode = CheckSwitch::On(());
            self.host_mode = CheckSwitch::On(HostCheckRigor::Normal);
        } else if crate::util::str_eq_ignore_ascii_case(arg, "off") {
            self.port_mode = CheckSwitch::Off;
            self.host_mode = CheckSwitch::Off;
        } else if crate::util::str_eq_ignore_ascii_case(arg, "strict") {
            self.port_mode = CheckSwitch::On(());
            self.host_mode = CheckSwitch::On(HostCheckRigor::Strict);
        } else if crate::util::str_eq_ignore_ascii_case(arg, "port") {
            self.port_mode = CheckSwitch::On(());
        } else if crate::util::str_eq_ignore_ascii_case(arg, "no_port") {
            self.port_mode = CheckSwitch::Off;
        } else if crate::util::str_eq_ignore_ascii_case(arg, "host") {
            self.host_mode = CheckSwitch::On(HostCheckRigor::Normal);
        } else if crate::util::str_eq_ignore_ascii_case(arg, "strict_host") {
            self.host_mode = CheckSwitch::On(HostCheckRigor::Strict);
        } else if crate::util::str_eq_ignore_ascii_case(arg, "no_host") {
            self.host_mode = CheckSwitch::Off;
        }
    }
}

} // verus!
