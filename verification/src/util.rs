//! The two narrow grammars this crate understands — the `Host` header value
//! and the HTTP request line — together with the small lexical helpers they
//! share (a decimal port parser and ASCII case-insensitive comparison).

use vstd::prelude::*;

verus! {

// ---------------------------------------------------------------------------
// Characters and decimal numbers
// ---------------------------------------------------------------------------

/// Is `c` an ASCII decimal digit?
pub open spec fn dec_digit(c: char) -> bool {
    48 <= c as u32 <= 57
}

/// The numeric value of an ASCII decimal digit.
pub open spec fn dec_digit_val(c: char) -> int {
    c as u32 - 48
}

/// All characters of `s` are ASCII decimal digits.
pub open spec fn all_dec_digits(s: Seq<char>) -> bool {
    forall|i: int| 0 <= i < s.len() ==> dec_digit(#[trigger] s[i])
}

/// The value of a string of decimal digits, most significant first.
pub open spec fn dec_value(s: Seq<char>) -> int
    decreases s.len(),
{
    if s.len() == 0 {
        0
    } else {
        dec_value(s.drop_last()) * 10 + dec_digit_val(s.last())
    }
}

proof fn lemma_dec_value_nonneg(s: Seq<char>)
    requires
        all_dec_digits(s),
    ensures
        dec_value(s) >= 0,
    decreases s.len(),
{
    if s.len() > 0 {
        assert(forall|i: int| 0 <= i < s.drop_last().len() ==> dec_digit(#[trigger] s.drop_last()[i]));
        lemma_dec_value_nonneg(s.drop_last());
        assert(dec_digit(s.last()));
    }
}

/// A digit string is worth at least as much as any of its prefixes.
proof fn lemma_dec_value_prefix_le(s: Seq<char>, i: int)
    requires
        all_dec_digits(s),
        0 <= i <= s.len(),
    ensures
        dec_value(s.subrange(0, i)) <= dec_value(s),
    decreases s.len() - i,
{
    if i == s.len() {
        assert(s.subrange(0, i) =~= s);
    } else {
        lemma_dec_value_prefix_le(s, i + 1);
        let longer = s.subrange(0, i + 1);
        assert(longer.drop_last() =~= s.subrange(0, i));
        assert(longer.last() == s[i]);
        assert(forall|k: int| 0 <= k < s.subrange(0, i).len() ==> dec_digit(
            #[trigger] s.subrange(0, i)[k],
        ));
        lemma_dec_value_nonneg(s.subrange(0, i));
        assert(dec_digit(s[i]));
    }
}

/// What `parse_u16` accepts: an optional leading `+`, then one or more
/// decimal digits whose value fits in sixteen bits.
pub open spec fn spec_parse_u16(s: Seq<char>) -> Option<u16> {
    let digits = if s.len() > 0 && s[0] == '+' {
        s.subrange(1, s.len() as int)
    } else {
        s
    };
    if digits.len() > 0 && all_dec_digits(digits) && dec_value(digits) <= 65535 {
        Some(dec_value(digits) as u16)
    } else {
        None
    }
}

/// Parses an unsigned sixteen-bit decimal number, the way a port number in a
/// `Host` header is read: an optional `+` sign, then decimal digits.
pub fn parse_u16(s: &str) -> (r: Option<u16>)
    ensures
        r == spec_parse_u16(s@),
{
    let len: usize = s.unicode_len();
    let start: usize = if len > 0 && s.get_char(0) == '+' {
        1
    } else {
        0
    };
    let ghost digits: Seq<char> = if s@.len() > 0 && s@[0] == '+' {
        s@.subrange(1, s@.len() as int)
    } else {
        s@
    };
    if start >= len {
        return None;
    }
    let mut val: u32 = 0;
    let mut i: usize = start;
    while i < len
        invariant
            len == s@.len(),
            start <= i <= len,
            start == 0 || start == 1,
            start == 1 ==> s@.len() > 0 && s@[0] == '+',
            start == 0 ==> !(s@.len() > 0 && s@[0] == '+'),
            digits == (if s@.len() > 0 && s@[0] == '+' {
                s@.subrange(1, s@.len() as int)
            } else {
                s@
            }),
            digits.len() == len - start,
            forall|k: int| 0 <= k < digits.len() ==> digits[k] == s@[k + start],
            forall|k: int| 0 <= k < i - start ==> dec_digit(#[trigger] digits[k]),
            val == dec_value(digits.subrange(0, i - start)),
            val <= 65535,
        decreases len - i,
    {
        let c = s.get_char(i);
        let cv: u32 = c as u32;
        let ghost j: int = i - start;
        if cv < 48 || cv > 57 {
            assert(!dec_digit(digits[j]));
            return None;
        }
        proof {
            let longer = digits.subrange(0, j + 1);
            assert(longer.drop_last() =~= digits.subrange(0, j));
            assert(longer.last() == digits[j]);
        }
        val = val * 10 + (cv - 48);
        if val > 65535 {
            proof {
                if all_dec_digits(digits) {
                    lemma_dec_value_prefix_le(digits, j + 1);
                }
            }
            return None;
        }
        i += 1;
    }
    proof {
        assert(digits.subrange(0, len - start) =~= digits);
    }
    Some(val as u16)
}

// ---------------------------------------------------------------------------
// String comparison
// ---------------------------------------------------------------------------

/// `c` with an ASCII capital letter folded to the corresponding small one;
/// every other character is left alone.
pub open spec fn ascii_lower(c: char) -> char {
    if 65 <= c as u32 <= 90 {
        ((c as u8 + 32) as u8) as char
    } else {
        c
    }
}

/// Equality of two character sequences up to ASCII case.
pub open spec fn ascii_eq_ignore_case(a: Seq<char>, b: Seq<char>) -> bool {
    a.len() == b.len() && forall|i: int| 0 <= i < a.len() ==> ascii_lower(#[trigger] a[i])
        == ascii_lower(#[trigger] b[i])
}

fn ascii_to_lower(c: char) -> (r: char)
    ensures
        r == ascii_lower(c),
{
    let cv: u32 = c as u32;
    if 65 <= cv && cv <= 90 {
        ((c as u8) + 32) as char
    } else {
        c
    }
}

/// ASCII case-insensitive string equality, as `Host`-header and directive
/// keywords are compared.
pub fn str_eq_ignore_ascii_case(a: &str, b: &str) -> (r: bool)
    ensures
        r == ascii_eq_ignore_case(a@, b@),
{
    let alen: usize = a.unicode_len();
    let blen: usize = b.unicode_len();
    if alen != blen {
        return false;
    }
    let mut i: usize = 0;
    while i < alen
        invariant
            alen == a@.len(),
            blen == b@.len(),
            alen == blen,
            0 <= i <= alen,
            forall|k: int| 0 <= k < i ==> ascii_lower(#[trigger] a@[k]) == ascii_lower(b@[k]),
        decreases alen - i,
    {
        if ascii_to_lower(a.get_char(i)) != ascii_to_lower(b.get_char(i)) {
            return false;
        }
        i += 1;
    }
    true
}

/// Exact string equality.
pub fn str_eq(a: &str, b: &str) -> (r: bool)
    ensures
        r == (a@ == b@),
{
    let alen: usize = a.unicode_len();
    let blen: usize = b.unicode_len();
    if alen != blen {
        return false;
    }
    let mut i: usize = 0;
    while i < alen
        invariant
            alen == a@.len(),
            blen == b@.len(),
            alen == blen,
            0 <= i <= alen,
            forall|k: int| 0 <= k < i ==> a@[k] == b@[k],
        decreases alen - i,
    {
        if a.get_char(i) != b.get_char(i) {
            return false;
        }
        i += 1;
    }
    proof {
        assert(a@ =~= b@);
    }
    true
}

// ---------------------------------------------------------------------------
// The Host header grammar
// ---------------------------------------------------------------------------

/// The position of the last `:` in `s`, if there is one.
pub open spec fn spec_find_last_colon(s: Seq<char>) -> Option<int>
    decreases s.len(),
{
    if s.len() == 0 {
        None
    } else if s.last() == ':' {
        Some(s.len() - 1)
    } else {
        spec_find_last_colon(s.drop_last())
    }
}

proof fn lemma_find_last_colon_at(s: Seq<char>, j: int)
    requires
        0 <= j < s.len(),
        s[j] == ':',
        forall|k: int| j < k < s.len() ==> s[k] != ':',
    ensures
        spec_find_last_colon(s) == Some(j),
    decreases s.len(),
{
    if j < s.len() - 1 {
        assert(s.drop_last()[j] == s[j]);
        assert(forall|k: int| j < k < s.drop_last().len() ==> #[trigger] s.drop_last()[k] != ':');
        lemma_find_last_colon_at(s.drop_last(), j);
    }
}

proof fn lemma_find_last_colon_absent(s: Seq<char>)
    requires
        forall|k: int| 0 <= k < s.len() ==> s[k] != ':',
    ensures
        spec_find_last_colon(s) is None,
    decreases s.len(),
{
    if s.len() > 0 {
        assert(forall|k: int| 0 <= k < s.drop_last().len() ==> #[trigger] s.drop_last()[k] != ':');
        lemma_find_last_colon_absent(s.drop_last());
    }
}

/// How a raw `Host` header value splits into a host and an optional port.
///
/// The value is split at the last `:`. With no `:` the whole value is the
/// host; with an empty trailing part the port is simply absent; otherwise the
/// trailing part must parse as a sixteen-bit port, and if it does not, the
/// whole header is discarded — a malformed port poisons the host too.
pub open spec fn spec_parse_host_header(s: Seq<char>) -> Option<(Seq<char>, Option<u16>)> {
    match spec_find_last_colon(s) {
        None => Some((s, None)),
        Some(i) => {
            let host = s.subrange(0, i);
            let port_str = s.subrange(i + 1, s.len() as int);
            if port_str.len() == 0 {
                Some((host, None))
            } else {
                match spec_parse_u16(port_str) {
                    Some(p) => Some((host, Some(p))),
                    None => None,
                }
            }
        },
    }
}

/// The `Host` header value could not be used at all.
#[derive(Debug, Clone, Copy, PartialEq, Eq, Structural)]
pub struct ParseHostHeaderError;

/// Splits a raw `Host` header value into a host and an optional port,
/// following [`spec_parse_host_header`] exactly: an unparseable port
/// discards the entire header rather than just the port.
pub fn parse_host_header<'a>(host_header: &'a str) -> (r: Result<
    (&'a str, Option<u16>),
    ParseHostHeaderError,
>)
    ensures
        match r {
            Ok(hp) => spec_parse_host_header(host_header@) == Some((hp.0@, hp.1)),
            Err(_) => spec_parse_host_header(host_header@) is None,
        },
{
    let len: usize = host_header.unicode_len();
    let mut i: usize = len;
    while i > 0
        invariant
            len == host_header@.len(),
            0 <= i <= len,
            forall|k: int| i <= k < len ==> host_header@[k] != ':',
        decreases i,
    {
        if host_header.get_char(i - 1) == ':' {
            proof {
                lemma_find_last_colon_at(host_header@, i - 1);
            }
            let host = host_header.substring_char(0, i - 1);
            let port_str = host_header.substring_char(i, len);
            if port_str.unicode_len() == 0 {
                return Ok((host, None));
            }
            return match parse_u16(port_str) {
                Some(p) => Ok((host, Some(p))),
                None => Err(ParseHostHeaderError),
            };
        }
        i -= 1;
    }
    proof {
        lemma_find_last_colon_absent(host_header@);
    }
    Ok((host_header, None))
}

// ---------------------------------------------------------------------------
// The request-line grammar
// ---------------------------------------------------------------------------

/// The first position at or after `i` whose character is not a space, or the
/// end of `s`.
pub open spec fn non_space_from(s: Seq<char>, i: int) -> int
    decreases s.len() - i,
{
    if i < 0 || i >= s.len() {
        s.len() as int
    } else if s[i] != ' ' {
        i
    } else {
        non_space_from(s, i + 1)
    }
}

/// The first position at or after `i` whose character is a space, or the end
/// of `s`.
pub open spec fn space_from(s: Seq<char>, i: int) -> int
    decreases s.len() - i,
{
    if i < 0 || i >= s.len() {
        s.len() as int
    } else if s[i] == ' ' {
        i
    } else {
        space_from(s, i + 1)
    }
}

/// The bounds of the next token (maximal run of non-spaces) at or after `i`,
/// if any is left.
pub open spec fn spec_next_token(s: Seq<char>, i: int) -> Option<(int, int)> {
    let start = non_space_from(s, i);
    if start < s.len() {
        Some((start, space_from(s, start)))
    } else {
        None
    }
}

/// How a raw request line splits into its method, its request-target and, if
/// present, its protocol version: the first three space-separated tokens.
/// Fewer than two tokens is a parse failure.
pub open spec fn spec_split_request_line(s: Seq<char>) -> Option<
    (Seq<char>, Seq<char>, Option<Seq<char>>),
> {
    match spec_next_token(s, 0) {
        None => None,
        Some(m) => match spec_next_token(s, m.1) {
            None => None,
            Some(u) => {
                let ver = match spec_next_token(s, u.1) {
                    None => None,
                    Some(v) => Some(s.subrange(v.0, v.1)),
                };
                Some((s.subrange(m.0, m.1), s.subrange(u.0, u.1), ver))
            },
        },
    }
}

fn skip_spaces(s: &str, from: usize) -> (r: usize)
    requires
        from <= s@.len(),
    ensures
        r == non_space_from(s@, from as int),
        from <= r <= s@.len(),
{
    let len: usize = s.unicode_len();
    let mut i: usize = from;
    while i < len
        invariant
            len == s@.len(),
            from <= i <= len,
            non_space_from(s@, from as int) == non_space_from(s@, i as int),
        decreases len - i,
    {
        if s.get_char(i) != ' ' {
            return i;
        }
        i += 1;
    }
    len
}

fn seek_space(s: &str, from: usize) -> (r: usize)
    requires
        from <= s@.len(),
    ensures
        r == space_from(s@, from as int),
        from <= r <= s@.len(),
{
    let len: usize = s.unicode_len();
    let mut i: usize = from;
    while i < len
        invariant
            len == s@.len(),
            from <= i <= len,
            space_from(s@, from as int) == space_from(s@, i as int),
        decreases len - i,
    {
        if s.get_char(i) == ' ' {
            return i;
        }
        i += 1;
    }
    len
}

// ---------------------------------------------------------------------------
// The request-target's authority component
// ---------------------------------------------------------------------------

/// Whether a request-target matches the RFC 3986 `URI-reference` grammar, as
/// `fluent_uri::UriRef::parse` decides it.
pub uninterp spec fn uri_parses(s: Seq<char>) -> bool;

/// The host of a request-target's authority component together with its port,
/// when the target has an authority; the port is the authority's port when
/// that is present, non-empty and a sixteen-bit number, and absent otherwise.
pub uninterp spec fn uri_authority_of(s: Seq<char>) -> Option<(Seq<char>, Option<u16>)>;

/// The host and the optional port claimed by an authority component.
#[derive(Debug, Clone, Copy, PartialEq, Eq)]
pub struct HostPort<'a> {
    pub host: &'a str,
    pub port: Option<u16>,
}

/// The request line could not be split, or its target is no URI reference.
#[derive(Debug, Clone, Copy, PartialEq, Eq, Structural)]
pub struct ParseRequestLineError;

/// Relies on `fluent_uri::UriRef::parse` for the `URI-reference` grammar of
/// RFC 3986, and on `Authority::host` and `Authority::port_to_u16` for the
/// authority's subcomponents; an absent or unparseable port is absent, which
/// `port_to_u16` reports as `Ok(None)` or `Err`.
#[verifier::external_body]
fn uri_authority_host_port<'a>(target: &'a str) -> (r: Result<
    Option<(&'a str, Option<u16>)>,
    ParseRequestLineError,
>)
    ensures
        match r {
            Ok(auth) => uri_parses(target@) && (match auth {
                Some(hp) => uri_authority_of(target@) == Some((hp.0@, hp.1)),
                None => uri_authority_of(target@) is None,
            }),
            Err(_) => !uri_parses(target@),
        },
{
    match fluent_uri::UriRef::parse(target) {
        Ok(uri) => match uri.authority() {
            Some(auth) => {
                let port = match auth.port_to_u16() {
                    Ok(p) => p,
                    Err(_) => None,
                };
                Ok(Some((auth.host(), port)))
            },
            None => Ok(None),
        },
        Err(_) => Err(ParseRequestLineError),
    }
}

/// Splits a raw request line into its method, the authority component of its
/// request-target (if the target has one) and its optional protocol version.
///
/// Fails when fewer than two tokens are present or when the request-target is
/// not a URI reference.
pub fn parse_request_line<'a>(request_line: &'a str) -> (r: Result<
    (&'a str, Option<HostPort<'a>>, Option<&'a str>),
    ParseRequestLineError,
>)
    ensures
        r is Ok <==> (spec_split_request_line(request_line@) matches Some(toks) && uri_parses(
            toks.1,
        )),
        match r {
            Ok(parts) => {
                &&& spec_split_request_line(request_line@) matches Some(toks)
                &&& parts.0@ == toks.0
                &&& uri_parses(toks.1)
                &&& (match parts.1 {
                    Some(hp) => uri_authority_of(toks.1) == Some((hp.host@, hp.port)),
                    None => uri_authority_of(toks.1) is None,
                })
                &&& (match parts.2 {
                    Some(v) => toks.2 == Some(v@),
                    None => toks.2 is None,
                })
            },
            Err(_) => match spec_split_request_line(request_line@) {
                Some(toks) => !uri_parses(toks.1),
                None => true,
            },
        },
{
    let len: usize = request_line.unicode_len();
    let ms = skip_spaces(request_line, 0);
    if ms >= len {
        return Err(ParseRequestLineError);
    }
    let me = seek_space(request_line, ms);
    let us = skip_spaces(request_line, me);
    if us >= len {
        return Err(ParseRequestLineError);
    }
    let ue = seek_space(request_line, us);
    let method = request_line.substring_char(ms, me);
    let target = request_line.substring_char(us, ue);
    let vs = skip_spaces(request_line, ue);
    let version = if vs < len {
        let ve = seek_space(request_line, vs);
        Some(request_line.substring_char(vs, ve))
    } else {
        None
    };
    match uri_authority_host_port(target) {
        Ok(Some(hp)) => Ok((method, Some(HostPort { host: hp.0, port: hp.1 }), version)),
        Ok(None) => Ok((method, None, version)),
        Err(e) => Err(e),
    }
}

} // verus!
