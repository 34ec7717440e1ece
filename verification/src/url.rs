//! URLs: the parts the client reads from a parsed URL, the rule on which
//! request targets are safe, and the origins and portal addresses derived
//! from URLs.
use vstd::prelude::*;
use crate::error::SrunError;
use crate::ip::{ip_of, parse_ip_chars, IpAddress};
use crate::text::{
    append_chars, append_str, chars_of, decimal, decimal_chars, lower, lowercase_chars,
    lemma_trim_unpadded, parse_u32_chars, string_from, trim, trim_chars, trim_str, u32_of, views,
};

verus! {

/// The parts of a parsed absolute URL that the client reads.
pub struct UrlParts {
    /// The URL's serialization.
    pub serialization: String,
    /// The scheme, without `:`.
    pub scheme: String,
    /// The host, if the URL has one.
    pub host: Option<String>,
    /// The explicit port, unless it is the scheme's default.
    pub port: Option<u16>,
    /// The decoded query pairs, in order.
    pub query: Vec<(String, String)>,
}

/// The mathematical content of `UrlParts`.
pub struct UrlView {
    pub serialization: Seq<char>,
    pub scheme: Seq<char>,
    pub host: Option<Seq<char>>,
    pub port: Option<u16>,
    pub query: Seq<(Seq<char>, Seq<char>)>,
}

/// The view of an optional string.
pub open spec fn opt_view(s: Option<String>) -> Option<Seq<char>> {
    match s {
        Some(t) => Some(t@),
        None => None,
    }
}

impl View for UrlParts {
    type V = UrlView;

    open spec fn view(&self) -> UrlView {
        UrlView {
            serialization: self.serialization@,
            scheme: self.scheme@,
            host: opt_view(self.host),
            port: self.port,
            query: self.query@.map_values(|p: (String, String)| (p.0@, p.1@)),
        }
    }
}

/// What `Url::parse` gives for a text: the URL's parts, or the text of the
/// parse error.
pub uninterp spec fn url_parse(input: Seq<char>) -> Result<UrlView, Seq<char>>;

/// What `Url::join` gives for a reference resolved against the parsed URL
/// whose serialization is `base`: the joined URL's serialization.
pub uninterp spec fn url_join(base: Seq<char>, reference: Seq<char>) -> Option<Seq<char>>;

/// A reference resolved against the URL a text parses to: nothing when the
/// text is not a URL, else what `Url::join` gives.
pub open spec fn resolve_reference(base: Seq<char>, reference: Seq<char>) -> Option<Seq<char>> {
    match url_parse(base) {
        Ok(b) => url_join(b.serialization, reference),
        Err(_) => None,
    }
}

/// An http or https origin text that `Url::parse` reads back as itself,
/// with no query.
pub open spec fn parses_back(o: Seq<char>) -> bool {
    match url_parse(o) {
        Ok(v) => (v.scheme == "http"@ || v.scheme == "https"@) ==> origin_of(v) == Some(o)
            && v.query.len() == 0,
        Err(_) => true,
    }
}

/// Parses an absolute URL with `Url::parse` and reads its parts.
///
/// Besides the parts, two facts of the parser are claimed of a URL with a
/// host. Its origin text `scheme://host[:port]` has no surrounding white
/// space (a scheme starts with a letter, and the parser removes or refuses
/// white space in hosts). And for http and https the origin parses back to
/// itself with no query: the parser's own invariant check (`Url::parse` of
/// a URL's serialization gives the same scheme, host and port) covers the
/// authority, and a special URL with an empty path gets the path `/`.
#[verifier::external_body]
pub(crate) fn parse_url(input: &str) -> (res: Result<UrlParts, String>)
    ensures
        url_parse(input@) == (match res {
            Ok(u) => Ok(u@),
            Err(e) => Err(e@),
        }),
        res matches Ok(u) ==> (origin_of(u@) matches Some(o) ==> trim(o) == o),
        res matches Ok(u) ==> (origin_of(u@) matches Some(o) ==> parses_back(o)),
{
    match reqwest::Url::parse(input) {
        Ok(u) => Ok(UrlParts {
            serialization: u.as_str().to_string(),
            scheme: u.scheme().to_string(),
            host: u.host_str().map(|h| h.to_string()),
            port: u.port(),
            query: u.query_pairs().map(|(k, v)| (k.into_owned(), v.into_owned())).collect(),
        }),
        Err(e) => Err(e.to_string()),
    }
}

/// Resolves `reference` against the URL `base`: `Url::parse`, then
/// `Url::join` on the parsed URL; a base that is not a URL resolves nothing.
#[verifier::external_body]
pub(crate) fn join_url(base: &str, reference: &str) -> (res: Option<String>)
    ensures
        match url_parse(base@) {
            Ok(b) => url_join(b.serialization, reference@) == opt_view(res),
            Err(_) => res is None,
        },
{
    reqwest::Url::parse(base).ok().and_then(|u| u.join(reference).ok()).map(|u| u.to_string())
}

/// What a request URL is for: the portal itself, or a connectivity probe.
#[derive(Clone, Copy, Debug, PartialEq, Eq, Structural)]
pub enum UrlPurpose {
    Portal,
    Probe,
}

/// A bracket of an IPv6 host.
pub open spec fn is_bracket(c: char) -> bool {
    c == '[' || c == ']'
}

/// Index of the first non-bracket character at or after `i` (or the length).
pub open spec fn first_unbracketed(s: Seq<char>, i: int) -> int
    decreases s.len() - i,
{
    if i >= s.len() || i < 0 {
        s.len() as int
    } else if is_bracket(s[i]) {
        first_unbracketed(s, i + 1)
    } else {
        i
    }
}

/// One past the last non-bracket character before `j` (or zero).
pub open spec fn end_unbracketed(s: Seq<char>, j: int) -> int
    decreases j,
{
    if j <= 0 || j > s.len() {
        0
    } else if is_bracket(s[j - 1]) {
        end_unbracketed(s, j - 1)
    } else {
        j
    }
}

/// `s` without leading and trailing `[` and `]` (`trim_matches(['[', ']'])`).
pub open spec fn strip_brackets(s: Seq<char>) -> Seq<char> {
    let a = first_unbracketed(s, 0);
    let b = end_unbracketed(s, s.len() as int);
    if a < b {
        s.subrange(a, b)
    } else {
        Seq::empty()
    }
}

/// An IPv4 address the client never sends requests to: loopback, 0/8 and
/// link-local; for the portal also the proxy range 198.18/15.
pub open spec fn is_blocked_ipv4_spec(a: u8, b: u8, purpose: UrlPurpose) -> bool {
    a == 127 || a == 0 || (a == 169 && b == 254) || (purpose == UrlPurpose::Portal && a == 198 && (
    b == 18 || b == 19))
}

/// A host the client never sends requests to: the local names, and blocked
/// IPv4 or loopback/unspecified IPv6 addresses.
pub open spec fn is_blocked_host_spec(host: Seq<char>, purpose: UrlPurpose) -> bool {
    let h = lower(strip_brackets(host));
    if h == "localhost"@ || h == "0.0.0.0"@ || h == "::"@ || h == "::1"@ {
        true
    } else {
        match ip_of(h) {
            Some(IpAddress::V4(a, b, _, _)) => is_blocked_ipv4_spec(a, b, purpose),
            Some(IpAddress::V6(s0, s1, s2, s3, s4, s5, s6, s7)) => s0 == 0 && s1 == 0 && s2 == 0
                && s3 == 0 && s4 == 0 && s5 == 0 && s6 == 0 && (s7 == 0 || s7 == 1),
            None => false,
        }
    }
}

/// The outcome of checking a request URL against the safety rule, other
/// than a parse failure.
pub open spec fn check_parsed(u: UrlView, purpose: UrlPurpose) -> Result<(), SrunError> {
    if u.scheme != "http"@ && u.scheme != "https"@ {
        Err(SrunError::UnsupportedScheme)
    } else {
        match u.host {
            None => Err(SrunError::MissingHost),
            Some(h) => if is_blocked_host_spec(h, purpose) {
                Err(SrunError::UnsafeHost)
            } else {
                Ok(())
            },
        }
    }
}

/// `res` is the outcome of checking the request URL `input`: the trimmed
/// text must parse, use http or https, and name a host that is not blocked.
pub open spec fn validate_outcome(
    res: Result<(), SrunError>,
    input: Seq<char>,
    purpose: UrlPurpose,
) -> bool {
    match url_parse(trim(input)) {
        Err(cause) => res matches Err(SrunError::InvalidUrl(c)) && c@ == cause,
        Ok(u) => res == check_parsed(u, purpose),
    }
}

/// `v` without leading and trailing brackets.
fn strip_brackets_chars(v: &[char]) -> (res: Vec<char>)
    ensures
        res@ == strip_brackets(v@),
{
    let n = v.len();
    let mut a: usize = 0;
    while a < n && (v[a] == '[' || v[a] == ']')
        invariant
            a <= n,
            n == v@.len(),
            first_unbracketed(v@, a as int) == first_unbracketed(v@, 0),
        decreases n - a,
    {
        a = a + 1;
    }
    let mut b: usize = n;
    while b > 0 && (v[b - 1] == '[' || v[b - 1] == ']')
        invariant
            b <= n,
            n == v@.len(),
            end_unbracketed(v@, b as int) == end_unbracketed(v@, n as int),
        decreases b,
    {
        b = b - 1;
    }
    let mut res: Vec<char> = Vec::new();
    if a < b {
        let mut i = a;
        while i < b
            invariant
                a <= i <= b,
                b <= n,
                n == v@.len(),
                res@ == v@.subrange(a as int, i as int),
            decreases b - i,
        {
            res.push(v[i]);
            i = i + 1;
            assert(res@ =~= v@.subrange(a as int, i as int));
        }
    }
    res
}

/// Whether two character sequences are equal.
pub fn chars_eq(a: &[char], b: &[char]) -> (res: bool)
    ensures
        res == (a@ == b@),
{
    if a.len() != b.len() {
        return false;
    }
    let mut i: usize = 0;
    while i < a.len()
        invariant
            a@.len() == b@.len(),
            i <= a@.len(),
            forall|j: int| 0 <= j < i ==> a@[j] == b@[j],
        decreases a@.len() - i,
    {
        if a[i] != b[i] {
            return false;
        }
        i = i + 1;
    }
    assert(a@ =~= b@);
    true
}

/// Whether the characters `a` spell the string literal `b`.
pub fn chars_eq_str(a: &[char], b: &str) -> (res: bool)
    ensures
        res == (a@ == b@),
{
    let bv = chars_of(b);
    chars_eq(a, bv.as_slice())
}

/// Whether an IPv4 address is never a request target for `purpose`.
pub fn is_blocked_ipv4(a: u8, b: u8, purpose: UrlPurpose) -> (res: bool)
    ensures
        res == is_blocked_ipv4_spec(a, b, purpose),
{
    if a == 127 || a == 0 || a == 169 && b == 254 {
        return true;
    }
    match purpose {
        UrlPurpose::Portal => a == 198 && (b == 18 || b == 19),
        UrlPurpose::Probe => false,
    }
}

/// Whether `host` is never a request target for `purpose`.
pub fn is_blocked_host(host: &str, purpose: UrlPurpose) -> (res: bool)
    ensures
        res == is_blocked_host_spec(host@, purpose),
{
    let v = chars_of(host);
    let stripped = strip_brackets_chars(v.as_slice());
    let h = lowercase_chars(stripped.as_slice());
    if chars_eq_str(h.as_slice(), "localhost") || chars_eq_str(h.as_slice(), "0.0.0.0")
        || chars_eq_str(h.as_slice(), "::") || chars_eq_str(h.as_slice(), "::1") {
        return true;
    }
    match parse_ip_chars(h.as_slice()) {
        Some(IpAddress::V4(a, b, _, _)) => is_blocked_ipv4(a, b, purpose),
        Some(IpAddress::V6(s0, s1, s2, s3, s4, s5, s6, s7)) => s0 == 0 && s1 == 0 && s2 == 0
            && s3 == 0 && s4 == 0 && s5 == 0 && s6 == 0 && (s7 == 0 || s7 == 1),
        None => false,
    }
}

/// Checks a request URL: it must parse, use http or https, and name a host
/// that is not blocked for `purpose`.
pub fn validate_request_url(input: &str, purpose: UrlPurpose) -> (res: Result<(), SrunError>)
    ensures
        validate_outcome(res, input@, purpose),
{
    let trimmed = trim_str(input);
    let t = string_from(trimmed.as_slice());
    let parsed = match parse_url(t.as_str()) {
        Ok(u) => u,
        Err(cause) => return Err(SrunError::InvalidUrl(cause)),
    };
    let scheme = chars_of(parsed.scheme.as_str());
    if !chars_eq_str(scheme.as_slice(), "http") && !chars_eq_str(scheme.as_slice(), "https") {
        return Err(SrunError::UnsupportedScheme);
    }
    match &parsed.host {
        None => Err(SrunError::MissingHost),
        Some(h) => if is_blocked_host(h.as_str(), purpose) {
            Err(SrunError::UnsafeHost)
        } else {
            Ok(())
        },
    }
}

/// `:port` for an explicit port, nothing otherwise.
pub open spec fn port_suffix(port: Option<u16>) -> Seq<char> {
    match port {
        Some(p) => seq![':'] + decimal(p as nat),
        None => Seq::empty(),
    }
}

/// The origin `scheme://host[:port]` of a URL with a host.
pub open spec fn origin_of(u: UrlView) -> Option<Seq<char>> {
    match u.host {
        Some(h) => Some(u.scheme + "://"@ + h + port_suffix(u.port)),
        None => None,
    }
}

/// The origin of a parsed URL, if it has a host.
pub fn origin_from_url(u: &UrlParts) -> (res: Option<String>)
    ensures
        opt_view(res) == origin_of(u@),
{
    match &u.host {
        None => None,
        Some(h) => {
            let mut v = chars_of(u.scheme.as_str());
            append_str(&mut v, "://");
            append_str(&mut v, h.as_str());
            if let Some(p) = u.port {
                v.push(':');
                let d = decimal_chars(p as u128);
                append_chars(&mut v, d.as_slice());
            }
            proof {
                assert(v@ =~= u@.scheme + "://"@ + h@ + port_suffix(u.port));
            }
            Some(string_from(v.as_slice()))
        },
    }
}

/// The origin of a configured URL: none when it is blank or does not parse.
pub open spec fn configured_origin_spec(value: Seq<char>) -> Option<Seq<char>> {
    let t = trim(value);
    if t.len() == 0 {
        None
    } else {
        match url_parse(t) {
            Ok(u) => origin_of(u),
            Err(_) => None,
        }
    }
}

/// The origin of the configured URL `value`, if it names one.
pub fn configured_origin(value: &str) -> (res: Option<String>)
    ensures
        opt_view(res) == configured_origin_spec(value@),
{
    let t = trim_str(value);
    if t.len() == 0 {
        return None;
    }
    let ts = string_from(t.as_slice());
    match parse_url(ts.as_str()) {
        Ok(u) => origin_from_url(&u),
        Err(_) => None,
    }
}

/// The value of the first query pair whose key is `key`.
pub open spec fn first_query_value(q: Seq<(Seq<char>, Seq<char>)>, key: Seq<char>) -> Option<
    Seq<char>,
>
    decreases q.len(),
{
    if q.len() == 0 {
        None
    } else if q[0].0 == key {
        Some(q[0].1)
    } else {
        first_query_value(q.drop_first(), key)
    }
}

/// The value of the first query pair whose key is `key`.
fn find_query_value(q: &Vec<(String, String)>, key: &str) -> (res: Option<String>)
    ensures
        opt_view(res) == first_query_value(q@.map_values(|p: (String, String)| (p.0@, p.1@)), key@),
{
    let ghost qv = q@.map_values(|p: (String, String)| (p.0@, p.1@));
    let kv = chars_of(key);
    assert(qv.skip(0) =~= qv);
    let mut i: usize = 0;
    while i < q.len()
        invariant
            i <= q@.len(),
            qv == q@.map_values(|p: (String, String)| (p.0@, p.1@)),
            kv@ == key@,
            first_query_value(qv.skip(i as int), key@) == first_query_value(qv, key@),
        decreases q@.len() - i,
    {
        let k = chars_of(q[i].0.as_str());
        assert(qv.skip(i as int)[0] == qv[i as int]);
        assert(qv.skip(i as int).drop_first() =~= qv.skip(i + 1));
        if chars_eq(k.as_slice(), kv.as_slice()) {
            return Some(q[i].1.clone());
        }
        i = i + 1;
    }
    None
}

/// A portal address with the `ac_id` and `wlanuserip` its URL carries.
pub type PortalTarget = (String, Option<u32>, Option<IpAddress>);

/// `res` is the outcome of reading a portal URL: its origin (which must pass
/// the portal rule), the first `ac_id` query value read as a number and the
/// first `wlanuserip` query value read as an address.
pub open spec fn normalize_outcome(res: Result<PortalTarget, SrunError>, input: Seq<char>) -> bool {
    let raw = trim(input);
    if raw.len() == 0 {
        res == Err::<PortalTarget, SrunError>(SrunError::PortalUrlRequired)
    } else {
        match url_parse(raw) {
            Err(cause) => res matches Err(SrunError::InvalidPortalUrl(c)) && c@ == cause,
            Ok(u) => match origin_of(u) {
                None => res == Err::<PortalTarget, SrunError>(SrunError::PortalUrlMissingHost),
                Some(base) => {
                    let ac_id = match first_query_value(u.query, "ac_id"@) {
                        Some(t) => u32_of(t),
                        None => None,
                    };
                    let user_ip = match first_query_value(u.query, "wlanuserip"@) {
                        Some(t) => ip_of(t),
                        None => None,
                    };
                    match res {
                        Ok((b, a, ip)) => b@ == base && a == ac_id && ip == user_ip
                            && validate_outcome(Ok(()), base, UrlPurpose::Portal),
                        Err(e) => validate_outcome(Err(e), base, UrlPurpose::Portal),
                    }
                },
            },
        }
    }
}

/// Reads a portal URL (which may be a full success-page URL) into its
/// origin, `ac_id` and user address.
pub fn normalize_portal_url(input: &str) -> (res: Result<PortalTarget, SrunError>)
    ensures
        normalize_outcome(res, input@),
        res matches Ok((b, _, _)) ==> forall|again: Result<PortalTarget, SrunError>|
            #[trigger] normalize_outcome(again, b@) ==> (again matches Ok((b2, a2, ip2)) && b2@
                == b@ && a2 is None && ip2 is None),
{
    let raw = trim_str(input);
    if raw.len() == 0 {
        return Err(SrunError::PortalUrlRequired);
    }
    let raw_s = string_from(raw.as_slice());
    let parsed = match parse_url(raw_s.as_str()) {
        Ok(u) => u,
        Err(cause) => return Err(SrunError::InvalidPortalUrl(cause)),
    };
    let ac_id = match find_query_value(&parsed.query, "ac_id") {
        Some(t) => {
            let tv = chars_of(t.as_str());
            parse_u32_chars(tv.as_slice())
        },
        None => None,
    };
    let user_ip = match find_query_value(&parsed.query, "wlanuserip") {
        Some(t) => {
            let tv = chars_of(t.as_str());
            parse_ip_chars(tv.as_slice())
        },
        None => None,
    };
    let base = match origin_from_url(&parsed) {
        Some(b) => b,
        None => return Err(SrunError::PortalUrlMissingHost),
    };
    match validate_request_url(base.as_str(), UrlPurpose::Portal) {
        Ok(()) => {
            proof {
                lemma_origin_normalizes_to_itself(base@);
            }
            Ok((base, ac_id, user_ip))
        },
        Err(e) => Err(e),
    }
}

/// A portal origin that passes the portal rule and parses back to itself
/// with no query normalizes to itself, with no `ac_id` and no address.
proof fn lemma_origin_normalizes_to_itself(b: Seq<char>)
    requires
        trim(b) == b,
        validate_outcome(Ok(()), b, UrlPurpose::Portal),
        parses_back(b),
    ensures
        forall|again: Result<PortalTarget, SrunError>|
            #[trigger] normalize_outcome(again, b) ==> (again matches Ok((b2, a2, ip2)) && b2@ == b
                && a2 is None && ip2 is None),
{
    reveal_strlit("http");
    reveal_strlit("https");
}

/// A blank portal URL reads as nothing; any other is read as a portal URL.
pub open spec fn optional_portal_outcome(res: Result<PortalTarget, SrunError>, input: Seq<char>) -> bool {
    if trim(input).len() == 0 {
        res matches Ok((b, a, ip)) && b@.len() == 0 && a is None && ip is None
    } else {
        normalize_outcome(res, input)
    }
}

/// Reads an optional portal URL: blank gives an empty address.
pub fn parse_optional_portal_url(input: &str) -> (res: Result<PortalTarget, SrunError>)
    ensures
        optional_portal_outcome(res, input@),
{
    let raw = trim_str(input);
    if raw.len() == 0 {
        return Ok((String::new(), None, None));
    }
    normalize_portal_url(input)
}

/// The list after adding `target` trimmed, unless it is blank or already listed.
pub open spec fn push_unique(targets: Seq<Seq<char>>, target: Seq<char>) -> Seq<Seq<char>> {
    let t = trim(target);
    if t.len() == 0 || targets.contains(t) {
        targets
    } else {
        targets.push(t)
    }
}

/// Adding a target keeps a list free of duplicates and of blank entries,
/// and adding the same target again changes nothing.
pub proof fn lemma_push_unique(targets: Seq<Seq<char>>, target: Seq<char>)
    requires
        targets.no_duplicates(),
    ensures
        push_unique(targets, target).no_duplicates(),
        push_unique(push_unique(targets, target), target) == push_unique(targets, target),
        forall|i: int|
            0 <= i < targets.len() ==> push_unique(targets, target)[i] == #[trigger] targets[i],
        push_unique(targets, target).contains(trim(target)) || trim(target).len() == 0,
{
    let t = trim(target);
    if !(t.len() == 0 || targets.contains(t)) {
        let r = targets.push(t);
        assert(r[r.len() - 1] == t);
        assert(r.contains(t));
        assert forall|i: int, j: int| 0 <= i < j < r.len() implies r[i] != r[j] by {
            if j == r.len() - 1 && r[i] == r[j] {
                assert(targets[i] == t);
                assert(targets.contains(t));
            }
        }
    }
}

/// Adds `target` (trimmed) to `targets` unless it is blank or already there.
pub fn push_unique_target(targets: &mut Vec<String>, target: &str)
    ensures
        views(final(targets)@) == push_unique(views(old(targets)@), target@),
{
    let t = trim_str(target);
    if t.len() == 0 {
        return;
    }
    let ghost tv = views(targets@);
    let mut i: usize = 0;
    while i < targets.len()
        invariant
            i <= targets@.len(),
            tv == views(targets@),
            targets@ == old(targets)@,
            t@ == trim(target@),
            t@.len() > 0,
            forall|j: int| 0 <= j < i ==> tv[j] != t@,
        decreases targets@.len() - i,
    {
        let existing = chars_of(targets[i].as_str());
        if chars_eq(existing.as_slice(), t.as_slice()) {
            assert(tv[i as int] == t@);
            assert(tv.contains(t@));
            return;
        }
        i = i + 1;
    }
    assert(!tv.contains(t@));
    let ts = string_from(t.as_slice());
    targets.push(ts);
    assert(views(targets@) =~= tv.push(t@));
}

/// The origin `http://a.b.c.d`.
pub open spec fn http_origin(a: u8, b: u8, c: u8, d: u8) -> Seq<char> {
    "http://"@ + crate::ip::ipv4_text(a, b, c, d)
}

/// The portal origins guessed from a client address `a.b.c.d`: the
/// gateways `a.b.c.1`, `a.b.0.1`, `a.129.1.1`, `a.129.0.1` and `a.0.0.1`,
/// each once, in that order.
pub open spec fn candidate_origins_spec(a: u8, b: u8, c: u8) -> Seq<Seq<char>> {
    push_unique(
        push_unique(
            push_unique(
                push_unique(push_unique(Seq::empty(), http_origin(a, b, c, 1)), http_origin(a, b, 0, 1)),
                http_origin(a, 129, 1, 1),
            ),
            http_origin(a, 129, 0, 1),
        ),
        http_origin(a, 0, 0, 1),
    )
}

/// The text `http://a.b.c.1` of a gateway guess.
pub open spec fn gateway_guess(a: u8, b: u8, c: u8) -> Seq<char> {
    "http://"@ + decimal(a as nat) + seq!['.'] + decimal(b as nat) + seq!['.'] + decimal(c as nat)
        + seq!['.', '1']
}

/// A decimal text ends in a digit.
proof fn lemma_decimal_ends_in_digit(n: nat)
    ensures
        decimal(n).len() > 0,
        '0' <= decimal(n)[decimal(n).len() - 1] <= '9',
    decreases n,
{
    if n >= 10 {
        lemma_decimal_ends_in_digit(n / 10);
    }
}

/// A gateway guess is its own trim.
proof fn lemma_gateway_guess_unpadded(a: u8, b: u8, c: u8)
    ensures
        trim(gateway_guess(a, b, c)) == gateway_guess(a, b, c),
{
    reveal_strlit("http://");
    let g = gateway_guess(a, b, c);
    assert(g[0] == 'h');
    assert(g[g.len() - 1] == '1');
    lemma_trim_unpadded(g);
}

/// Adding a target keeps what was there and adds at most that target.
proof fn lemma_push_unique_members(targets: Seq<Seq<char>>, target: Seq<char>, x: Seq<char>)
    requires
        trim(target) == target,
        target.len() > 0,
    ensures
        push_unique(targets, target).contains(x) <==> (targets.contains(x) || x == target),
{
    if !targets.contains(target) {
        let r = targets.push(target);
        if r.contains(x) {
            let i = choose|i: int| 0 <= i < r.len() && r[i] == x;
            if i < targets.len() {
                assert(targets[i] == x);
            }
        }
        if targets.contains(x) {
            let i = choose|i: int| 0 <= i < targets.len() && targets[i] == x;
            assert(r[i] == x);
        }
        assert(r[targets.len() as int] == target);
    }
}

/// The place of a guess in the order `a.b.c.1`, `a.b.0.1`, `a.129.1.1`,
/// `a.129.0.1`, `a.0.0.1` (its first place when two coincide).
pub open spec fn guess_rank(x: Seq<char>, a: u8, b: u8, c: u8) -> int {
    if x == gateway_guess(a, b, c) {
        0
    } else if x == gateway_guess(a, b, 0) {
        1
    } else if x == gateway_guess(a, 129, 1) {
        2
    } else if x == gateway_guess(a, 129, 0) {
        3
    } else {
        4
    }
}

/// The entries of a list come in strictly increasing guess order.
pub open spec fn in_guess_order(s: Seq<Seq<char>>, a: u8, b: u8, c: u8) -> bool {
    forall|i: int, j: int|
        0 <= i < j < s.len() ==> #[trigger] guess_rank(s[i], a, b, c) < #[trigger] guess_rank(
            s[j],
            a,
            b,
            c,
        )
}

/// Adding the next guess keeps the list in guess order.
proof fn lemma_push_in_order(s: Seq<Seq<char>>, g: Seq<char>, k: int, a: u8, b: u8, c: u8)
    requires
        trim(g) == g,
        g.len() > 0,
        in_guess_order(s, a, b, c),
        forall|i: int| 0 <= i < s.len() ==> guess_rank(#[trigger] s[i], a, b, c) < k,
        guess_rank(g, a, b, c) <= k,
        guess_rank(g, a, b, c) < k ==> s.contains(g),
    ensures
        in_guess_order(push_unique(s, g), a, b, c),
        forall|i: int|
            0 <= i < push_unique(s, g).len() ==> guess_rank(#[trigger] push_unique(s, g)[i], a, b, c)
                < k + 1,
{
    if !s.contains(g) {
        let r = s.push(g);
        assert(guess_rank(g, a, b, c) == k);
        assert forall|i: int, j: int| 0 <= i < j < r.len() implies #[trigger] guess_rank(
            r[i],
            a,
            b,
            c,
        ) < #[trigger] guess_rank(r[j], a, b, c) by {
            if j == s.len() {
                assert(r[i] == s[i]);
            } else {
                assert(r[i] == s[i] && r[j] == s[j]);
            }
        }
        assert forall|i: int| 0 <= i < r.len() implies guess_rank(#[trigger] r[i], a, b, c) < k
            + 1 by {
            if i < s.len() {
                assert(r[i] == s[i]);
            }
        }
    }
}

/// The portal guesses for a client at `a.b.c.d` are exactly the gateways
/// `a.b.c.1`, `a.b.0.1`, `a.129.1.1`, `a.129.0.1` and `a.0.0.1`, each once,
/// starting with the client's own subnet gateway.
pub proof fn lemma_candidate_origins(a: u8, b: u8, c: u8)
    ensures
        candidate_origins_spec(a, b, c).no_duplicates(),
        candidate_origins_spec(a, b, c)[0] == gateway_guess(a, b, c),
        forall|x: Seq<char>|
            #[trigger] candidate_origins_spec(a, b, c).contains(x) <==> (x == gateway_guess(a, b, c)
                || x == gateway_guess(a, b, 0) || x == gateway_guess(a, 129, 1) || x
                == gateway_guess(a, 129, 0) || x == gateway_guess(a, 0, 0)),
        in_guess_order(candidate_origins_spec(a, b, c), a, b, c),
{
    reveal_strlit("http://");
    let g1 = gateway_guess(a, b, c);
    let g2 = gateway_guess(a, b, 0);
    let g3 = gateway_guess(a, 129, 1);
    let g4 = gateway_guess(a, 129, 0);
    let g5 = gateway_guess(a, 0, 0);
    assert(decimal(1) =~= seq!['1']);
    assert(decimal(0) =~= seq!['0']);
    assert(http_origin(a, b, c, 1) =~= g1);
    assert(http_origin(a, b, 0, 1) =~= g2);
    assert(http_origin(a, 129, 1, 1) =~= g3);
    assert(http_origin(a, 129, 0, 1) =~= g4);
    assert(http_origin(a, 0, 0, 1) =~= g5);
    lemma_gateway_guess_unpadded(a, b, c);
    lemma_gateway_guess_unpadded(a, b, 0);
    lemma_gateway_guess_unpadded(a, 129, 1);
    lemma_gateway_guess_unpadded(a, 129, 0);
    lemma_gateway_guess_unpadded(a, 0, 0);
    let s0 = Seq::<Seq<char>>::empty();
    let s1 = push_unique(s0, g1);
    let s2 = push_unique(s1, g2);
    let s3 = push_unique(s2, g3);
    let s4 = push_unique(s3, g4);
    let s5 = push_unique(s4, g5);
    assert(s1 =~= seq![g1]);
    lemma_push_unique(s1, g2);
    lemma_push_unique(s2, g3);
    lemma_push_unique(s3, g4);
    lemma_push_unique(s4, g5);
    assert(s1[0] == g1);
    assert(in_guess_order(s1, a, b, c));
    assert(s1.contains(g1));
    lemma_push_in_order(s1, g2, 1, a, b, c);
    assert(s2.contains(g1) && s2.contains(g2));
    lemma_push_in_order(s2, g3, 2, a, b, c);
    assert(s3.contains(g1) && s3.contains(g2) && s3.contains(g3));
    lemma_push_in_order(s3, g4, 3, a, b, c);
    assert(s4.contains(g1) && s4.contains(g2) && s4.contains(g3) && s4.contains(g4));
    lemma_push_in_order(s4, g5, 4, a, b, c);
    assert forall|x: Seq<char>| #[trigger] s5.contains(x) <==> (x == g1 || x == g2 || x == g3
        || x == g4 || x == g5) by {
        lemma_push_unique_members(s0, g1, x);
        lemma_push_unique_members(s1, g2, x);
        lemma_push_unique_members(s2, g3, x);
        lemma_push_unique_members(s3, g4, x);
        lemma_push_unique_members(s4, g5, x);
    }
    assert(s5 == candidate_origins_spec(a, b, c));
}

/// `http://a.b.c.d` as a string.
fn http_origin_string(a: u8, b: u8, c: u8, d: u8) -> (res: String)
    ensures
        res@ == http_origin(a, b, c, d),
{
    let mut v = chars_of("http://");
    let ip = crate::ip::ipv4_chars(a, b, c, d);
    append_chars(&mut v, ip.as_slice());
    string_from(v.as_slice())
}

/// The candidate portal origins for the client address `a.b.c.d`.
pub fn candidate_origins_from_ip(a: u8, b: u8, c: u8, d: u8) -> (res: Vec<String>)
    ensures
        views(res@) == candidate_origins_spec(a, b, c),
{
    let mut origins: Vec<String> = Vec::new();
    assert(views(origins@) =~= Seq::<Seq<char>>::empty());
    let o = http_origin_string(a, b, c, 1);
    push_unique_target(&mut origins, o.as_str());
    let o = http_origin_string(a, b, 0, 1);
    push_unique_target(&mut origins, o.as_str());
    let o = http_origin_string(a, 129, 1, 1);
    push_unique_target(&mut origins, o.as_str());
    let o = http_origin_string(a, 129, 0, 1);
    push_unique_target(&mut origins, o.as_str());
    let o = http_origin_string(a, 0, 0, 1);
    push_unique_target(&mut origins, o.as_str());
    origins
}

} // verus!
