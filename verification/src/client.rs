//! The SRUN portal protocol: which URLs are probed, how the portal, the
//! `ac_id` and the client address are settled, and the requests sent for
//! the login state, the challenge, login and logout.
use vstd::prelude::*;
use crate::config::AppConfig;
use crate::crypto::{fkbase64, hex_lower, hmac_md5, hmac_md5_hex, sha1, sha1_hex, base64_encode, portal_alphabet};
use crate::error::SrunError;
use crate::ip::{ip_text, ip_to_chars, ip_to_string, IpAddress};
use crate::json::{chars_lt, json_object_text, json_string_object, keys_sorted, pair_views};
use crate::portal::{callback_name, callback_name_spec};
use crate::probe::{probe_view, PortalProbe};
use crate::text::{
    append_chars, append_str, chars_of, decimal, decimal_chars, decimal_string, string_from,
    string_of, trim, trim_str, views,
};
use crate::url::{
    candidate_origins_from_ip, candidate_origins_spec, check_parsed, configured_origin,
    configured_origin_spec, opt_view, origin_from_url, origin_of, parse_url, push_unique,
    push_unique_target, url_parse, validate_outcome, validate_request_url, UrlPurpose,
};
use crate::xencode::{lemma_xencode_len, xencode, xencode_spec, word_count};

verus! {

/// The connectivity probe every installation also tries.
pub open spec fn fallback_probe() -> Seq<char> {
    "http://www.msftconnecttest.com/connecttest.txt"@
}

/// The URLs probed to tell whether the internet is reachable: the
/// configured probe, then the fallback probe, each once.
pub open spec fn online_targets_spec(cfg: AppConfig) -> Seq<Seq<char>> {
    push_unique(push_unique(Seq::empty(), trim(cfg.probe_url@)), fallback_probe())
}

/// The URLs probed to tell whether the internet is reachable.
pub fn online_probe_targets(cfg: &AppConfig) -> (res: Vec<String>)
    ensures
        views(res@) == online_targets_spec(*cfg),
{
    let mut targets: Vec<String> = Vec::new();
    assert(views(targets@) =~= Seq::<Seq<char>>::empty());
    let p = trim_str(cfg.probe_url.as_str());
    let ps = string_from(p.as_slice());
    push_unique_target(&mut targets, ps.as_str());
    push_unique_target(&mut targets, "http://www.msftconnecttest.com/connecttest.txt");
    targets
}

/// The URLs probed to find the portal by redirection: the configured
/// probe, a home gateway, the fallback probe and a plain-HTTP site, each once.
pub open spec fn portal_targets_spec(cfg: AppConfig) -> Seq<Seq<char>> {
    push_unique(
        push_unique(
            push_unique(push_unique(Seq::empty(), trim(cfg.probe_url@)), "http://192.168.0.1/"@),
            fallback_probe(),
        ),
        "http://neverssl.com/"@,
    )
}

/// The URLs probed to find the portal by redirection.
pub fn portal_probe_targets(cfg: &AppConfig) -> (res: Vec<String>)
    ensures
        views(res@) == portal_targets_spec(*cfg),
{
    let mut targets: Vec<String> = Vec::new();
    assert(views(targets@) =~= Seq::<Seq<char>>::empty());
    let p = trim_str(cfg.probe_url.as_str());
    let ps = string_from(p.as_slice());
    push_unique_target(&mut targets, ps.as_str());
    push_unique_target(&mut targets, "http://192.168.0.1/");
    push_unique_target(&mut targets, "http://www.msftconnecttest.com/connecttest.txt");
    push_unique_target(&mut targets, "http://neverssl.com/");
    targets
}

/// The list after adding each of `items` in turn, as `push_unique` does.
pub open spec fn push_all(targets: Seq<Seq<char>>, items: Seq<Seq<char>>) -> Seq<Seq<char>>
    decreases items.len(),
{
    if items.len() == 0 {
        targets
    } else {
        push_unique(push_all(targets, items.drop_last()), items.last())
    }
}

/// Adds each of `items` in turn.
fn push_all_targets(targets: &mut Vec<String>, items: &Vec<String>)
    ensures
        views(final(targets)@) == push_all(views(old(targets)@), views(items@)),
{
    let ghost start = views(targets@);
    let mut i: usize = 0;
    while i < items.len()
        invariant
            i <= items@.len(),
            views(targets@) == push_all(start, views(items@).take(i as int)),
        decreases items@.len() - i,
    {
        assert(views(items@).take(i + 1).drop_last() =~= views(items@).take(i as int));
        push_unique_target(targets, items[i].as_str());
        i = i + 1;
    }
    assert(views(items@).take(items@.len() as int) =~= views(items@));
}

/// `s` without trailing `/` characters (`trim_end_matches('/')`).
pub open spec fn strip_slashes(s: Seq<char>) -> Seq<char>
    decreases s.len(),
{
    if s.len() > 0 && s.last() == '/' {
        strip_slashes(s.drop_last())
    } else {
        s
    }
}

/// `s` without trailing `/` characters.
pub fn strip_slashes_chars(s: &str) -> (res: Vec<char>)
    ensures
        res@ == strip_slashes(s@),
{
    let mut v = chars_of(s);
    while v.len() > 0 && v[v.len() - 1] == '/'
        invariant
            strip_slashes(v@) == strip_slashes(s@),
        decreases v@.len(),
    {
        v.pop();
    }
    v
}

/// The portal endpoints probed under an origin.
pub open spec fn endpoints_of(origin: Seq<char>) -> Seq<Seq<char>> {
    let o = strip_slashes(origin);
    seq![
        o + "/cgi-bin/rad_user_info"@,
        o + "/index_17.html"@,
        o + "/index_17"@,
        o + "/srun_portal_success?ac_id=17&theme=pro"@,
    ]
}

/// The endpoints probed under each origin in turn, each once.
pub open spec fn endpoints_for(origins: Seq<Seq<char>>) -> Seq<Seq<char>>
    decreases origins.len(),
{
    if origins.len() == 0 {
        Seq::empty()
    } else {
        push_all(endpoints_for(origins.drop_last()), endpoints_of(origins.last()))
    }
}

/// The candidate origins of an address, when it is IPv4.
pub open spec fn address_origins(ip: Option<IpAddress>) -> Seq<Seq<char>> {
    match ip {
        Some(IpAddress::V4(a, b, c, _)) => candidate_origins_spec(a, b, c),
        _ => Seq::empty(),
    }
}

/// The origins guessed for the portal: the configured portal's origin, then
/// the gateways around the configured client address, then those around
/// the local address, each once.
pub open spec fn srun_origins(cfg: AppConfig, local_ip: Option<IpAddress>) -> Seq<Seq<char>> {
    let first = match configured_origin_spec(cfg.portal_url@) {
        Some(o) => push_unique(Seq::empty(), o),
        None => Seq::empty(),
    };
    push_all(push_all(first, address_origins(cfg.user_ip)), address_origins(local_ip))
}

/// The portal endpoints probed directly: the login-state, portal-page and
/// success-page endpoints under each guessed origin.
pub open spec fn srun_targets_spec(cfg: AppConfig, local_ip: Option<IpAddress>) -> Seq<Seq<char>> {
    endpoints_for(srun_origins(cfg, local_ip))
}

/// The candidate origins of an address.
fn address_origin_list(ip: Option<IpAddress>) -> (res: Vec<String>)
    ensures
        views(res@) == address_origins(ip),
{
    match ip {
        Some(IpAddress::V4(a, b, c, d)) => candidate_origins_from_ip(a, b, c, d),
        _ => {
            let v: Vec<String> = Vec::new();
            assert(views(v@) =~= Seq::<Seq<char>>::empty());
            v
        },
    }
}

/// An origin followed by a path, as a string.
fn joined(origin: &Vec<char>, path: &str) -> (res: String)
    ensures
        res@ == origin@ + path@,
{
    let mut v = origin.clone();
    assert(v@ == origin@);
    append_str(&mut v, path);
    string_from(v.as_slice())
}

/// The portal endpoints probed directly, given the local address.
pub fn srun_probe_targets(cfg: &AppConfig, local_ip: Option<IpAddress>) -> (res: Vec<String>)
    ensures
        views(res@) == srun_targets_spec(*cfg, local_ip),
{
    let mut origins: Vec<String> = Vec::new();
    assert(views(origins@) =~= Seq::<Seq<char>>::empty());
    if let Some(o) = configured_origin(cfg.portal_url.as_str()) {
        push_unique_target(&mut origins, o.as_str());
    }
    let a = address_origin_list(cfg.user_ip);
    push_all_targets(&mut origins, &a);
    let b = address_origin_list(local_ip);
    push_all_targets(&mut origins, &b);
    let ghost all = views(origins@);
    let mut targets: Vec<String> = Vec::new();
    assert(views(targets@) =~= Seq::<Seq<char>>::empty());
    assert(all.take(0) =~= Seq::<Seq<char>>::empty());
    let mut i: usize = 0;
    while i < origins.len()
        invariant
            i <= origins@.len(),
            all == views(origins@),
            views(targets@) == endpoints_for(all.take(i as int)),
        decreases origins@.len() - i,
    {
        let o = strip_slashes_chars(origins[i].as_str());
        let mut eps: Vec<String> = Vec::new();
        eps.push(joined(&o, "/cgi-bin/rad_user_info"));
        eps.push(joined(&o, "/index_17.html"));
        eps.push(joined(&o, "/index_17"));
        eps.push(joined(&o, "/srun_portal_success?ac_id=17&theme=pro"));
        assert(views(eps@) =~= endpoints_of(all[i as int]));
        assert(all.take(i + 1).drop_last() =~= all.take(i as int));
        push_all_targets(&mut targets, &eps);
        i = i + 1;
    }
    assert(all.take(origins@.len() as int) =~= all);
    targets
}

/// The host of the configured portal.
pub open spec fn portal_host_spec(cfg: AppConfig) -> Option<Seq<char>> {
    match configured_origin_spec(cfg.portal_url@) {
        Some(origin) => match url_parse(origin) {
            Ok(u) => u.host,
            Err(_) => None,
        },
        None => None,
    }
}

/// The host of the configured portal, for the route check.
pub fn portal_host(cfg: &AppConfig) -> (res: Option<String>)
    ensures
        opt_view(res) == portal_host_spec(*cfg),
{
    match configured_origin(cfg.portal_url.as_str()) {
        Some(origin) => match parse_url(origin.as_str()) {
            Ok(u) => u.host,
            Err(_) => None,
        },
        None => None,
    }
}

/// Whether portal, `ac_id` and client address are all configured, so no
/// detection is needed.
pub open spec fn has_login_context_spec(cfg: AppConfig) -> bool {
    trim(cfg.portal_url@).len() > 0 && cfg.ac_id is Some && cfg.user_ip is Some
}

/// Whether portal, `ac_id` and client address are all configured.
pub fn has_login_context(cfg: &AppConfig) -> (res: bool)
    ensures
        res == has_login_context_spec(*cfg),
{
    let p = trim_str(cfg.portal_url.as_str());
    p.len() > 0 && cfg.ac_id.is_some() && cfg.user_ip.is_some()
}

/// `res` is the portal base URL settled from the settings and the
/// detection findings: the configured portal URL (trimmed) if set, which
/// must pass the portal rule; else the origin of the detected portal URL,
/// which must parse, have a host and pass the rule; else a failure.
pub open spec fn portal_url_outcome(
    res: Result<String, SrunError>,
    cfg: AppConfig,
    probe: PortalProbe,
) -> bool {
    let configured = trim(cfg.portal_url@);
    if configured.len() > 0 {
        match res {
            Ok(u) => u@ == configured && validate_outcome(Ok(()), configured, UrlPurpose::Portal),
            Err(e) => validate_outcome(Err(e), configured, UrlPurpose::Portal),
        }
    } else {
        match opt_view(probe.portal_url) {
            None => res == Err::<String, SrunError>(SrunError::PortalUndetected),
            Some(p) => match url_parse(p) {
                Err(cause) => res matches Err(SrunError::InvalidDetectedPortalUrl(c)) && c@ == cause,
                Ok(u) => match origin_of(u) {
                    None => res == Err::<String, SrunError>(SrunError::DetectedPortalMissingHost),
                    Some(base) => match res {
                        Ok(r) => r@ == base && validate_outcome(Ok(()), base, UrlPurpose::Portal),
                        Err(e) => validate_outcome(Err(e), base, UrlPurpose::Portal),
                    },
                },
            },
        }
    }
}

/// The request rule accepts `input`: once trimmed it parses, uses http or
/// https and names a host that is not blocked for `purpose`.
pub open spec fn request_url_ok(input: Seq<char>, purpose: UrlPurpose) -> bool {
    url_parse(trim(input)) matches Ok(u) && check_parsed(u, purpose) is Ok
}

/// The portal base URL the settings and the findings settle on, if any.
pub open spec fn portal_url_for(cfg: AppConfig, probe: PortalProbe) -> Option<Seq<char>> {
    let configured = trim(cfg.portal_url@);
    if configured.len() > 0 {
        if request_url_ok(configured, UrlPurpose::Portal) {
            Some(configured)
        } else {
            None
        }
    } else {
        match opt_view(probe.portal_url) {
            None => None,
            Some(p) => match url_parse(p) {
                Err(_) => None,
                Ok(u) => match origin_of(u) {
                    None => None,
                    Some(base) => if request_url_ok(base, UrlPurpose::Portal) {
                        Some(base)
                    } else {
                        None
                    },
                },
            },
        }
    }
}

/// Settling the portal succeeds exactly when `portal_url_for` gives a URL,
/// and then gives that URL.
pub proof fn lemma_portal_url_for(res: Result<String, SrunError>, cfg: AppConfig, probe: PortalProbe)
    requires
        portal_url_outcome(res, cfg, probe),
    ensures
        res is Ok <==> portal_url_for(cfg, probe) is Some,
        res matches Ok(u) ==> portal_url_for(cfg, probe) == Some(u@),
{
}

/// Settles the portal base URL from the settings and the detection findings.
pub fn resolve_portal_url_with_probe(cfg: &AppConfig, probe: &PortalProbe) -> (res: Result<
    String,
    SrunError,
>)
    ensures
        portal_url_outcome(res, *cfg, *probe),
{
    let configured = trim_str(cfg.portal_url.as_str());
    if configured.len() > 0 {
        let c = string_from(configured.as_slice());
        return match validate_request_url(c.as_str(), UrlPurpose::Portal) {
            Ok(()) => Ok(c),
            Err(e) => Err(e),
        };
    }
    match &probe.portal_url {
        None => Err(SrunError::PortalUndetected),
        Some(p) => {
            let parsed = match parse_url(p.as_str()) {
                Ok(u) => u,
                Err(cause) => return Err(SrunError::InvalidDetectedPortalUrl(cause)),
            };
            let base = match origin_from_url(&parsed) {
                Some(b) => b,
                None => return Err(SrunError::DetectedPortalMissingHost),
            };
            match validate_request_url(base.as_str(), UrlPurpose::Portal) {
                Ok(()) => Ok(base),
                Err(e) => Err(e),
            }
        },
    }
}

/// The client address: the local address if known, else the configured one.
pub fn effective_user_ip(cfg: &AppConfig, local_ip: Option<IpAddress>) -> (res: Result<
    IpAddress,
    SrunError,
>)
    ensures
        res == (match local_ip {
            Some(ip) => Ok(ip),
            None => match cfg.user_ip {
                Some(ip) => Ok(ip),
                None => Err(SrunError::ClientIpRequired),
            },
        }),
{
    match local_ip {
        Some(ip) => Ok(ip),
        None => match cfg.user_ip {
            Some(ip) => Ok(ip),
            None => Err(SrunError::ClientIpRequired),
        },
    }
}

/// `res` is the login context: the portal settled as above, the configured
/// `ac_id` or else the detected one, and the local, detected or configured
/// address, in that order of preference.
pub open spec fn login_context_outcome(
    res: Result<(String, u32, IpAddress), SrunError>,
    cfg: AppConfig,
    probe: PortalProbe,
    local_ip: Option<IpAddress>,
) -> bool {
    let ac = match cfg.ac_id {
        Some(a) => Some(a),
        None => probe.ac_id,
    };
    let ip = match local_ip {
        Some(i) => Some(i),
        None => match probe.user_ip {
            Some(i) => Some(i),
            None => cfg.user_ip,
        },
    };
    match res {
        Ok((p, a, i)) => portal_url_outcome(Ok(p), cfg, probe) && ac == Some(a) && ip == Some(i),
        Err(e) => portal_url_outcome(Err(e), cfg, probe) || (exists|p: String|
            portal_url_outcome(Ok(p), cfg, probe)) && (if ac is None {
            e == SrunError::AcIdUndetected
        } else {
            ip is None && e == SrunError::ClientIpRequired
        }),
    }
}

/// Settles portal, `ac_id` and client address for a login.
pub fn resolve_login_context(
    cfg: &AppConfig,
    probe: &PortalProbe,
    local_ip: Option<IpAddress>,
) -> (res: Result<(String, u32, IpAddress), SrunError>)
    ensures
        login_context_outcome(res, *cfg, *probe, local_ip),
{
    let portal_url = match resolve_portal_url_with_probe(cfg, probe) {
        Ok(p) => p,
        Err(e) => return Err(e),
    };
    let ac_id = match cfg.ac_id {
        Some(a) => a,
        None => match probe.ac_id {
            Some(a) => a,
            None => return Err(SrunError::AcIdUndetected),
        },
    };
    let ip = match local_ip {
        Some(i) => i,
        None => match probe.user_ip {
            Some(i) => i,
            None => match cfg.user_ip {
                Some(i) => i,
                None => return Err(SrunError::ClientIpRequired),
            },
        },
    };
    Ok((portal_url, ac_id, ip))
}

/// A GET request to the portal: the URL and the query parameters in order.
#[derive(Clone, Debug)]
pub struct PortalRequest {
    pub url: String,
    pub params: Vec<(String, String)>,
}

/// The mathematical content of a request.
pub open spec fn request_view(r: PortalRequest) -> (Seq<char>, Seq<(Seq<char>, Seq<char>)>) {
    (r.url@, pair_views(r.params@))
}

/// An endpoint path under the portal base URL (trailing `/` removed).
pub open spec fn endpoint(portal_url: Seq<char>, path: Seq<char>) -> Seq<char> {
    strip_slashes(portal_url) + path
}

/// An endpoint path under the portal base URL.
fn endpoint_string(portal_url: &str, path: &str) -> (res: String)
    ensures
        res@ == endpoint(portal_url@, path@),
{
    let mut v = strip_slashes_chars(portal_url);
    append_str(&mut v, path);
    string_from(v.as_slice())
}

/// The login-state query made at `ts` milliseconds.
pub open spec fn state_request_spec(portal_url: Seq<char>, ts: nat) -> (
    Seq<char>,
    Seq<(Seq<char>, Seq<char>)>,
) {
    (
        endpoint(portal_url, "/cgi-bin/rad_user_info"@),
        seq![("callback"@, callback_name_spec(ts)), ("_"@, decimal(ts))],
    )
}

/// The login-state query made at `ts` milliseconds.
pub fn state_request(portal_url: &str, ts: u128) -> (res: PortalRequest)
    ensures
        request_view(res) == state_request_spec(portal_url@, ts as nat),
{
    let mut params: Vec<(String, String)> = Vec::new();
    params.push((string_of("callback"), callback_name(ts)));
    params.push((string_of("_"), decimal_string(ts)));
    let r = PortalRequest { url: endpoint_string(portal_url, "/cgi-bin/rad_user_info"), params };
    assert(pair_views(r.params@) =~= state_request_spec(portal_url@, ts as nat).1);
    r
}

/// The challenge request for a login at `ts` milliseconds.
pub open spec fn challenge_request_spec(
    username: Seq<char>,
    portal_url: Seq<char>,
    ip: IpAddress,
    ac_id: u32,
    ts: nat,
) -> (Seq<char>, Seq<(Seq<char>, Seq<char>)>) {
    (
        endpoint(portal_url, "/cgi-bin/get_challenge"@),
        seq![
            ("callback"@, callback_name_spec(ts)),
            ("username"@, username),
            ("ip"@, ip_text(ip)),
            ("ac_id"@, decimal(ac_id as nat)),
            ("_"@, decimal(ts)),
        ],
    )
}

/// The challenge request for a login at `ts` milliseconds.
pub fn challenge_request(
    cfg: &AppConfig,
    portal_url: &str,
    ip: IpAddress,
    ac_id: u32,
    ts: u128,
) -> (res: PortalRequest)
    ensures
        request_view(res) == challenge_request_spec(cfg.username@, portal_url@, ip, ac_id, ts as nat),
{
    let mut params: Vec<(String, String)> = Vec::new();
    params.push((string_of("callback"), callback_name(ts)));
    params.push((string_of("username"), cfg.username.clone()));
    params.push((string_of("ip"), ip_to_string(ip)));
    params.push((string_of("ac_id"), decimal_string(ac_id as u128)));
    params.push((string_of("_"), decimal_string(ts)));
    let r = PortalRequest { url: endpoint_string(portal_url, "/cgi-bin/get_challenge"), params };
    assert(pair_views(r.params@) =~= challenge_request_spec(
        cfg.username@,
        portal_url@,
        ip,
        ac_id,
        ts as nat,
    ).1);
    r
}

/// The members of the login `info` object, in key order.
pub open spec fn login_info_members(
    username: Seq<char>,
    password: Seq<char>,
    ip: IpAddress,
    ac_id: u32,
) -> Seq<(Seq<char>, Seq<char>)> {
    seq![
        ("acid"@, decimal(ac_id as nat)),
        ("enc_ver"@, "srun_bx1"@),
        ("ip"@, ip_text(ip)),
        ("password"@, password),
        ("username"@, username),
    ]
}

/// The JSON text of the login `info` object.
pub open spec fn login_info_json(
    username: Seq<char>,
    password: Seq<char>,
    ip: IpAddress,
    ac_id: u32,
) -> Seq<char> {
    json_object_text(login_info_members(username, password, ip, ac_id))
}

/// The `info` parameter: `{SRBX1}` and the portal-alphabet base64 of the
/// info JSON enciphered under the token.
pub open spec fn login_info(
    username: Seq<char>,
    password: Seq<char>,
    ip: IpAddress,
    ac_id: u32,
    token: Seq<char>,
) -> Seq<char> {
    "{SRBX1}"@ + base64_encode(
        portal_alphabet(),
        xencode_spec(
            vstd::utf8::encode_utf8(login_info_json(username, password, ip, ac_id)),
            vstd::utf8::encode_utf8(token),
        ),
    )
}

/// The password digest: HMAC-MD5 of the password keyed by the token, in hex.
pub open spec fn password_digest(password: Seq<char>, token: Seq<char>) -> Seq<char> {
    hex_lower(hmac_md5(vstd::utf8::encode_utf8(token), vstd::utf8::encode_utf8(password)))
}

/// The text the checksum is taken over: the token before each of user
/// name, password digest, `ac_id`, address, `n`, type and info.
pub open spec fn checksum_input(
    cfg: AppConfig,
    password: Seq<char>,
    token: Seq<char>,
    ac_id: u32,
    ip: IpAddress,
) -> Seq<char> {
    token + cfg.username@ + token + password_digest(password, token) + token + decimal(
        ac_id as nat,
    ) + token + ip_text(ip) + token + decimal(cfg.n as nat) + token + decimal(
        cfg.login_type as nat,
    ) + token + login_info(cfg.username@, password, ip, ac_id, token)
}

/// The login request made at `ts` milliseconds with the challenge `token`.
pub open spec fn login_request_spec(
    cfg: AppConfig,
    password: Seq<char>,
    portal_url: Seq<char>,
    token: Seq<char>,
    ac_id: u32,
    ip: IpAddress,
    ts: nat,
) -> (Seq<char>, Seq<(Seq<char>, Seq<char>)>) {
    (
        endpoint(portal_url, "/cgi-bin/srun_portal"@),
        seq![
            ("callback"@, callback_name_spec(ts)),
            ("action"@, "login"@),
            ("username"@, cfg.username@),
            ("password"@, "{MD5}"@ + password_digest(password, token)),
            ("os"@, cfg.os_name@),
            ("name"@, cfg.device_name@),
            ("double_stack"@, "0"@),
            (
                "chksum"@,
                hex_lower(
                    sha1(
                        vstd::utf8::encode_utf8(checksum_input(cfg, password, token, ac_id, ip)),
                    ),
                ),
            ),
            ("info"@, login_info(cfg.username@, password, ip, ac_id, token)),
            ("ac_id"@, decimal(ac_id as nat)),
            ("ip"@, ip_text(ip)),
            ("n"@, decimal(cfg.n as nat)),
            ("type"@, decimal(cfg.login_type as nat)),
            ("_"@, decimal(ts)),
        ],
    )
}

/// What a login request needs of its inputs: a token of at least 13 UTF-8
/// bytes (the cipher indexes four key words), and an info JSON small enough
/// that its base64 fits in memory.
pub open spec fn login_request_admissible_spec(
    cfg: AppConfig,
    password: Seq<char>,
    token: Seq<char>,
    ac_id: u32,
    ip: IpAddress,
) -> bool {
    vstd::utf8::encode_utf8(token).len() >= 13 && vstd::utf8::encode_utf8(
        login_info_json(cfg.username@, password, ip, ac_id),
    ).len() <= usize::MAX / 4
}

/// The info JSON text.
fn login_info_json_string(username: &String, password: &str, ip: IpAddress, ac_id: u32) -> (res:
    String)
    ensures
        res@ == login_info_json(username@, password@, ip, ac_id),
{
    let mut members: Vec<(String, String)> = Vec::new();
    members.push((string_of("acid"), decimal_string(ac_id as u128)));
    members.push((string_of("enc_ver"), string_of("srun_bx1")));
    members.push((string_of("ip"), ip_to_string(ip)));
    members.push((string_of("password"), string_of(password)));
    members.push((string_of("username"), username.clone()));
    proof {
        reveal_strlit("acid");
        reveal_strlit("enc_ver");
        reveal_strlit("ip");
        reveal_strlit("password");
        reveal_strlit("username");
        assert(pair_views(members@) =~= login_info_members(username@, password@, ip, ac_id));
        assert(keys_sorted(pair_views(members@)));
    }
    json_string_object(&members)
}

/// Whether a login request can be built from these inputs.
pub fn login_request_admissible(
    cfg: &AppConfig,
    password: &str,
    token: &str,
    ac_id: u32,
    ip: IpAddress,
) -> (res: bool)
    ensures
        res == login_request_admissible_spec(*cfg, password@, token@, ac_id, ip),
{
    let json = login_info_json_string(&cfg.username, password, ip, ac_id);
    token.as_bytes().len() >= 13 && json.as_str().as_bytes().len() <= usize::MAX / 4
}

/// The login request made at `ts` milliseconds with the challenge `token`.
pub fn login_request(
    cfg: &AppConfig,
    password: &str,
    portal_url: &str,
    token: &str,
    ac_id: u32,
    ip: IpAddress,
    ts: u128,
) -> (res: PortalRequest)
    requires
        login_request_admissible_spec(*cfg, password@, token@, ac_id, ip),
    ensures
        request_view(res) == login_request_spec(
            *cfg,
            password@,
            portal_url@,
            token@,
            ac_id,
            ip,
            ts as nat,
        ),
{
    let hmd5 = match hmac_md5_hex(password, token) {
        Ok(h) => h,
        Err(_) => String::new(),
    };
    let json = login_info_json_string(&cfg.username, password, ip, ac_id);
    let enciphered = xencode(json.as_str(), token);
    proof {
        lemma_xencode_len(
            vstd::utf8::encode_utf8(json@),
            vstd::utf8::encode_utf8(token@),
        );
    }
    let mut info_v = chars_of("{SRBX1}");
    let b64 = fkbase64(enciphered);
    append_str(&mut info_v, b64.as_str());
    let info = string_from(info_v.as_slice());
    let ac_text = decimal_string(ac_id as u128);
    let ip_s = ip_to_string(ip);
    let n_text = decimal_string(cfg.n as u128);
    let type_text = decimal_string(cfg.login_type as u128);
    let mut ck = chars_of(token);
    append_str(&mut ck, cfg.username.as_str());
    append_str(&mut ck, token);
    append_str(&mut ck, hmd5.as_str());
    append_str(&mut ck, token);
    append_str(&mut ck, ac_text.as_str());
    append_str(&mut ck, token);
    append_str(&mut ck, ip_s.as_str());
    append_str(&mut ck, token);
    append_str(&mut ck, n_text.as_str());
    append_str(&mut ck, token);
    append_str(&mut ck, type_text.as_str());
    append_str(&mut ck, token);
    append_str(&mut ck, info.as_str());
    let ck_s = string_from(ck.as_slice());
    assert(ck_s@ =~= checksum_input(*cfg, password@, token@, ac_id, ip));
    let chksum = sha1_hex(ck_s.as_str());
    let mut pw = chars_of("{MD5}");
    append_str(&mut pw, hmd5.as_str());
    let mut params: Vec<(String, String)> = Vec::new();
    params.push((string_of("callback"), callback_name(ts)));
    params.push((string_of("action"), string_of("login")));
    params.push((string_of("username"), cfg.username.clone()));
    params.push((string_of("password"), string_from(pw.as_slice())));
    params.push((string_of("os"), cfg.os_name.clone()));
    params.push((string_of("name"), cfg.device_name.clone()));
    params.push((string_of("double_stack"), string_of("0")));
    params.push((string_of("chksum"), chksum));
    params.push((string_of("info"), info));
    params.push((string_of("ac_id"), ac_text));
    params.push((string_of("ip"), ip_s));
    params.push((string_of("n"), n_text));
    params.push((string_of("type"), type_text));
    params.push((string_of("_"), decimal_string(ts)));
    let r = PortalRequest { url: endpoint_string(portal_url, "/cgi-bin/srun_portal"), params };
    assert(pair_views(r.params@) =~= login_request_spec(
        *cfg,
        password@,
        portal_url@,
        token@,
        ac_id,
        ip,
        ts as nat,
    ).1);
    r
}

/// The logout request made at `ts` milliseconds.
pub open spec fn logout_request_spec(
    cfg: AppConfig,
    portal_url: Seq<char>,
    ac_id: u32,
    ip: IpAddress,
    ts: nat,
) -> (Seq<char>, Seq<(Seq<char>, Seq<char>)>) {
    (
        endpoint(portal_url, "/cgi-bin/srun_portal"@),
        seq![
            ("callback"@, callback_name_spec(ts)),
            ("action"@, "logout"@),
            ("username"@, cfg.username@),
            ("ac_id"@, decimal(ac_id as nat)),
            ("ip"@, ip_text(ip)),
            ("os"@, cfg.os_name@),
            ("name"@, cfg.device_name@),
            ("_"@, decimal(ts)),
        ],
    )
}

/// The logout request made at `ts` milliseconds.
pub fn logout_request(
    cfg: &AppConfig,
    portal_url: &str,
    ac_id: u32,
    ip: IpAddress,
    ts: u128,
) -> (res: PortalRequest)
    ensures
        request_view(res) == logout_request_spec(*cfg, portal_url@, ac_id, ip, ts as nat),
{
    let mut params: Vec<(String, String)> = Vec::new();
    params.push((string_of("callback"), callback_name(ts)));
    params.push((string_of("action"), string_of("logout")));
    params.push((string_of("username"), cfg.username.clone()));
    params.push((string_of("ac_id"), decimal_string(ac_id as u128)));
    params.push((string_of("ip"), ip_to_string(ip)));
    params.push((string_of("os"), cfg.os_name.clone()));
    params.push((string_of("name"), cfg.device_name.clone()));
    params.push((string_of("_"), decimal_string(ts)));
    let r = PortalRequest { url: endpoint_string(portal_url, "/cgi-bin/srun_portal"), params };
    assert(pair_views(r.params@) =~= logout_request_spec(*cfg, portal_url@, ac_id, ip, ts as nat).1);
    r
}

} // verus!
