//! The settings form: reading it into settings, writing settings back into
//! it, and keeping the saved login context.
use vstd::prelude::*;
use crate::client::{has_login_context, has_login_context_spec, request_url_ok};
use crate::config::AppConfig;
use crate::error::SrunError;
use crate::ip::{ip_of, ip_text, ip_to_string, parse_ip_chars, IpAddress};
use crate::text::{chars_of, decimal, decimal_string, parse_u32_chars, string_from, trim, trim_str, u32_of};
use crate::probe::PortalProbe;
use crate::url::{
    first_query_value, normalize_outcome, normalize_portal_url, opt_view, optional_portal_outcome,
    origin_of, parse_optional_portal_url, url_parse, validate_outcome, validate_request_url,
    UrlPurpose,
};

verus! {

/// The settings as the form holds them: numbers and addresses as text.
#[derive(Clone, Debug)]
pub struct UiConfig {
    pub portal_url: String,
    pub probe_url: String,
    pub username: String,
    pub password: String,
    pub ac_id: String,
    pub user_ip: String,
    pub bind_ip: String,
    pub retry_seconds: u64,
    pub online_check_seconds: u64,
    pub auto_query_acid: bool,
    pub auto_reconnect: bool,
    pub accept_terms: bool,
    pub os_name: String,
    pub device_name: String,
    pub n: u32,
    pub login_type: u32,
}

/// An optional number as form text (empty when missing).
pub open spec fn opt_decimal(v: Option<u32>) -> Seq<char> {
    match v {
        Some(n) => decimal(n as nat),
        None => Seq::empty(),
    }
}

/// An optional address as form text (empty when missing).
pub open spec fn opt_ip_text(v: Option<IpAddress>) -> Seq<char> {
    match v {
        Some(ip) => ip_text(ip),
        None => Seq::empty(),
    }
}

/// `ui` shows the settings `cfg` with the password `password`.
pub open spec fn shows_config(ui: UiConfig, cfg: AppConfig, password: Seq<char>) -> bool {
    &&& ui.portal_url@ == cfg.portal_url@
    &&& ui.probe_url@ == cfg.probe_url@
    &&& ui.username@ == cfg.username@
    &&& ui.password@ == password
    &&& ui.ac_id@ == opt_decimal(cfg.ac_id)
    &&& ui.user_ip@ == opt_ip_text(cfg.user_ip)
    &&& ui.bind_ip@ == opt_ip_text(cfg.bind_ip)
    &&& ui.retry_seconds == cfg.retry_seconds
    &&& ui.online_check_seconds == cfg.online_check_seconds
    &&& ui.auto_query_acid == cfg.auto_query_acid
    &&& ui.auto_reconnect == cfg.auto_reconnect
    &&& ui.accept_terms == cfg.accept_terms
    &&& ui.os_name@ == cfg.os_name@
    &&& ui.device_name@ == cfg.device_name@
    &&& ui.n == cfg.n
    &&& ui.login_type == cfg.login_type
}

/// An optional number as form text.
fn decimal_or_empty(v: Option<u32>) -> (res: String)
    ensures
        res@ == opt_decimal(v),
{
    match v {
        Some(n) => decimal_string(n as u128),
        None => String::new(),
    }
}

/// An optional address as form text.
fn ip_or_empty(v: Option<IpAddress>) -> (res: String)
    ensures
        res@ == opt_ip_text(v),
{
    match v {
        Some(ip) => ip_to_string(ip),
        None => String::new(),
    }
}

/// The form showing the settings `cfg` and the password `password`.
pub fn ui_config_from_app_config(cfg: &AppConfig, password: String) -> (res: UiConfig)
    ensures
        shows_config(res, *cfg, password@),
{
    UiConfig {
        portal_url: cfg.portal_url.clone(),
        probe_url: cfg.probe_url.clone(),
        username: cfg.username.clone(),
        password,
        ac_id: decimal_or_empty(cfg.ac_id),
        user_ip: ip_or_empty(cfg.user_ip),
        bind_ip: ip_or_empty(cfg.bind_ip),
        retry_seconds: cfg.retry_seconds,
        online_check_seconds: cfg.online_check_seconds,
        auto_query_acid: cfg.auto_query_acid,
        auto_reconnect: cfg.auto_reconnect,
        accept_terms: cfg.accept_terms,
        os_name: cfg.os_name.clone(),
        device_name: cfg.device_name.clone(),
        n: cfg.n,
        login_type: cfg.login_type,
    }
}

/// What a portal field reads as: blank is no portal; else the origin of
/// the URL with the `ac_id` and `wlanuserip` its query carries, when the
/// URL parses, has a host and passes the portal rule.
pub open spec fn portal_field(input: Seq<char>) -> Option<
    (Seq<char>, Option<u32>, Option<IpAddress>),
> {
    let raw = trim(input);
    if raw.len() == 0 {
        Some((Seq::empty(), None, None))
    } else {
        match url_parse(raw) {
            Err(_) => None,
            Ok(u) => match origin_of(u) {
                None => None,
                Some(base) => if request_url_ok(base, UrlPurpose::Portal) {
                    Some(
                        (
                            base,
                            match first_query_value(u.query, "ac_id"@) {
                                Some(t) => u32_of(t),
                                None => None,
                            },
                            match first_query_value(u.query, "wlanuserip"@) {
                                Some(t) => ip_of(t),
                                None => None,
                            },
                        ),
                    )
                } else {
                    None
                },
            },
        }
    }
}

/// Reading a portal field succeeds exactly when `portal_field` gives a
/// reading, and then gives it.
proof fn lemma_portal_field(res: Result<(String, Option<u32>, Option<IpAddress>), SrunError>, input: Seq<char>)
    requires
        optional_portal_outcome(res, input),
    ensures
        res is Ok <==> portal_field(input) is Some,
        res matches Ok((b, a, ip)) ==> portal_field(input) == Some((b@, a, ip)),
{
}

/// An optional form field: blank gives `None`, else the field must read.
pub open spec fn optional_field<T>(text: Seq<char>, read: Option<T>) -> bool {
    trim(text).len() == 0 || read is Some
}

/// `cfg` holds the settings the form `ui` gives, with the portal reading
/// `portal` and the saved start-up preference `startup`.
pub open spec fn built_from(
    cfg: AppConfig,
    ui: UiConfig,
    portal: (Seq<char>, Option<u32>, Option<IpAddress>),
    startup: bool,
) -> bool {
    &&& cfg.portal_url@ == portal.0
    &&& cfg.probe_url@ == trim(ui.probe_url@)
    &&& cfg.username@ == trim(ui.username@)
    &&& cfg.ac_id == (if trim(ui.ac_id@).len() > 0 {
        u32_of(trim(ui.ac_id@))
    } else {
        portal.1
    })
    &&& cfg.user_ip == (if trim(ui.user_ip@).len() > 0 {
        ip_of(trim(ui.user_ip@))
    } else {
        portal.2
    })
    &&& cfg.bind_ip == (if trim(ui.bind_ip@).len() > 0 {
        ip_of(trim(ui.bind_ip@))
    } else {
        None
    })
    &&& cfg.retry_seconds == (if ui.retry_seconds >= 15 {
        ui.retry_seconds
    } else {
        15
    })
    &&& cfg.online_check_seconds == (if ui.online_check_seconds >= 60 {
        ui.online_check_seconds
    } else {
        60
    })
    &&& cfg.auto_query_acid == ui.auto_query_acid
    &&& cfg.auto_reconnect == ui.auto_reconnect
    &&& cfg.startup_enabled == startup
    &&& cfg.last_reconnect_at_ms is None
    &&& cfg.accept_terms
    &&& cfg.os_name@ == trim(ui.os_name@)
    &&& cfg.device_name@ == trim(ui.device_name@)
    &&& cfg.n == ui.n
    &&& cfg.login_type == ui.login_type
}

/// `res` is what reading the form `ui` gives: the portal field must read;
/// the probe URL must be given and pass the probe rule; the user name must
/// be given when `require_username`; `ac_id`, client address and login
/// outlet, when given, must read. `startup` is the saved start-up
/// preference, which the form does not hold.
pub open spec fn build_config_outcome(
    res: Result<AppConfig, SrunError>,
    ui: UiConfig,
    require_username: bool,
    startup: bool,
) -> bool {
    match portal_field(ui.portal_url@) {
        None => res matches Err(e) && optional_portal_outcome(Err(e), ui.portal_url@),
        Some(portal) => {
            let probe = trim(ui.probe_url@);
            if trim(portal.0).len() > 0 && !request_url_ok(portal.0, UrlPurpose::Portal) {
                res matches Err(e) && validate_outcome(Err(e), portal.0, UrlPurpose::Portal)
            } else if probe.len() == 0 {
                res == Err::<AppConfig, SrunError>(SrunError::ProbeUrlRequired)
            } else if !request_url_ok(probe, UrlPurpose::Probe) {
                res matches Err(e) && validate_outcome(Err(e), probe, UrlPurpose::Probe)
            } else if require_username && trim(ui.username@).len() == 0 {
                res == Err::<AppConfig, SrunError>(SrunError::UsernameRequired)
            } else if !optional_field(ui.ac_id@, u32_of(trim(ui.ac_id@))) {
                res == Err::<AppConfig, SrunError>(SrunError::InvalidAcId)
            } else if !optional_field(ui.user_ip@, ip_of(trim(ui.user_ip@))) {
                res == Err::<AppConfig, SrunError>(SrunError::InvalidClientIp)
            } else if !optional_field(ui.bind_ip@, ip_of(trim(ui.bind_ip@))) {
                res == Err::<AppConfig, SrunError>(SrunError::InvalidBindIp)
            } else {
                res matches Ok(cfg) && built_from(cfg, ui, portal, startup)
            }
        },
    }
}

/// Reads the form into settings; `saved_startup_enabled` is the start-up
/// preference from the saved settings.
pub fn build_config_inner(
    config: &UiConfig,
    require_username: bool,
    saved_startup_enabled: bool,
) -> (res: Result<AppConfig, SrunError>)
    ensures
        build_config_outcome(res, *config, require_username, saved_startup_enabled),
{
    let parsed = parse_optional_portal_url(config.portal_url.as_str());
    proof {
        lemma_portal_field(parsed, config.portal_url@);
    }
    let (portal_url, parsed_ac_id, parsed_user_ip) = match parsed {
        Ok(t) => t,
        Err(e) => return Err(e),
    };
    let pt = trim_str(portal_url.as_str());
    if pt.len() > 0 {
        match validate_request_url(portal_url.as_str(), UrlPurpose::Portal) {
            Ok(()) => {},
            Err(e) => return Err(e),
        }
    }
    let probe = trim_str(config.probe_url.as_str());
    if probe.len() == 0 {
        return Err(SrunError::ProbeUrlRequired);
    }
    let probe_url = string_from(probe.as_slice());
    match validate_request_url(probe_url.as_str(), UrlPurpose::Probe) {
        Ok(()) => {},
        Err(e) => return Err(e),
    }
    let username = trim_str(config.username.as_str());
    if require_username && username.len() == 0 {
        return Err(SrunError::UsernameRequired);
    }
    let ac_text = trim_str(config.ac_id.as_str());
    let ac_id = if ac_text.len() > 0 {
        match parse_u32_chars(ac_text.as_slice()) {
            Some(a) => Some(a),
            None => return Err(SrunError::InvalidAcId),
        }
    } else {
        parsed_ac_id
    };
    let ip_text_v = trim_str(config.user_ip.as_str());
    let user_ip = if ip_text_v.len() > 0 {
        match parse_ip_chars(ip_text_v.as_slice()) {
            Some(ip) => Some(ip),
            None => return Err(SrunError::InvalidClientIp),
        }
    } else {
        parsed_user_ip
    };
    let bind_text = trim_str(config.bind_ip.as_str());
    let bind_ip = if bind_text.len() > 0 {
        match parse_ip_chars(bind_text.as_slice()) {
            Some(ip) => Some(ip),
            None => return Err(SrunError::InvalidBindIp),
        }
    } else {
        None
    };
    let os = trim_str(config.os_name.as_str());
    let device = trim_str(config.device_name.as_str());
    let min_online = crate::config::default_online_check_seconds();
    Ok(
        AppConfig {
            portal_url,
            probe_url,
            username: string_from(username.as_slice()),
            ac_id,
            user_ip,
            bind_ip,
            retry_seconds: if config.retry_seconds >= 15 {
                config.retry_seconds
            } else {
                15
            },
            online_check_seconds: if config.online_check_seconds >= min_online {
                config.online_check_seconds
            } else {
                min_online
            },
            auto_query_acid: config.auto_query_acid,
            auto_reconnect: config.auto_reconnect,
            startup_enabled: saved_startup_enabled,
            last_reconnect_at_ms: None,
            accept_terms: true,
            os_name: string_from(os.as_slice()),
            device_name: string_from(device.as_slice()),
            n: config.n,
            login_type: config.login_type,
        },
    )
}

/// Reads the form into settings; the user name is required.
pub fn build_config(config: &UiConfig, saved_startup_enabled: bool) -> (res: Result<
    AppConfig,
    SrunError,
>)
    ensures
        build_config_outcome(res, *config, true, saved_startup_enabled),
{
    build_config_inner(config, true, saved_startup_enabled)
}

/// Reads the form into settings; the user name may be blank.
pub fn build_config_without_username(config: &UiConfig, saved_startup_enabled: bool) -> (res:
    Result<AppConfig, SrunError>)
    ensures
        build_config_outcome(res, *config, false, saved_startup_enabled),
{
    build_config_inner(config, false, saved_startup_enabled)
}

/// The settings are unchanged but for the login context fields.
pub open spec fn same_but_context(a: AppConfig, b: AppConfig) -> bool {
    &&& a.probe_url == b.probe_url
    &&& a.username == b.username
    &&& a.bind_ip == b.bind_ip
    &&& a.retry_seconds == b.retry_seconds
    &&& a.online_check_seconds == b.online_check_seconds
    &&& a.auto_query_acid == b.auto_query_acid
    &&& a.auto_reconnect == b.auto_reconnect
    &&& a.startup_enabled == b.startup_enabled
    &&& a.accept_terms == b.accept_terms
    &&& a.os_name == b.os_name
    &&& a.device_name == b.device_name
    &&& a.n == b.n
    &&& a.login_type == b.login_type
}

/// Fills the login context the settings lack from the saved settings: the
/// portal when blank, `ac_id`, client address and last reconnect time when
/// missing. The login outlet is never restored: a blank outlet asks for
/// automatic selection.
pub fn merge_saved_login_context_from(cfg: &mut AppConfig, saved: &AppConfig)
    ensures
        final(cfg).portal_url@ == (if trim(old(cfg).portal_url@).len() == 0 && trim(
            saved.portal_url@,
        ).len() > 0 {
            saved.portal_url@
        } else {
            old(cfg).portal_url@
        }),
        final(cfg).ac_id == (if old(cfg).ac_id is None {
            saved.ac_id
        } else {
            old(cfg).ac_id
        }),
        final(cfg).user_ip == (if old(cfg).user_ip is None {
            saved.user_ip
        } else {
            old(cfg).user_ip
        }),
        final(cfg).last_reconnect_at_ms == (if old(cfg).last_reconnect_at_ms is None {
            saved.last_reconnect_at_ms
        } else {
            old(cfg).last_reconnect_at_ms
        }),
        same_but_context(*final(cfg), *old(cfg)),
{
    let mine = trim_str(cfg.portal_url.as_str());
    let theirs = trim_str(saved.portal_url.as_str());
    if mine.len() == 0 && theirs.len() > 0 {
        cfg.portal_url = saved.portal_url.clone();
    }
    if cfg.ac_id.is_none() {
        cfg.ac_id = saved.ac_id;
    }
    if cfg.user_ip.is_none() {
        cfg.user_ip = saved.user_ip;
    }
    if cfg.last_reconnect_at_ms.is_none() {
        cfg.last_reconnect_at_ms = saved.last_reconnect_at_ms;
    }
}

/// The client address after taking the local address `local_ip`.
pub open spec fn refreshed_ip(user_ip: Option<IpAddress>, local_ip: Option<IpAddress>) -> Option<
    IpAddress,
> {
    match local_ip {
        Some(ip) => Some(ip),
        None => user_ip,
    }
}

/// Taking the local address changes the settings.
pub open spec fn refresh_changes(user_ip: Option<IpAddress>, local_ip: Option<IpAddress>) -> bool {
    local_ip is Some && user_ip != local_ip
}

/// Taking the same local address twice changes nothing the second time.
pub proof fn lemma_refresh_user_ip_settles(user_ip: Option<IpAddress>, local_ip: Option<IpAddress>)
    ensures
        !refresh_changes(refreshed_ip(user_ip, local_ip), local_ip),
        refreshed_ip(refreshed_ip(user_ip, local_ip), local_ip) == refreshed_ip(user_ip, local_ip),
{
}

/// Takes the current local address as the client address; says whether
/// that changed the settings.
pub fn refresh_user_ip(cfg: &mut AppConfig, local_ip: Option<IpAddress>) -> (res: bool)
    ensures
        final(cfg).user_ip == refreshed_ip(old(cfg).user_ip, local_ip),
        res == refresh_changes(old(cfg).user_ip, local_ip),
        final(cfg).portal_url == old(cfg).portal_url,
        final(cfg).ac_id == old(cfg).ac_id,
        final(cfg).last_reconnect_at_ms == old(cfg).last_reconnect_at_ms,
        same_but_context(*final(cfg), *old(cfg)),
{
    match local_ip {
        None => false,
        Some(ip) => {
            if cfg.user_ip != Some(ip) {
                cfg.user_ip = Some(ip);
                true
            } else {
                false
            }
        },
    }
}


/// What a detected portal URL normalizes to, when it does.
pub open spec fn normalized_portal(input: Seq<char>) -> Option<
    (Seq<char>, Option<u32>, Option<IpAddress>),
> {
    if trim(input).len() == 0 {
        None
    } else {
        portal_field(input)
    }
}

/// Normalizing succeeds exactly when `normalized_portal` gives a reading,
/// and then gives it.
proof fn lemma_normalized_portal(
    res: Result<(String, Option<u32>, Option<IpAddress>), SrunError>,
    input: Seq<char>,
)
    requires
        normalize_outcome(res, input),
    ensures
        res is Ok <==> normalized_portal(input) is Some,
        res matches Ok((b, a, ip)) ==> normalized_portal(input) == Some((b@, a, ip)),
{
}

/// The settings after taking a detected portal: with no portal set and one
/// detected, its normalized origin becomes the portal and its `ac_id` and
/// address fill the missing ones; `None` when normalizing fails.
pub open spec fn with_detected_portal(cfg: AppConfig, detected: PortalProbe) -> Option<
    (Option<Seq<char>>, Option<u32>, Option<IpAddress>),
> {
    if trim(cfg.portal_url@).len() == 0 && detected.portal_url is Some {
        match normalized_portal(detected.portal_url.unwrap()@) {
            Some((b, a, ip)) => Some(
                (
                    Some(b),
                    if cfg.ac_id is None {
                        a
                    } else {
                        cfg.ac_id
                    },
                    if cfg.user_ip is None {
                        ip
                    } else {
                        cfg.user_ip
                    },
                ),
            ),
            None => None,
        }
    } else {
        Some((None, cfg.ac_id, cfg.user_ip))
    }
}

/// Takes a detected portal into the settings when none is set: its
/// normalized origin becomes the portal, and its `ac_id` and address fill
/// the missing ones. Says whether a portal was taken; on a failure to
/// normalize, the settings are left as they were.
pub fn take_detected_portal(cfg: &mut AppConfig, detected: &PortalProbe) -> (res: Result<
    bool,
    SrunError,
>)
    ensures
        match with_detected_portal(*old(cfg), *detected) {
            None => res matches Err(e) && normalize_outcome(
                Err(e),
                detected.portal_url.unwrap()@,
            ) && *final(cfg) == *old(cfg),
            Some((p, a, ip)) => res == Ok::<bool, SrunError>(p is Some) && final(cfg).portal_url@
                == (match p {
                Some(b) => b,
                None => old(cfg).portal_url@,
            }) && final(cfg).ac_id == a && final(cfg).user_ip == ip
                && final(cfg).last_reconnect_at_ms == old(cfg).last_reconnect_at_ms
                && same_but_context(*final(cfg), *old(cfg)),
        },
{
    let mine = trim_str(cfg.portal_url.as_str());
    if mine.len() > 0 {
        return Ok(false);
    }
    match &detected.portal_url {
        None => Ok(false),
        Some(url) => {
            let n = normalize_portal_url(url.as_str());
            proof {
                lemma_normalized_portal(n, url@);
            }
            match n {
                Err(e) => Err(e),
                Ok((b, a, ip)) => {
                    cfg.portal_url = b;
                    if cfg.ac_id.is_none() {
                        cfg.ac_id = a;
                    }
                    if cfg.user_ip.is_none() {
                        cfg.user_ip = ip;
                    }
                    Ok(true)
                },
            }
        },
    }
}

/// Fills a missing `ac_id`; says whether it did.
pub fn fill_acid(cfg: &mut AppConfig, ac_id: Option<u32>) -> (res: bool)
    ensures
        res == (old(cfg).ac_id is None && ac_id is Some),
        final(cfg).ac_id == (if old(cfg).ac_id is None {
            ac_id
        } else {
            old(cfg).ac_id
        }),
        final(cfg).portal_url == old(cfg).portal_url,
        final(cfg).user_ip == old(cfg).user_ip,
        final(cfg).last_reconnect_at_ms == old(cfg).last_reconnect_at_ms,
        same_but_context(*final(cfg), *old(cfg)),
{
    if cfg.ac_id.is_none() && ac_id.is_some() {
        cfg.ac_id = ac_id;
        true
    } else {
        false
    }
}

/// Fills a missing client address; says whether it did.
pub fn fill_user_ip(cfg: &mut AppConfig, user_ip: Option<IpAddress>) -> (res: bool)
    ensures
        res == (old(cfg).user_ip is None && user_ip is Some),
        final(cfg).user_ip == (if old(cfg).user_ip is None {
            user_ip
        } else {
            old(cfg).user_ip
        }),
        final(cfg).portal_url == old(cfg).portal_url,
        final(cfg).ac_id == old(cfg).ac_id,
        final(cfg).last_reconnect_at_ms == old(cfg).last_reconnect_at_ms,
        same_but_context(*final(cfg), *old(cfg)),
{
    if cfg.user_ip.is_none() && user_ip.is_some() {
        cfg.user_ip = user_ip;
        true
    } else {
        false
    }
}

/// Whether the `ac_id` is to be asked of the portal: it is missing,
/// detection is on and a portal is set.
pub fn wants_acid_query(cfg: &AppConfig) -> (res: bool)
    ensures
        res == (cfg.ac_id is None && cfg.auto_query_acid && trim(cfg.portal_url@).len() > 0),
{
    let p = trim_str(cfg.portal_url.as_str());
    cfg.ac_id.is_none() && cfg.auto_query_acid && p.len() > 0
}

/// Where completing the settings stands.
#[derive(Debug)]
pub enum EnrichStage {
    /// Nothing done yet.
    Start,
    /// Portal detection was asked for.
    Detecting,
    /// The `ac_id` was asked of the portal; the detected client address
    /// waits to be filled in after it.
    QueryingAcid(Option<IpAddress>),
    /// Completing is over.
    Done,
}

/// What the caller brings back for a step of completing the settings.
#[derive(Debug)]
pub enum EnrichEvent {
    /// The start, with the current local address, if one was found.
    Begin(Option<IpAddress>),
    /// What portal detection found.
    Detected(PortalProbe),
    /// The `ac_id` the portal gave, if any.
    AcidQueried(Option<u32>),
}

/// What the caller does next while completing the settings.
#[derive(Debug)]
pub enum EnrichAction {
    /// Detect the portal.
    Detect,
    /// Ask the portal for the `ac_id`.
    QueryAcid,
    /// Done: whether the settings changed (then they are saved and shown),
    /// or the failure that ended it.
    Finish(Result<bool, SrunError>),
}

/// The event a stage waits for.
pub open spec fn enrich_event_fits(stage: EnrichStage, event: EnrichEvent) -> bool {
    match stage {
        EnrichStage::Start => event is Begin,
        EnrichStage::Detecting => event is Detected,
        EnrichStage::QueryingAcid(_) => event is AcidQueried,
        EnrichStage::Done => false,
    }
}

/// The login context of the settings: portal, `ac_id`, client address and
/// last reconnect time.
pub open spec fn login_context(c: AppConfig) -> (Seq<char>, Option<u32>, Option<IpAddress>, Option<u64>) {
    (c.portal_url@, c.ac_id, c.user_ip, c.last_reconnect_at_ms)
}

/// One step of completing the settings, from `old` (changed so far:
/// `changed`) to `new`: the start takes the local address as the client
/// address and ends there when the login context is whole, else asks for
/// detection; detection supplies a missing portal (normalized, with the
/// `ac_id` and address its URL carries), then a missing `ac_id`; the
/// portal is asked for the `ac_id` when it is still missing, detection is
/// on and a portal is set; last a missing client address is taken from
/// detection. The finish says whether anything changed.
pub open spec fn enrich_transition(
    old: AppConfig,
    changed: bool,
    stage: EnrichStage,
    event: EnrichEvent,
    new: AppConfig,
    next: EnrichStage,
    action: EnrichAction,
    changed_after: bool,
) -> bool {
    &&& same_but_context(new, old)
    &&& match (stage, event) {
        (EnrichStage::Start, EnrichEvent::Begin(local)) => {
            let c = changed || refresh_changes(old.user_ip, local);
            &&& login_context(new) == (
                old.portal_url@,
                old.ac_id,
                refreshed_ip(old.user_ip, local),
                old.last_reconnect_at_ms,
            )
            &&& changed_after == c
            &&& if has_login_context_spec(new) {
                next is Done && action == EnrichAction::Finish(Ok(c))
            } else {
                next is Detecting && action is Detect
            }
        },
        (EnrichStage::Detecting, EnrichEvent::Detected(p)) => match with_detected_portal(old, p) {
            None => {
                &&& new == old
                &&& next is Done
                &&& action matches EnrichAction::Finish(Err(e)) && normalize_outcome(
                    Err(e),
                    p.portal_url.unwrap()@,
                )
            },
            Some((pu, a, ip)) => {
                let portal = match pu {
                    Some(b) => b,
                    None => old.portal_url@,
                };
                let acid = if a is None {
                    p.ac_id
                } else {
                    a
                };
                let c = changed || pu is Some || (a is None && p.ac_id is Some);
                if acid is None && old.auto_query_acid && trim(portal).len() > 0 {
                    &&& login_context(new) == (portal, acid, ip, old.last_reconnect_at_ms)
                    &&& changed_after == c
                    &&& next == EnrichStage::QueryingAcid(p.user_ip)
                    &&& action is QueryAcid
                } else {
                    let address = if ip is None {
                        p.user_ip
                    } else {
                        ip
                    };
                    let c2 = c || (ip is None && p.user_ip is Some);
                    &&& login_context(new) == (portal, acid, address, old.last_reconnect_at_ms)
                    &&& changed_after == c2
                    &&& next is Done
                    &&& action == EnrichAction::Finish(Ok(c2))
                }
            },
        },
        (EnrichStage::QueryingAcid(detected_ip), EnrichEvent::AcidQueried(q)) => {
            let acid = if old.ac_id is None {
                q
            } else {
                old.ac_id
            };
            let address = if old.user_ip is None {
                detected_ip
            } else {
                old.user_ip
            };
            let c = changed || (old.ac_id is None && q is Some) || (old.user_ip is None
                && detected_ip is Some);
            &&& login_context(new) == (old.portal_url@, acid, address, old.last_reconnect_at_ms)
            &&& changed_after == c
            &&& next is Done
            &&& action == EnrichAction::Finish(Ok(c))
        },
        _ => false,
    }
}

/// One step of completing the settings with the local address, detection
/// and the portal's `ac_id`; returns the next stage, what to do, and
/// whether the settings changed so far.
pub fn enrich_step(cfg: &mut AppConfig, changed: bool, stage: EnrichStage, event: EnrichEvent) -> (res: (
    EnrichStage,
    EnrichAction,
    bool,
))
    requires
        enrich_event_fits(stage, event),
    ensures
        enrich_transition(*old(cfg), changed, stage, event, *final(cfg), res.0, res.1, res.2),
{
    match (stage, event) {
        (EnrichStage::Start, EnrichEvent::Begin(local)) => {
            let c = refresh_user_ip(cfg, local) || changed;
            if has_login_context(cfg) {
                (EnrichStage::Done, EnrichAction::Finish(Ok(c)), c)
            } else {
                (EnrichStage::Detecting, EnrichAction::Detect, c)
            }
        },
        (EnrichStage::Detecting, EnrichEvent::Detected(p)) => {
            let took = match take_detected_portal(cfg, &p) {
                Ok(t) => t,
                Err(e) => return (EnrichStage::Done, EnrichAction::Finish(Err(e)), changed),
            };
            let filled = fill_acid(cfg, p.ac_id);
            let c = changed || took || filled;
            if wants_acid_query(cfg) {
                (EnrichStage::QueryingAcid(p.user_ip), EnrichAction::QueryAcid, c)
            } else {
                let ip_filled = fill_user_ip(cfg, p.user_ip);
                let c2 = c || ip_filled;
                (EnrichStage::Done, EnrichAction::Finish(Ok(c2)), c2)
            }
        },
        (EnrichStage::QueryingAcid(detected_ip), EnrichEvent::AcidQueried(q)) => {
            let filled = fill_acid(cfg, q);
            let ip_filled = fill_user_ip(cfg, detected_ip);
            let c = changed || filled || ip_filled;
            (EnrichStage::Done, EnrichAction::Finish(Ok(c)), c)
        },
        _ => (EnrichStage::Done, EnrichAction::Finish(Ok(changed)), changed),
    }
}

/// Takes what a diagnosis detected into the settings: a detected portal
/// when none is set, then the detected `ac_id` and address where missing.
/// Says whether the detected settings are worth showing: a portal was
/// taken, or anything was detected.
pub fn take_diagnosis_findings(cfg: &mut AppConfig, detected: &PortalProbe) -> (res: Result<
    bool,
    SrunError,
>)
    ensures
        match with_detected_portal(*old(cfg), *detected) {
            None => res matches Err(e) && normalize_outcome(
                Err(e),
                detected.portal_url.unwrap()@,
            ) && *final(cfg) == *old(cfg),
            Some((p, a, ip)) => res == Ok::<bool, SrunError>(
                p is Some || detected.ac_id is Some || detected.user_ip is Some
                    || detected.portal_url is Some,
            ) && final(cfg).portal_url@ == (match p {
                Some(b) => b,
                None => old(cfg).portal_url@,
            }) && final(cfg).ac_id == (if a is None {
                detected.ac_id
            } else {
                a
            }) && final(cfg).user_ip == (if ip is None {
                detected.user_ip
            } else {
                ip
            }) && final(cfg).last_reconnect_at_ms == old(cfg).last_reconnect_at_ms
                && same_but_context(*final(cfg), *old(cfg)),
        },
{
    let taken = match take_detected_portal(cfg, detected) {
        Ok(t) => t,
        Err(e) => return Err(e),
    };
    if cfg.ac_id.is_none() {
        cfg.ac_id = detected.ac_id;
    }
    if cfg.user_ip.is_none() {
        cfg.user_ip = detected.user_ip;
    }
    Ok(taken || detected.ac_id.is_some() || detected.user_ip.is_some()
        || detected.portal_url.is_some())
}


/// Whether portal detection found no portal while the form has one, so the
/// form's own portal is to be shown.
pub fn use_form_portal(detected: &UiConfig, form: &UiConfig) -> (res: bool)
    ensures
        res == (trim(detected.portal_url@).len() == 0 && trim(form.portal_url@).len() > 0),
{
    let d = trim_str(detected.portal_url.as_str());
    let f = trim_str(form.portal_url.as_str());
    d.len() == 0 && f.len() > 0
}

/// What portal detection reports for the settings it detected: a failure
/// without a portal; else which of portal, `ac_id` and address it found.
pub open spec fn detect_status_text(detected: UiConfig) -> Result<Seq<char>, Seq<char>> {
    if trim(detected.portal_url@).len() == 0 {
        Err("未探测到 Portal 地址；请确认当前连接的是校园网，并处于未登录或认证页可跳转状态"@)
    } else {
        Ok(
            "已探测 Portal"@ + (if detected.ac_id@.len() == 0 {
                Seq::empty()
            } else {
                " / ac_id"@
            }) + (if detected.user_ip@.len() == 0 {
                Seq::empty()
            } else {
                " / IP"@
            }),
        )
    }
}

/// Writes what portal detection reports.
pub fn detect_portal_status(detected: &UiConfig) -> (res: Result<String, String>)
    ensures
        match res {
            Ok(t) => detect_status_text(*detected) == Ok::<Seq<char>, Seq<char>>(t@),
            Err(t) => detect_status_text(*detected) == Err::<Seq<char>, Seq<char>>(t@),
        },
{
    let p = trim_str(detected.portal_url.as_str());
    if p.len() == 0 {
        let v = chars_of("未探测到 Portal 地址；请确认当前连接的是校园网，并处于未登录或认证页可跳转状态");
        return Err(string_from(v.as_slice()));
    }
    let mut v = chars_of("已探测 Portal");
    let a = chars_of(detected.ac_id.as_str());
    if a.len() > 0 {
        crate::text::append_str(&mut v, " / ac_id");
    }
    let i = chars_of(detected.user_ip.as_str());
    if i.len() > 0 {
        crate::text::append_str(&mut v, " / IP");
    }
    Ok(string_from(v.as_slice()))
}

} // verus!
