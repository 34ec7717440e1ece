//! The login and logout conversations with the portal, as state machines:
//! each step takes what the last action brought back and says what to do
//! next. The caller performs the actions (detection, HTTP requests, the
//! internet check) and feeds their results back in.
use vstd::prelude::*;
use crate::client::{
    challenge_request, challenge_request_spec, effective_user_ip, has_login_context,
    has_login_context_spec,
    lemma_portal_url_for, login_context_outcome, login_request, login_request_admissible,
    login_request_admissible_spec,
    login_request_spec, logout_request, logout_request_spec, portal_url_for, request_view,
    resolve_login_context, resolve_portal_url_with_probe, state_request, state_request_spec,
    PortalRequest,
};
use crate::config::AppConfig;
use crate::error::SrunError;
use crate::ip::IpAddress;
use crate::probe::{empty_probe, PortalProbe};
use crate::response::{
    body_failure, challenge_of, interpret_login_reply, interpret_logout_reply, login_reply_outcome,
    logout_reply_outcome, parse_challenge, parse_login_state, parse_login_state_spec,
};
use crate::text::{chars_of, string_from, string_of, trim, trim_str};
use crate::url::{chars_eq_str, opt_view};

verus! {

/// What the caller is asked to do next.
#[derive(Debug)]
pub enum FlowAction {
    /// Run portal detection and report what it found.
    Detect,
    /// Send this GET request to the portal and report the reply text.
    Fetch(PortalRequest),
    /// Check whether the internet is reachable without the portal.
    CheckInternet,
    /// The conversation is over, with this outcome.
    Finish(Result<String, SrunError>),
}

/// Where a login conversation stands.
#[derive(Debug)]
pub enum LoginStage {
    /// Not begun.
    Start,
    /// Waiting for detection.
    Detecting,
    /// Waiting for the login-state reply; carries the detection findings.
    QueryingState(PortalProbe),
    /// Waiting for the internet check; carries the detection findings.
    CheckingInternet(PortalProbe),
    /// Waiting for the challenge reply; carries portal, `ac_id` and address.
    Challenging(String, u32, IpAddress),
    /// Waiting for the login reply.
    LoggingIn,
    /// Over.
    Finished,
}

/// What came back from the last action of a login conversation.
#[derive(Debug)]
pub enum LoginEvent {
    /// The conversation begins.
    Begin,
    /// Detection found this (nothing, when it failed).
    Detected(PortalProbe),
    /// The login-state reply text, or why the request failed.
    StateReply(Result<String, String>),
    /// Whether the internet was reachable.
    InternetChecked(bool),
    /// The challenge reply text, or why the request failed.
    ChallengeReply(Result<String, String>),
    /// The login reply text, or why the request failed.
    LoginReply(Result<String, String>),
}

/// The event answers the action the stage was waiting on.
pub open spec fn login_event_fits(stage: LoginStage, event: LoginEvent) -> bool {
    match stage {
        LoginStage::Start => event is Begin,
        LoginStage::Detecting => event is Detected,
        LoginStage::QueryingState(_) => event is StateReply,
        LoginStage::CheckingInternet(_) => event is InternetChecked,
        LoginStage::Challenging(..) => event is ChallengeReply,
        LoginStage::LoggingIn => event is LoginReply,
        LoginStage::Finished => false,
    }
}

/// The `error` field of a login-state reply, if the reply came and reads.
pub open spec fn state_reply_error(reply: Result<String, String>) -> Option<Seq<char>> {
    match reply {
        Ok(raw) => match parse_login_state_spec(raw@) {
            Some(v) => Some(v.0),
            None => None,
        },
        Err(_) => None,
    }
}

/// The step to the challenge: settle portal, `ac_id` and address from the
/// settings, the findings and the local address, and ask for a challenge;
/// a failure to settle them ends the login with that failure.
pub open spec fn challenge_step(
    cfg: AppConfig,
    probe: PortalProbe,
    local_ip: Option<IpAddress>,
    now: nat,
    next: LoginStage,
    action: FlowAction,
) -> bool {
    match next {
        LoginStage::Challenging(u, a, ip) => login_context_outcome(Ok((u, a, ip)), cfg, probe, local_ip)
            && (action matches FlowAction::Fetch(r) && request_view(r) == challenge_request_spec(
            cfg.username@,
            u@,
            ip,
            a,
            now,
        )),
        LoginStage::Finished => (action matches FlowAction::Finish(Err(e)) && login_context_outcome(
            Err(e),
            cfg,
            probe,
            local_ip,
        )),
        _ => false,
    }
}

/// The step after the login state is known (`state_error` is its `error`
/// field, `None` when the query failed): `ok` means already online; with
/// no portal known at all, check the internet first; else go on to the
/// challenge.
pub open spec fn after_state_step(
    cfg: AppConfig,
    probe: PortalProbe,
    state_error: Option<Seq<char>>,
    local_ip: Option<IpAddress>,
    now: nat,
    next: LoginStage,
    action: FlowAction,
) -> bool {
    if state_error == Some("ok"@) {
        next is Finished && (action matches FlowAction::Finish(Ok(t)) && t@ == "already online"@)
    } else if probe.portal_url is None && trim(cfg.portal_url@).len() == 0 {
        next == LoginStage::CheckingInternet(probe) && action is CheckInternet
    } else {
        challenge_step(cfg, probe, local_ip, now, next, action)
    }
}

/// The step after detection: with a portal settled, query the login state;
/// without one, go on as if the state query had failed.
pub open spec fn query_state_step(
    cfg: AppConfig,
    probe: PortalProbe,
    local_ip: Option<IpAddress>,
    now: nat,
    next: LoginStage,
    action: FlowAction,
) -> bool {
    match portal_url_for(cfg, probe) {
        Some(u) => next == LoginStage::QueryingState(probe) && (action matches FlowAction::Fetch(r)
            && request_view(r) == state_request_spec(u, now)),
        None => after_state_step(cfg, probe, None, local_ip, now, next, action),
    }
}

/// Nothing detected.
pub open spec fn no_findings() -> PortalProbe {
    PortalProbe { portal_url: None, ac_id: None, user_ip: None }
}

/// One step of a login with `password`: from `stage`, on `event`, at
/// `now` milliseconds, with the local address `local_ip`, the conversation
/// moves to `next` and asks for `action`.
pub open spec fn login_transition(
    cfg: AppConfig,
    password: Seq<char>,
    stage: LoginStage,
    event: LoginEvent,
    now: nat,
    local_ip: Option<IpAddress>,
    next: LoginStage,
    action: FlowAction,
) -> bool {
    match (stage, event) {
        (LoginStage::Start, LoginEvent::Begin) => if has_login_context_spec(cfg) {
            query_state_step(cfg, no_findings(), local_ip, now, next, action)
        } else {
            next is Detecting && action is Detect
        },
        (LoginStage::Detecting, LoginEvent::Detected(p)) => query_state_step(
            cfg,
            p,
            local_ip,
            now,
            next,
            action,
        ),
        (LoginStage::QueryingState(p), LoginEvent::StateReply(r)) => after_state_step(
            cfg,
            p,
            state_reply_error(r),
            local_ip,
            now,
            next,
            action,
        ),
        (LoginStage::CheckingInternet(p), LoginEvent::InternetChecked(online)) => if online {
            next is Finished && (action matches FlowAction::Finish(Ok(t)) && t@
                == "already online; portal will be detected when authentication page is reachable"@)
        } else {
            challenge_step(cfg, p, local_ip, now, next, action)
        },
        (LoginStage::Challenging(u, a, ip), LoginEvent::ChallengeReply(r)) => match r {
            Err(c) => next is Finished && action == FlowAction::Finish(
                Err(SrunError::Transport(c)),
            ),
            Ok(raw) => match challenge_of(raw@) {
                None => next is Finished && (action matches FlowAction::Finish(
                    Err(SrunError::ChallengeParse(c)),
                ) && opt_view(c) == body_failure(raw@)),
                Some(t) => if t.len() == 0 {
                    next is Finished && action == FlowAction::Finish(
                        Err(SrunError::ChallengeMissing),
                    )
                } else {
                    next is LoggingIn && (action matches FlowAction::Fetch(q) && request_view(q)
                        == login_request_spec(cfg, password, u@, t, a, ip, now))
                },
            },
        },
        (LoginStage::LoggingIn, LoginEvent::LoginReply(r)) => next is Finished && match r {
            Err(c) => action == FlowAction::Finish(Err(SrunError::Transport(c))),
            Ok(raw) => (action matches FlowAction::Finish(res) && login_reply_outcome(res, raw@)),
        },
        _ => false,
    }
}

/// A login request is only sent in answer to a challenge, and settings
/// that hold the whole login context never start a detection.
pub proof fn lemma_login_order(
    cfg: AppConfig,
    password: Seq<char>,
    stage: LoginStage,
    event: LoginEvent,
    now: nat,
    local_ip: Option<IpAddress>,
    next: LoginStage,
    action: FlowAction,
)
    requires
        login_transition(cfg, password, stage, event, now, local_ip, next, action),
    ensures
        next is LoggingIn ==> stage is Challenging && event is ChallengeReply,
        stage is Start && has_login_context_spec(cfg) ==> !(action is Detect),
{
}

/// A login request can be built from the challenge the event brings.
pub open spec fn login_challenge_admissible(
    cfg: AppConfig,
    password: Seq<char>,
    stage: LoginStage,
    event: LoginEvent,
) -> bool {
    stage matches LoginStage::Challenging(_, a, ip) ==> (event matches LoginEvent::ChallengeReply(
        Ok(raw),
    ) ==> (challenge_of(raw@) matches Some(t) ==> (t.len() > 0
        ==> login_request_admissible_spec(cfg, password, t, a, ip))))
}

/// The step to the challenge.
fn to_challenge(
    cfg: &AppConfig,
    probe: &PortalProbe,
    local_ip: Option<IpAddress>,
    now: u128,
) -> (res: (LoginStage, FlowAction))
    ensures
        challenge_step(*cfg, *probe, local_ip, now as nat, res.0, res.1),
{
    match resolve_login_context(cfg, probe, local_ip) {
        Ok((u, a, ip)) => {
            let r = challenge_request(cfg, u.as_str(), ip, a, now);
            (LoginStage::Challenging(u, a, ip), FlowAction::Fetch(r))
        },
        Err(e) => (LoginStage::Finished, FlowAction::Finish(Err(e))),
    }
}

/// The step after the login state is known.
fn after_state(
    cfg: &AppConfig,
    probe: PortalProbe,
    state_ok: bool,
    local_ip: Option<IpAddress>,
    now: u128,
) -> (res: (LoginStage, FlowAction))
    ensures
        forall|state_error: Option<Seq<char>>|
            (state_error == Some("ok"@)) == state_ok ==> after_state_step(
                *cfg,
                probe,
                state_error,
                local_ip,
                now as nat,
                res.0,
                res.1,
            ),
{
    if state_ok {
        return (LoginStage::Finished, FlowAction::Finish(Ok(string_of("already online"))));
    }
    let configured = trim_str(cfg.portal_url.as_str());
    if probe.portal_url.is_none() && configured.len() == 0 {
        return (LoginStage::CheckingInternet(probe), FlowAction::CheckInternet);
    }
    to_challenge(cfg, &probe, local_ip, now)
}

/// The step after detection.
fn query_state(cfg: &AppConfig, probe: PortalProbe, local_ip: Option<IpAddress>, now: u128) -> (res:
    (LoginStage, FlowAction))
    ensures
        query_state_step(*cfg, probe, local_ip, now as nat, res.0, res.1),
{
    let resolved = resolve_portal_url_with_probe(cfg, &probe);
    proof {
        lemma_portal_url_for(resolved, *cfg, probe);
    }
    match resolved {
        Ok(u) => {
            let r = state_request(u.as_str(), now);
            (LoginStage::QueryingState(probe), FlowAction::Fetch(r))
        },
        Err(_) => after_state(cfg, probe, false, local_ip, now),
    }
}

/// Whether a login-state reply says the client is online.
fn state_reply_is_ok(reply: &Result<String, String>) -> (res: bool)
    ensures
        res == (state_reply_error(*reply) == Some("ok"@)),
{
    match reply {
        Ok(raw) => match parse_login_state(raw.as_str()) {
            Ok(s) => {
                let e = chars_of(s.error.as_str());
                chars_eq_str(e.as_slice(), "ok")
            },
            Err(_) => false,
        },
        Err(_) => false,
    }
}

/// One step of a login with `password`.
pub fn login_step(
    cfg: &AppConfig,
    password: &str,
    stage: LoginStage,
    event: LoginEvent,
    now_ms: u128,
    local_ip: Option<IpAddress>,
) -> (res: (LoginStage, FlowAction))
    requires
        login_event_fits(stage, event),
        login_challenge_admissible(*cfg, password@, stage, event),
    ensures
        login_transition(*cfg, password@, stage, event, now_ms as nat, local_ip, res.0, res.1),
{
    match stage {
        LoginStage::Start => {
            if has_login_context(cfg) {
                query_state(cfg, empty_probe(), local_ip, now_ms)
            } else {
                (LoginStage::Detecting, FlowAction::Detect)
            }
        },
        LoginStage::Detecting => match event {
            LoginEvent::Detected(p) => query_state(cfg, p, local_ip, now_ms),
            _ => (LoginStage::Finished, FlowAction::Detect),
        },
        LoginStage::QueryingState(p) => match event {
            LoginEvent::StateReply(r) => {
                let ok = state_reply_is_ok(&r);
                after_state(cfg, p, ok, local_ip, now_ms)
            },
            _ => (LoginStage::Finished, FlowAction::Detect),
        },
        LoginStage::CheckingInternet(p) => match event {
            LoginEvent::InternetChecked(online) => {
                if online {
                    (
                        LoginStage::Finished,
                        FlowAction::Finish(
                            Ok(
                                string_of(
                                    "already online; portal will be detected when authentication page is reachable",
                                ),
                            ),
                        ),
                    )
                } else {
                    to_challenge(cfg, &p, local_ip, now_ms)
                }
            },
            _ => (LoginStage::Finished, FlowAction::Detect),
        },
        LoginStage::Challenging(u, a, ip) => match event {
            LoginEvent::ChallengeReply(Err(c)) => (
                LoginStage::Finished,
                FlowAction::Finish(Err(SrunError::Transport(c))),
            ),
            LoginEvent::ChallengeReply(Ok(raw)) => match parse_challenge(raw.as_str()) {
                Err(e) => (LoginStage::Finished, FlowAction::Finish(Err(e))),
                Ok(token) => {
                    let q = login_request(cfg, password, u.as_str(), token.as_str(), a, ip, now_ms);
                    (LoginStage::LoggingIn, FlowAction::Fetch(q))
                },
            },
            _ => (LoginStage::Finished, FlowAction::Detect),
        },
        LoginStage::LoggingIn => match event {
            LoginEvent::LoginReply(Err(c)) => (
                LoginStage::Finished,
                FlowAction::Finish(Err(SrunError::Transport(c))),
            ),
            LoginEvent::LoginReply(Ok(raw)) => (
                LoginStage::Finished,
                FlowAction::Finish(interpret_login_reply(raw.as_str())),
            ),
            _ => (LoginStage::Finished, FlowAction::Detect),
        },
        LoginStage::Finished => (LoginStage::Finished, FlowAction::Detect),
    }
}


/// One step of a login with `password`, for any event that fits the stage:
/// a challenge reply whose token cannot key the login cipher ends the login
/// with `ChallengeUnusable`; every other step is `login_step`'s.
pub fn login_step_checked(
    cfg: &AppConfig,
    password: &str,
    stage: LoginStage,
    event: LoginEvent,
    now_ms: u128,
    local_ip: Option<IpAddress>,
) -> (res: (LoginStage, FlowAction))
    requires
        login_event_fits(stage, event),
    ensures
        login_challenge_admissible(*cfg, password@, stage, event) ==> login_transition(
            *cfg,
            password@,
            stage,
            event,
            now_ms as nat,
            local_ip,
            res.0,
            res.1,
        ),
        !login_challenge_admissible(*cfg, password@, stage, event) ==> res == (
            LoginStage::Finished,
            FlowAction::Finish(Err(SrunError::ChallengeUnusable)),
        ),
{
    let mut admissible = true;
    if let LoginStage::Challenging(_, a, ip) = &stage {
        if let LoginEvent::ChallengeReply(Ok(raw)) = &event {
            if let Ok(token) = parse_challenge(raw.as_str()) {
                admissible = login_request_admissible(cfg, password, token.as_str(), *a, *ip);
            }
        }
    }
    if admissible {
        login_step(cfg, password, stage, event, now_ms, local_ip)
    } else {
        (LoginStage::Finished, FlowAction::Finish(Err(SrunError::ChallengeUnusable)))
    }
}

/// Where a logout conversation stands.
#[derive(Debug)]
pub enum LogoutStage {
    /// Not begun.
    Start,
    /// Waiting for detection before the state query.
    DetectingForState,
    /// Waiting for the login-state reply.
    QueryingState,
    /// Waiting for detection of the `ac_id`; carries the address.
    DetectingAcId(IpAddress),
    /// Waiting for detection of the portal; carries address and `ac_id`.
    DetectingPortal(IpAddress, u32),
    /// Waiting for the logout reply.
    LoggingOut,
    /// Over.
    Finished,
}

/// What came back from the last action of a logout conversation.
#[derive(Debug)]
pub enum LogoutEvent {
    /// The conversation begins.
    Begin,
    /// Detection found this (nothing, when it failed).
    Detected(PortalProbe),
    /// The login-state reply text, or why the request failed.
    StateReply(Result<String, String>),
    /// The logout reply text, or why the request failed.
    LogoutReply(Result<String, String>),
}

/// The event answers the action the stage was waiting on.
pub open spec fn logout_event_fits(stage: LogoutStage, event: LogoutEvent) -> bool {
    match stage {
        LogoutStage::Start => event is Begin,
        LogoutStage::DetectingForState => event is Detected,
        LogoutStage::QueryingState => event is StateReply,
        LogoutStage::DetectingAcId(_) => event is Detected,
        LogoutStage::DetectingPortal(..) => event is Detected,
        LogoutStage::LoggingOut => event is LogoutReply,
        LogoutStage::Finished => false,
    }
}

/// The login state a reply reads as: its `error` and its online address.
pub open spec fn state_reply_view(reply: Result<String, String>) -> Option<
    (Seq<char>, Option<IpAddress>),
> {
    match reply {
        Ok(raw) => match parse_login_state_spec(raw@) {
            Some(v) => Some((v.0, v.1)),
            None => None,
        },
        Err(_) => None,
    }
}

/// The step that sends the logout once the portal is settled from `probe`.
pub open spec fn send_logout_step(
    cfg: AppConfig,
    probe: PortalProbe,
    ip: IpAddress,
    ac_id: u32,
    now: nat,
    next: LogoutStage,
    action: FlowAction,
) -> bool {
    match portal_url_for(cfg, probe) {
        Some(u) => next is LoggingOut && (action matches FlowAction::Fetch(r) && request_view(r)
            == logout_request_spec(cfg, u, ac_id, ip, now)),
        None => next is Finished && (action matches FlowAction::Finish(Err(e))
            && crate::client::portal_url_outcome(Err(e), cfg, probe)),
    }
}

/// The step that settles the portal: detection runs unless the settings
/// hold the whole login context.
pub open spec fn portal_step(
    cfg: AppConfig,
    ip: IpAddress,
    ac_id: u32,
    now: nat,
    next: LogoutStage,
    action: FlowAction,
) -> bool {
    if has_login_context_spec(cfg) {
        send_logout_step(cfg, no_findings(), ip, ac_id, now, next, action)
    } else {
        next == LogoutStage::DetectingPortal(ip, ac_id) && action is Detect
    }
}

/// The address a logout names: the online address the state reply gives,
/// else the local address, else the configured one, else 0.0.0.0.
pub open spec fn logout_address(
    cfg: AppConfig,
    state: Option<(Seq<char>, Option<IpAddress>)>,
    local_ip: Option<IpAddress>,
) -> IpAddress {
    match state {
        Some((_, Some(ip))) => ip,
        _ => match local_ip {
            Some(ip) => ip,
            None => match cfg.user_ip {
                Some(ip) => ip,
                None => IpAddress::V4(0, 0, 0, 0),
            },
        },
    }
}

/// The step after the login state is known: `not_online` means already
/// offline; else the `ac_id` is the configured one, or is detected when
/// detection is on, or is missing.
pub open spec fn after_logout_state_step(
    cfg: AppConfig,
    state: Option<(Seq<char>, Option<IpAddress>)>,
    local_ip: Option<IpAddress>,
    now: nat,
    next: LogoutStage,
    action: FlowAction,
) -> bool {
    let ip = logout_address(cfg, state, local_ip);
    if state matches Some((e, _)) && e == "not_online"@ {
        next is Finished && (action matches FlowAction::Finish(Ok(t)) && t@ == "already offline"@)
    } else {
        match cfg.ac_id {
            Some(a) => portal_step(cfg, ip, a, now, next, action),
            None => if cfg.auto_query_acid {
                next == LogoutStage::DetectingAcId(ip) && action is Detect
            } else {
                next is Finished && action == FlowAction::Finish(
                    Err::<String, SrunError>(SrunError::AcIdRequired),
                )
            },
        }
    }
}

/// The step that queries the login state with the portal settled from
/// `probe` (going on without a state when it cannot be settled).
pub open spec fn logout_query_step(
    cfg: AppConfig,
    probe: PortalProbe,
    local_ip: Option<IpAddress>,
    now: nat,
    next: LogoutStage,
    action: FlowAction,
) -> bool {
    match portal_url_for(cfg, probe) {
        Some(u) => next is QueryingState && (action matches FlowAction::Fetch(r) && request_view(r)
            == state_request_spec(u, now)),
        None => after_logout_state_step(cfg, None, local_ip, now, next, action),
    }
}

/// One step of a logout: from `stage`, on `event`, at `now` milliseconds,
/// with the local address `local_ip`, the conversation moves to `next` and
/// asks for `action`.
pub open spec fn logout_transition(
    cfg: AppConfig,
    stage: LogoutStage,
    event: LogoutEvent,
    now: nat,
    local_ip: Option<IpAddress>,
    next: LogoutStage,
    action: FlowAction,
) -> bool {
    match (stage, event) {
        (LogoutStage::Start, LogoutEvent::Begin) => if has_login_context_spec(cfg) {
            logout_query_step(cfg, no_findings(), local_ip, now, next, action)
        } else {
            next is DetectingForState && action is Detect
        },
        (LogoutStage::DetectingForState, LogoutEvent::Detected(p)) => logout_query_step(
            cfg,
            p,
            local_ip,
            now,
            next,
            action,
        ),
        (LogoutStage::QueryingState, LogoutEvent::StateReply(r)) => after_logout_state_step(
            cfg,
            state_reply_view(r),
            local_ip,
            now,
            next,
            action,
        ),
        (LogoutStage::DetectingAcId(ip), LogoutEvent::Detected(p)) => match p.ac_id {
            Some(a) => portal_step(cfg, ip, a, now, next, action),
            None => next is Finished && action == FlowAction::Finish(
                Err::<String, SrunError>(SrunError::AcIdUndetected),
            ),
        },
        (LogoutStage::DetectingPortal(ip, a), LogoutEvent::Detected(p)) => send_logout_step(
            cfg,
            p,
            ip,
            a,
            now,
            next,
            action,
        ),
        (LogoutStage::LoggingOut, LogoutEvent::LogoutReply(r)) => next is Finished && match r {
            Err(c) => action == FlowAction::Finish(Err(SrunError::Transport(c))),
            Ok(raw) => (action matches FlowAction::Finish(res) && logout_reply_outcome(res, raw@)),
        },
        _ => false,
    }
}

/// Sends the logout with the portal settled from `probe`.
fn send_logout(cfg: &AppConfig, probe: &PortalProbe, ip: IpAddress, ac_id: u32, now: u128) -> (res:
    (LogoutStage, FlowAction))
    ensures
        send_logout_step(*cfg, *probe, ip, ac_id, now as nat, res.0, res.1),
{
    let resolved = resolve_portal_url_with_probe(cfg, probe);
    proof {
        lemma_portal_url_for(resolved, *cfg, *probe);
    }
    match resolved {
        Ok(u) => (LogoutStage::LoggingOut, FlowAction::Fetch(logout_request(cfg, u.as_str(), ac_id, ip, now))),
        Err(e) => (LogoutStage::Finished, FlowAction::Finish(Err(e))),
    }
}

/// Settles the portal for the logout.
fn settle_portal(cfg: &AppConfig, ip: IpAddress, ac_id: u32, now: u128) -> (res: (
    LogoutStage,
    FlowAction,
))
    ensures
        portal_step(*cfg, ip, ac_id, now as nat, res.0, res.1),
{
    if has_login_context(cfg) {
        send_logout(cfg, &empty_probe(), ip, ac_id, now)
    } else {
        (LogoutStage::DetectingPortal(ip, ac_id), FlowAction::Detect)
    }
}

/// The login state a reply reads as.
fn read_state_reply(reply: &Result<String, String>) -> (res: Option<(bool, Option<IpAddress>)>)
    ensures
        match res {
            Some((off, ip)) => state_reply_view(*reply) matches Some((e, i)) && off == (e
                == "not_online"@) && ip == i,
            None => state_reply_view(*reply) is None,
        },
{
    match reply {
        Ok(raw) => match parse_login_state(raw.as_str()) {
            Ok(s) => {
                let e = chars_of(s.error.as_str());
                Some((chars_eq_str(e.as_slice(), "not_online"), s.online_ip))
            },
            Err(_) => None,
        },
        Err(_) => None,
    }
}

/// The step after the login state is known.
fn after_logout_state(
    cfg: &AppConfig,
    state: Option<(bool, Option<IpAddress>)>,
    local_ip: Option<IpAddress>,
    now: u128,
) -> (res: (LogoutStage, FlowAction))
    ensures
        forall|sv: Option<(Seq<char>, Option<IpAddress>)>|
            (match state {
                Some((off, ip)) => sv matches Some((e, i)) && off == (e == "not_online"@) && ip
                    == i,
                None => sv is None,
            }) ==> after_logout_state_step(*cfg, sv, local_ip, now as nat, res.0, res.1),
{
    if let Some((true, _)) = state {
        return (LogoutStage::Finished, FlowAction::Finish(Ok(string_of("already offline"))));
    }
    let ip = match state {
        Some((_, Some(i))) => i,
        _ => match effective_user_ip(cfg, local_ip) {
            Ok(i) => i,
            Err(_) => IpAddress::V4(0, 0, 0, 0),
        },
    };
    match cfg.ac_id {
        Some(a) => settle_portal(cfg, ip, a, now),
        None => if cfg.auto_query_acid {
            (LogoutStage::DetectingAcId(ip), FlowAction::Detect)
        } else {
            (LogoutStage::Finished, FlowAction::Finish(Err(SrunError::AcIdRequired)))
        },
    }
}

/// The state query of a logout, with the portal settled from `probe`.
fn logout_query(cfg: &AppConfig, probe: &PortalProbe, local_ip: Option<IpAddress>, now: u128) -> (res:
    (LogoutStage, FlowAction))
    ensures
        logout_query_step(*cfg, *probe, local_ip, now as nat, res.0, res.1),
{
    let resolved = resolve_portal_url_with_probe(cfg, probe);
    proof {
        lemma_portal_url_for(resolved, *cfg, *probe);
    }
    match resolved {
        Ok(u) => (LogoutStage::QueryingState, FlowAction::Fetch(state_request(u.as_str(), now))),
        Err(_) => after_logout_state(cfg, None, local_ip, now),
    }
}

/// One step of a logout.
pub fn logout_step(
    cfg: &AppConfig,
    stage: LogoutStage,
    event: LogoutEvent,
    now_ms: u128,
    local_ip: Option<IpAddress>,
) -> (res: (LogoutStage, FlowAction))
    requires
        logout_event_fits(stage, event),
    ensures
        logout_transition(*cfg, stage, event, now_ms as nat, local_ip, res.0, res.1),
{
    match stage {
        LogoutStage::Start => if has_login_context(cfg) {
            logout_query(cfg, &empty_probe(), local_ip, now_ms)
        } else {
            (LogoutStage::DetectingForState, FlowAction::Detect)
        },
        LogoutStage::DetectingForState => match event {
            LogoutEvent::Detected(p) => logout_query(cfg, &p, local_ip, now_ms),
            _ => (LogoutStage::Finished, FlowAction::Detect),
        },
        LogoutStage::QueryingState => match event {
            LogoutEvent::StateReply(r) => {
                let st = read_state_reply(&r);
                after_logout_state(cfg, st, local_ip, now_ms)
            },
            _ => (LogoutStage::Finished, FlowAction::Detect),
        },
        LogoutStage::DetectingAcId(ip) => match event {
            LogoutEvent::Detected(p) => match p.ac_id {
                Some(a) => settle_portal(cfg, ip, a, now_ms),
                None => (LogoutStage::Finished, FlowAction::Finish(Err(SrunError::AcIdUndetected))),
            },
            _ => (LogoutStage::Finished, FlowAction::Detect),
        },
        LogoutStage::DetectingPortal(ip, a) => match event {
            LogoutEvent::Detected(p) => send_logout(cfg, &p, ip, a, now_ms),
            _ => (LogoutStage::Finished, FlowAction::Detect),
        },
        LogoutStage::LoggingOut => match event {
            LogoutEvent::LogoutReply(Err(c)) => (
                LogoutStage::Finished,
                FlowAction::Finish(Err(SrunError::Transport(c))),
            ),
            LogoutEvent::LogoutReply(Ok(raw)) => (
                LogoutStage::Finished,
                FlowAction::Finish(interpret_logout_reply(raw.as_str())),
            ),
            _ => (LogoutStage::Finished, FlowAction::Detect),
        },
        LogoutStage::Finished => (LogoutStage::Finished, FlowAction::Detect),
    }
}

} // verus!
