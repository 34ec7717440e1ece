//! The online status the portal reports, and the bookkeeping of the auto
//! reconnect watcher: what each round concludes, which conclusions are
//! announced, and how long to wait before the next round.
use vstd::prelude::*;
use crate::config::AppConfig;
use crate::error::{error_text, SrunError};
use crate::response::{body_failure, parse_login_state, parse_login_state_spec};
use crate::text::{append_str, chars_of, contains, contains_str, prefixed, string_from, string_of};
use crate::url::{chars_eq_str, opt_view};

verus! {

/// What the portal says of the client.
#[derive(Clone, Copy, Debug, PartialEq, Eq, Structural)]
pub enum PortalOnlineStatus {
    Online,
    Offline,
    Unknown,
}

/// The status a login-state `error` field gives: `ok` is online,
/// `not_online` is offline, anything else cannot be told.
pub open spec fn status_of_error(error: Seq<char>) -> PortalOnlineStatus {
    if error == "ok"@ {
        PortalOnlineStatus::Online
    } else if error == "not_online"@ {
        PortalOnlineStatus::Offline
    } else {
        PortalOnlineStatus::Unknown
    }
}

/// `res` is the status a login-state reply gives: a failed request is that
/// failure, an unreadable reply a parse failure, else the status of its
/// `error` field.
pub open spec fn online_status_outcome(
    res: Result<PortalOnlineStatus, SrunError>,
    reply: Result<String, String>,
) -> bool {
    match reply {
        Err(c) => res == Err::<PortalOnlineStatus, SrunError>(SrunError::Transport(c)),
        Ok(raw) => match parse_login_state_spec(raw@) {
            None => res matches Err(SrunError::LoginStateParse(c)) && opt_view(c) == body_failure(raw@),
            Some(v) => res == Ok::<PortalOnlineStatus, SrunError>(status_of_error(v.0)),
        },
    }
}

/// Reads the online status from a login-state reply.
pub fn online_status_of(reply: Result<String, String>) -> (res: Result<
    PortalOnlineStatus,
    SrunError,
>)
    ensures
        online_status_outcome(res, reply),
{
    match reply {
        Err(c) => Err(SrunError::Transport(c)),
        Ok(raw) => match parse_login_state(raw.as_str()) {
            Err(e) => Err(e),
            Ok(s) => {
                let e = chars_of(s.error.as_str());
                if chars_eq_str(e.as_slice(), "ok") {
                    Ok(PortalOnlineStatus::Online)
                } else if chars_eq_str(e.as_slice(), "not_online") {
                    Ok(PortalOnlineStatus::Offline)
                } else {
                    Ok(PortalOnlineStatus::Unknown)
                }
            },
        },
    }
}

/// Whether the client is online by a login-state reply; `None` when the
/// reply did not come or does not read, and the internet check decides.
pub fn online_from_state_reply(reply: &Result<String, String>) -> (res: Option<bool>)
    ensures
        res == (match *reply {
            Ok(raw) => match parse_login_state_spec(raw@) {
                Some(v) => Some(v.0 == "ok"@),
                None => None,
            },
            Err(_) => None,
        }),
{
    match reply {
        Ok(raw) => match parse_login_state(raw.as_str()) {
            Ok(s) => {
                let e = chars_of(s.error.as_str());
                Some(chars_eq_str(e.as_slice(), "ok"))
            },
            Err(_) => None,
        },
        Err(_) => None,
    }
}

/// Online as a yes/no: known only when the portal said online or offline.
pub open spec fn status_option(status: Result<PortalOnlineStatus, SrunError>) -> Option<bool> {
    match status {
        Ok(PortalOnlineStatus::Online) => Some(true),
        Ok(PortalOnlineStatus::Offline) => Some(false),
        _ => None,
    }
}

/// Online as a yes/no, when known.
pub fn online_status_to_option(status: &Result<PortalOnlineStatus, SrunError>) -> (res: Option<
    bool,
>)
    ensures
        res == status_option(*status),
{
    match status {
        Ok(PortalOnlineStatus::Online) => Some(true),
        Ok(PortalOnlineStatus::Offline) => Some(false),
        _ => None,
    }
}

/// The status line a status check shows.
pub open spec fn status_check_text(status: Result<PortalOnlineStatus, SrunError>) -> Seq<char> {
    match status {
        Ok(PortalOnlineStatus::Online) => "online"@,
        Ok(PortalOnlineStatus::Offline) => "offline"@,
        Ok(PortalOnlineStatus::Unknown) => "unknown：Portal 返回了无法判定的状态，未执行重连"@,
        Err(e) => "Portal 状态接口失败："@ + error_text(e),
    }
}

/// The status line of a status check and whether the client is online.
pub fn status_check_report(status: &Result<PortalOnlineStatus, SrunError>) -> (res: (
    String,
    Option<bool>,
))
    ensures
        res.0@ == status_check_text(*status),
        res.1 == status_option(*status),
{
    let text = match status {
        Ok(PortalOnlineStatus::Online) => string_of("online"),
        Ok(PortalOnlineStatus::Offline) => string_of("offline"),
        Ok(PortalOnlineStatus::Unknown) => string_of("unknown：Portal 返回了无法判定的状态，未执行重连"),
        Err(e) => {
            let m = e.message();
            prefixed("Portal 状态接口失败：", m.as_str())
        },
    };
    (text, online_status_to_option(status))
}

/// The report of a logout: its message and what the second status check
/// found.
pub open spec fn logout_report_text(
    message: Seq<char>,
    status: Result<PortalOnlineStatus, SrunError>,
) -> Seq<char> {
    message + match status {
        Ok(PortalOnlineStatus::Online) => "; 断开请求已返回，但二次检测仍显示在线"@,
        Ok(PortalOnlineStatus::Offline) => "; 二次检测已确认离线"@,
        Ok(PortalOnlineStatus::Unknown) => "; Portal 返回了无法判定的状态"@,
        Err(e) => "; 二次状态检测失败："@ + error_text(e),
    }
}

/// Writes the report of a logout.
pub fn logout_report(message: &str, status: &Result<PortalOnlineStatus, SrunError>) -> (res:
    String)
    ensures
        res@ == logout_report_text(message@, *status),
{
    let mut v = chars_of(message);
    match status {
        Ok(PortalOnlineStatus::Online) => append_str(&mut v, "; 断开请求已返回，但二次检测仍显示在线"),
        Ok(PortalOnlineStatus::Offline) => append_str(&mut v, "; 二次检测已确认离线"),
        Ok(PortalOnlineStatus::Unknown) => append_str(&mut v, "; Portal 返回了无法判定的状态"),
        Err(e) => {
            append_str(&mut v, "; 二次状态检测失败：");
            let m = e.message();
            append_str(&mut v, m.as_str());
        },
    }
    string_from(v.as_slice())
}

/// A login needs a password.
pub fn require_password(password: &str) -> (res: Result<(), SrunError>)
    ensures
        res is Ok <==> password@.len() > 0,
        res is Err ==> res == Err::<(), SrunError>(SrunError::PasswordRequired),
{
    let v = chars_of(password);
    if v.len() == 0 {
        Err(SrunError::PasswordRequired)
    } else {
        Ok(())
    }
}


/// How a round of the auto reconnect watcher ended.
#[derive(Clone, Copy, Debug, PartialEq, Eq, Structural)]
pub enum ReconnectCycleState {
    Online,
    PausedForEasyConnect,
    WaitingForPortal,
    WaitingForNetwork,
}

/// What a round does once it knows the status.
#[derive(Debug)]
pub enum RoundPlan {
    /// The round ends in this state with this message.
    Conclude(ReconnectCycleState, String),
    /// Log in; first detect the `ac_id` when asked to.
    LogIn(bool),
}

/// The round paused because EasyConnect is up.
pub fn easyconnect_pause() -> (res: (ReconnectCycleState, String))
    ensures
        res.0 == ReconnectCycleState::PausedForEasyConnect,
        res.1@ == "检测到 EasyConnect 已连接，校园网自动重连已暂停"@,
{
    (ReconnectCycleState::PausedForEasyConnect, string_of("检测到 EasyConnect 已连接，校园网自动重连已暂停"))
}

/// How a round of the watcher opens.
#[derive(Debug)]
pub enum RoundOpening {
    /// The watcher was asked to stop: no round starts.
    Stop,
    /// The round ends at once in this state with this message, before any
    /// request is made.
    Pause(ReconnectCycleState, String),
    /// The round goes on: refresh the portal settings, then ask the status.
    Proceed,
}

/// How a round opens: a stop request ends the watcher; an active
/// EasyConnect adapter pauses the round; otherwise the round goes on.
pub open spec fn round_opening_fits(opening: RoundOpening, stop: bool, easyconnect_active: bool) -> bool {
    if stop {
        opening is Stop
    } else if easyconnect_active {
        opening matches RoundOpening::Pause(s, m) && s == ReconnectCycleState::PausedForEasyConnect
            && m@ == "检测到 EasyConnect 已连接，校园网自动重连已暂停"@
    } else {
        opening is Proceed
    }
}

/// Decides how a round opens.
pub fn open_round(stop: bool, easyconnect_active: bool) -> (res: RoundOpening)
    ensures
        round_opening_fits(res, stop, easyconnect_active),
{
    if stop {
        RoundOpening::Stop
    } else if easyconnect_active {
        let (state, message) = easyconnect_pause();
        RoundOpening::Pause(state, message)
    } else {
        RoundOpening::Proceed
    }
}

/// What a round does with the status: online ends the round; offline logs
/// in (detecting the `ac_id` first when it is missing and detection is
/// on); an undecidable status or a failed query ends the round waiting for
/// the portal.
pub open spec fn round_plan_fits(
    plan: RoundPlan,
    cfg: AppConfig,
    status: Result<PortalOnlineStatus, SrunError>,
) -> bool {
    match status {
        Ok(PortalOnlineStatus::Online) => plan matches RoundPlan::Conclude(s, m) && s
            == ReconnectCycleState::Online && m@ == "online"@,
        Ok(PortalOnlineStatus::Offline) => plan == RoundPlan::LogIn(
            cfg.ac_id is None && cfg.auto_query_acid,
        ),
        Ok(PortalOnlineStatus::Unknown) => plan matches RoundPlan::Conclude(s, m) && s
            == ReconnectCycleState::WaitingForPortal && m@
            == "Portal 返回了无法判定的状态，自动重连已暂停本轮"@,
        Err(e) => plan matches RoundPlan::Conclude(s, m) && s
            == ReconnectCycleState::WaitingForPortal && m@ == "Portal 状态接口失败，自动重连已暂停本轮："@
            + error_text(e),
    }
}

/// Decides what a round does with the status.
pub fn plan_after_status(cfg: &AppConfig, status: &Result<PortalOnlineStatus, SrunError>) -> (res:
    RoundPlan)
    ensures
        round_plan_fits(res, *cfg, *status),
{
    match status {
        Ok(PortalOnlineStatus::Online) => RoundPlan::Conclude(
            ReconnectCycleState::Online,
            string_of("online"),
        ),
        Ok(PortalOnlineStatus::Offline) => RoundPlan::LogIn(
            cfg.ac_id.is_none() && cfg.auto_query_acid,
        ),
        Ok(PortalOnlineStatus::Unknown) => RoundPlan::Conclude(
            ReconnectCycleState::WaitingForPortal,
            string_of("Portal 返回了无法判定的状态，自动重连已暂停本轮"),
        ),
        Err(e) => {
            let m = e.message();
            RoundPlan::Conclude(
                ReconnectCycleState::WaitingForPortal,
                prefixed("Portal 状态接口失败，自动重连已暂停本轮：", m.as_str()),
            )
        },
    }
}

/// A failure that says the chosen login outlet is gone.
pub open spec fn is_bind_ip_fallback_spec(message: Seq<char>) -> bool {
    contains(message, "[bind_ip_fallback_unavailable]"@)
}

/// Whether a failure says the chosen login outlet is gone.
pub fn is_bind_ip_fallback_error(message: &str) -> (res: bool)
    ensures
        res == is_bind_ip_fallback_spec(message@),
{
    let v = chars_of(message);
    contains_str(v.as_slice(), "[bind_ip_fallback_unavailable]")
}

/// What the watcher remembers of the last round: its state, its message
/// when it succeeded and its failure when it failed.
#[derive(Clone, Debug)]
pub struct ReconnectMonitor {
    pub last_state: Option<ReconnectCycleState>,
    pub last_message: Option<String>,
    pub last_error: Option<String>,
}

/// A status line for the user.
#[derive(Clone, Debug)]
pub struct StatusUpdate {
    pub status: String,
    pub online: Option<bool>,
    pub last_reconnect_at_ms: Option<u64>,
}

/// A watcher that has seen no round.
pub fn new_monitor() -> (res: ReconnectMonitor)
    ensures
        res.last_state is None,
        res.last_message is None,
        res.last_error is None,
{
    ReconnectMonitor { last_state: None, last_message: None, last_error: None }
}

/// The content of a watcher's memory.
pub open spec fn monitor_view(m: ReconnectMonitor) -> (
    Option<ReconnectCycleState>,
    Option<Seq<char>>,
    Option<Seq<char>>,
) {
    (m.last_state, opt_view(m.last_message), opt_view(m.last_error))
}

/// What recording a round does: a round that ended is announced when its
/// state or message changed or the last round failed; a failed round is
/// announced unless the last state was online and the failure is the same
/// as before. `update` is the announcement, `after` the memory afterwards.
pub open spec fn records_round(
    before: (Option<ReconnectCycleState>, Option<Seq<char>>, Option<Seq<char>>),
    round: Result<(ReconnectCycleState, String, Option<u64>), SrunError>,
    after: (Option<ReconnectCycleState>, Option<Seq<char>>, Option<Seq<char>>),
    update: Option<StatusUpdate>,
) -> bool {
    match round {
        Ok((state, message, at)) => {
            let emit = before.0 != Some(state) || before.1 != Some(message@) || before.2 is Some;
            &&& after == (Some(state), Some(message@), None::<Seq<char>>)
            &&& emit <==> update is Some
            &&& update matches Some(u) ==> u.status@ == "Auto reconnect: "@ + message@ && u.online
                == (if state == ReconnectCycleState::Online {
                Some(true)
            } else {
                None
            }) && u.last_reconnect_at_ms == at
        },
        Err(e) => {
            let msg = error_text(e);
            let network = is_bind_ip_fallback_spec(msg);
            let state = if network {
                ReconnectCycleState::WaitingForNetwork
            } else {
                ReconnectCycleState::WaitingForPortal
            };
            let emit = before.0 != Some(ReconnectCycleState::Online) || before.2 != Some(msg);
            &&& after == (Some(state), None::<Seq<char>>, Some(msg))
            &&& emit <==> update is Some
            &&& update matches Some(u) ==> u.status@ == (if network {
                "登录出口不可用，自动重连已暂停："@ + msg
            } else {
                "Auto reconnect failed: "@ + msg
            }) && u.online is None && u.last_reconnect_at_ms is None
        },
    }
}

/// Whether two optional texts are equal.
fn same_opt_view(a: &Option<String>, b: &String) -> (res: bool)
    ensures
        res == (opt_view(*a) == Some(b@)),
{
    match a {
        Some(x) => {
            let xv = chars_of(x.as_str());
            let bv = chars_of(b.as_str());
            crate::netif::same_chars(xv.as_slice(), bv.as_slice())
        },
        None => false,
    }
}

/// Records a round in the watcher's memory and says what to announce.
pub fn record_round(
    monitor: &mut ReconnectMonitor,
    round: Result<(ReconnectCycleState, String, Option<u64>), SrunError>,
) -> (res: Option<StatusUpdate>)
    ensures
        records_round(monitor_view(*old(monitor)), round, monitor_view(*final(monitor)), res),
{
    match round {
        Ok((state, message, at)) => {
            let emit = monitor.last_state != Some(state) || !same_opt_view(
                &monitor.last_message,
                &message,
            ) || monitor.last_error.is_some();
            let status = prefixed("Auto reconnect: ", message.as_str());
            monitor.last_state = Some(state);
            monitor.last_message = Some(message);
            monitor.last_error = None;
            if emit {
                Some(
                    StatusUpdate {
                        status,
                        online: if state == ReconnectCycleState::Online {
                            Some(true)
                        } else {
                            None
                        },
                        last_reconnect_at_ms: at,
                    },
                )
            } else {
                None
            }
        },
        Err(e) => {
            let msg = e.message();
            let network = is_bind_ip_fallback_error(msg.as_str());
            let state = if network {
                ReconnectCycleState::WaitingForNetwork
            } else {
                ReconnectCycleState::WaitingForPortal
            };
            let emit = monitor.last_state != Some(ReconnectCycleState::Online) || !same_opt_view(
                &monitor.last_error,
                &msg,
            );
            let status = if network {
                prefixed("登录出口不可用，自动重连已暂停：", msg.as_str())
            } else {
                prefixed("Auto reconnect failed: ", msg.as_str())
            };
            monitor.last_state = Some(state);
            monitor.last_message = None;
            monitor.last_error = Some(msg);
            if emit {
                Some(StatusUpdate { status, online: None, last_reconnect_at_ms: None })
            } else {
                None
            }
        },
    }
}

/// Seconds to the next round: the online check interval (at least 60)
/// after a round that ended online, else the retry interval (at least 15).
pub open spec fn round_delay(cfg: AppConfig, last_state: Option<ReconnectCycleState>) -> u64 {
    if last_state == Some(ReconnectCycleState::Online) {
        if cfg.online_check_seconds >= 60 {
            cfg.online_check_seconds
        } else {
            60
        }
    } else {
        if cfg.retry_seconds >= 15 {
            cfg.retry_seconds
        } else {
            15
        }
    }
}

/// Seconds to wait before the next round.
pub fn next_round_delay_secs(cfg: &AppConfig, monitor: &ReconnectMonitor) -> (res: u64)
    ensures
        res == round_delay(*cfg, monitor.last_state),
{
    if monitor.last_state == Some(ReconnectCycleState::Online) {
        let d = crate::config::default_online_check_seconds();
        if cfg.online_check_seconds >= d {
            cfg.online_check_seconds
        } else {
            d
        }
    } else {
        if cfg.retry_seconds >= 15 {
            cfg.retry_seconds
        } else {
            15
        }
    }
}

/// A round that ends as the last one did is not announced again.
pub proof fn lemma_repeated_round_is_quiet(
    before: (Option<ReconnectCycleState>, Option<Seq<char>>, Option<Seq<char>>),
    mid: (Option<ReconnectCycleState>, Option<Seq<char>>, Option<Seq<char>>),
    after: (Option<ReconnectCycleState>, Option<Seq<char>>, Option<Seq<char>>),
    state: ReconnectCycleState,
    message: String,
    at1: Option<u64>,
    at2: Option<u64>,
    first: Option<StatusUpdate>,
    second: Option<StatusUpdate>,
)
    requires
        records_round(before, Ok((state, message, at1)), mid, first),
        records_round(mid, Ok((state, message, at2)), after, second),
    ensures
        second is None,
        after == mid,
{
}

/// The reconnect policy: while online a round only checks the status and
/// never logs in; offline it logs in at once; after a failed round the next
/// comes after the retry interval (at least 15 s), and after a round that
/// ended online after the online check interval (at least 60 s).
pub proof fn lemma_reconnect_policy(
    cfg: AppConfig,
    plan: RoundPlan,
    status: Result<PortalOnlineStatus, SrunError>,
    before: (Option<ReconnectCycleState>, Option<Seq<char>>, Option<Seq<char>>),
    round: Result<(ReconnectCycleState, String, Option<u64>), SrunError>,
    after: (Option<ReconnectCycleState>, Option<Seq<char>>, Option<Seq<char>>),
    update: Option<StatusUpdate>,
)
    requires
        round_plan_fits(plan, cfg, status),
        records_round(before, round, after, update),
    ensures
        status == Ok::<PortalOnlineStatus, SrunError>(PortalOnlineStatus::Online) ==> plan is Conclude,
        status == Ok::<PortalOnlineStatus, SrunError>(PortalOnlineStatus::Offline) ==> plan is LogIn,
        round is Err ==> round_delay(cfg, after.0) == (if cfg.retry_seconds >= 15 {
            cfg.retry_seconds
        } else {
            15
        }),
        round matches Ok((state, _, _)) && state == ReconnectCycleState::Online ==> round_delay(
            cfg,
            after.0,
        ) == (if cfg.online_check_seconds >= 60 {
            cfg.online_check_seconds
        } else {
            60
        }),
{
}

/// What the watcher does while it waits for the next round.
#[derive(Debug, PartialEq, Eq, Structural)]
pub enum WaitStep {
    /// Sleep this many seconds, then look again.
    Sleep(u64),
    /// The wait is over: open the next round.
    NextRound,
    /// The watcher was asked to stop: end it.
    Quit,
}

/// The watcher waits in steps of 5 seconds, looking for a stop request
/// before each: after `slept` of `interval` seconds it opens the next round
/// when the interval is used up, ends when asked to stop, and sleeps again
/// otherwise.
pub open spec fn wait_step_fits(step: WaitStep, stop: bool, slept: u64, interval: u64) -> bool {
    if slept >= interval {
        step == WaitStep::NextRound
    } else if stop {
        step == WaitStep::Quit
    } else {
        step == WaitStep::Sleep(5)
    }
}

/// Decides the watcher's next step while it waits.
pub fn wait_step(stop: bool, slept_secs: u64, interval_secs: u64) -> (res: WaitStep)
    ensures
        wait_step_fits(res, stop, slept_secs, interval_secs),
{
    if slept_secs >= interval_secs {
        WaitStep::NextRound
    } else if stop {
        WaitStep::Quit
    } else {
        WaitStep::Sleep(5)
    }
}

/// Once a stop is requested the watcher sleeps no more and opens no new
/// round: the wait either ends it or hands over to a round opening that
/// stops. Every sleep is 5 seconds, so a stop is seen at most 5 seconds
/// after it was requested.
pub proof fn lemma_stop_ends_watcher(
    slept: u64,
    interval: u64,
    easyconnect_active: bool,
    step: WaitStep,
    opening: RoundOpening,
    any_stop: bool,
    any_step: WaitStep,
)
    requires
        wait_step_fits(step, true, slept, interval),
        round_opening_fits(opening, true, easyconnect_active),
        wait_step_fits(any_step, any_stop, slept, interval),
    ensures
        step == WaitStep::Quit || step == WaitStep::NextRound,
        opening is Stop,
        any_step matches WaitStep::Sleep(d) ==> d == 5 && !any_stop,
{
}

/// A stop request starts no round. While EasyConnect is up a round makes no
/// request at all: it ends at once, paused for EasyConnect, and the next
/// round comes after the retry interval (at least 15 s). Otherwise the
/// round goes on to the portal.
pub proof fn lemma_easyconnect_round(
    cfg: AppConfig,
    stop: bool,
    easyconnect_active: bool,
    opening: RoundOpening,
    before: (Option<ReconnectCycleState>, Option<Seq<char>>, Option<Seq<char>>),
    after: (Option<ReconnectCycleState>, Option<Seq<char>>, Option<Seq<char>>),
    update: Option<StatusUpdate>,
)
    requires
        round_opening_fits(opening, stop, easyconnect_active),
        opening matches RoundOpening::Pause(s, m) ==> records_round(
            before,
            Ok((s, m, None::<u64>)),
            after,
            update,
        ),
    ensures
        stop ==> opening is Stop,
        !stop && easyconnect_active ==> (opening matches RoundOpening::Pause(s, _) && s
            == ReconnectCycleState::PausedForEasyConnect) && after.0 == Some(
            ReconnectCycleState::PausedForEasyConnect,
        ) && round_delay(cfg, after.0) == (if cfg.retry_seconds >= 15 {
            cfg.retry_seconds
        } else {
            15
        }),
        !stop && !easyconnect_active ==> opening is Proceed,
{
}

/// The watcher never waits less than 15 seconds, and never less than 60
/// seconds while online.
pub proof fn lemma_round_delay_floor(cfg: AppConfig, last_state: Option<ReconnectCycleState>)
    ensures
        round_delay(cfg, last_state) >= 15,
        last_state == Some(ReconnectCycleState::Online) ==> round_delay(cfg, last_state) >= 60,
{
}


/// Whole seconds left of a cooldown of `cooldown_ns` nanoseconds after
/// `elapsed_ns`, at least one.
pub open spec fn wait_secs(cooldown_ns: u128, elapsed_ns: u128) -> u128 {
    let w = (cooldown_ns - elapsed_ns) / 1_000_000_000;
    if w >= 1 {
        w as u128
    } else {
        1
    }
}

/// The refusal of a request made within the cooldown since the last one:
/// `None` when there was no last request or the cooldown has passed, else
/// the whole seconds left (at least one).
pub fn cooldown_wait(elapsed_ns: Option<u128>, cooldown_ns: u128) -> (res: Option<u128>)
    ensures
        res == (match elapsed_ns {
            Some(e) => if e < cooldown_ns {
                Some(wait_secs(cooldown_ns, e))
            } else {
                None
            },
            None => None,
        }),
{
    match elapsed_ns {
        Some(e) => if e < cooldown_ns {
            let w = (cooldown_ns - e) / 1_000_000_000;
            Some(
                if w >= 1 {
                    w
                } else {
                    1
                },
            )
        } else {
            None
        },
        None => None,
    }
}

/// The refusal shown when a login or logout comes too soon after the last.
pub fn auth_too_soon_text(wait: u128) -> (res: String)
    ensures
        res@ == "认证请求过于频繁，请 "@ + crate::text::decimal(wait as nat) + " 秒后再试"@,
{
    let mut v = chars_of("认证请求过于频繁，请 ");
    let d = crate::text::decimal_string(wait);
    append_str(&mut v, d.as_str());
    append_str(&mut v, " 秒后再试");
    string_from(v.as_slice())
}

/// The refusal shown when a command comes too soon after the last.
pub fn command_too_soon_text(wait: u128) -> (res: String)
    ensures
        res@ == "操作过于频繁，请 "@ + crate::text::decimal(wait as nat) + " 秒后再试"@,
{
    let mut v = chars_of("操作过于频繁，请 ");
    let d = crate::text::decimal_string(wait);
    append_str(&mut v, d.as_str());
    append_str(&mut v, " 秒后再试");
    string_from(v.as_slice())
}

/// What the logout phase of a reconnect self-test reports: the logout's
/// message, or its failure.
pub fn self_test_logout_note(result: &Result<String, SrunError>) -> (res: String)
    ensures
        res@ == (match *result {
            Ok(m) => m@,
            Err(e) => "退出阶段返回："@ + error_text(e),
        }),
{
    match result {
        Ok(m) => m.clone(),
        Err(e) => {
            let m = e.message();
            prefixed("退出阶段返回：", m.as_str())
        },
    }
}

/// The progress line after the logout phase of a self-test.
pub fn self_test_progress(note: &str) -> (res: String)
    ensures
        res@ == "重连自测："@ + note@ + "；开始直接登录验证"@,
{
    let mut v = chars_of("重连自测：");
    append_str(&mut v, note);
    append_str(&mut v, "；开始直接登录验证");
    string_from(v.as_slice())
}

/// The line reporting a finished self-test.
pub fn self_test_done(message: &str) -> (res: String)
    ensures
        res@ == "重连自测完成："@ + message@,
{
    prefixed("重连自测完成：", message)
}

/// The line reporting a failed self-test after auto reconnect was resumed.
pub fn self_test_recovered(failure: &str) -> (res: String)
    ensures
        res@ == "重连自测失败，自动重连已恢复："@ + failure@,
{
    prefixed("重连自测失败，自动重连已恢复：", failure)
}

/// The failure of a self-test whose auto reconnect could not be resumed.
pub fn self_test_unrecovered(failure: &str, restart: &SrunError) -> (res: String)
    ensures
        res@ == failure@ + "; 自动重连恢复失败："@ + error_text(*restart),
{
    let mut v = chars_of(failure);
    append_str(&mut v, "; 自动重连恢复失败：");
    let m = restart.message();
    append_str(&mut v, m.as_str());
    string_from(v.as_slice())
}

/// What a logout command reports: with auto reconnect on, the message says
/// the watcher goes on and the online state is left unknown.
pub fn logout_command_report(message: &str, online: Option<bool>, auto_reconnect: bool) -> (res: (
    String,
    Option<bool>,
))
    ensures
        res.0@ == (if auto_reconnect {
            message@ + "; 自动重连已继续守护"@
        } else {
            message@
        }),
        res.1 == (if auto_reconnect {
            None
        } else {
            online
        }),
{
    if auto_reconnect {
        let mut v = chars_of(message);
        append_str(&mut v, "; 自动重连已继续守护");
        (string_from(v.as_slice()), None)
    } else {
        let v = chars_of(message);
        (string_from(v.as_slice()), online)
    }
}

} // verus!
