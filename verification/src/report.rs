//! The diagnosis report: what it concludes from the portal status and the
//! watcher, and the text that lists the login context, the network path,
//! the adapters, the challenge test and the probes.
use vstd::prelude::*;
use crate::config::AppConfig;
use crate::diag::{
    diagnostics_parts, empty_dash_spec, format_network_diagnostics, format_probe_traces,
    traces_report, NetworkDiagnostics,
};
use crate::error::{error_text, SrunError};
use crate::ip::{ip_text, ip_to_string, IpAddress};
use crate::monitor::PortalOnlineStatus;
use crate::netif::{format_interface_summary, same_chars, summary_parts, NetworkInterfaceSummary};
use crate::probe::PortalProbeTrace;
use crate::text::{
    append_str, chars_of, decimal, decimal_string, join, string_from, string_of, trim, trim_str,
};

verus! {

/// The one-line conclusion of a diagnosis.
pub open spec fn conclusion_text(status: Result<PortalOnlineStatus, SrunError>, watching: bool) -> Seq<
    char,
> {
    match status {
        Ok(PortalOnlineStatus::Online) => if watching {
            "已在线，自动重连守护运行中"@
        } else {
            "已在线，自动重连守护未运行"@
        },
        Ok(PortalOnlineStatus::Offline) => if watching {
            "已确认离线，自动重连守护运行中"@
        } else {
            "已确认离线，自动重连守护未运行"@
        },
        _ => if watching {
            "Portal 状态暂时无法确认，自动重连守护运行中"@
        } else {
            "Portal 状态暂时无法确认，自动重连守护未运行"@
        },
    }
}

/// What the login-state query gave, in words.
pub open spec fn status_detail_text(status: Result<PortalOnlineStatus, SrunError>) -> Seq<char> {
    match status {
        Ok(PortalOnlineStatus::Online) => "online"@,
        Ok(PortalOnlineStatus::Offline) => "offline"@,
        Ok(PortalOnlineStatus::Unknown) => "unknown：Portal 返回了无法判定的状态"@,
        Err(e) => "接口失败："@ + error_text(e),
    }
}

/// The challenge test is skipped without a user name, or without a portal
/// or `ac_id`; this is the note saying so.
pub open spec fn challenge_skip_note(cfg: AppConfig) -> Option<Seq<char>> {
    if trim(cfg.username@).len() == 0 {
        Some("未测试：账号为空"@)
    } else if trim(cfg.portal_url@).len() == 0 || cfg.ac_id is None {
        Some("未测试：缺少 Portal 或 ac_id"@)
    } else {
        None
    }
}

/// The note when the challenge test is skipped; `None` when it is run.
pub fn challenge_skip(cfg: &AppConfig) -> (res: Option<String>)
    ensures
        match res {
            Some(t) => challenge_skip_note(*cfg) == Some(t@),
            None => challenge_skip_note(*cfg) is None,
        },
{
    let u = trim_str(cfg.username.as_str());
    if u.len() == 0 {
        return Some(string_of("未测试：账号为空"));
    }
    let p = trim_str(cfg.portal_url.as_str());
    if p.len() == 0 || cfg.ac_id.is_none() {
        return Some(string_of("未测试：缺少 Portal 或 ac_id"));
    }
    None
}

/// The result of a successful challenge test.
pub open spec fn challenge_ok_text(portal: Seq<char>, ac_id: u32, ip: IpAddress, token: Seq<char>) -> Seq<
    char,
> {
    "challenge ok: portal="@ + portal + ", ac_id="@ + decimal(ac_id as nat) + ", ip="@ + ip_text(ip)
        + ", token_len="@ + decimal(vstd::utf8::encode_utf8(token).len())
}

/// Writes the result of a successful challenge test; the token length is
/// in bytes.
pub fn challenge_ok(portal: &str, ac_id: u32, ip: IpAddress, token: &str) -> (res: String)
    ensures
        res@ == challenge_ok_text(portal@, ac_id, ip, token@),
{
    let mut v = chars_of("challenge ok: portal=");
    append_str(&mut v, portal);
    append_str(&mut v, ", ac_id=");
    let a = decimal_string(ac_id as u128);
    append_str(&mut v, a.as_str());
    append_str(&mut v, ", ip=");
    let i = ip_to_string(ip);
    append_str(&mut v, i.as_str());
    append_str(&mut v, ", token_len=");
    let n = decimal_string(token.as_bytes().len() as u128);
    append_str(&mut v, n.as_str());
    string_from(v.as_slice())
}

/// Writes the result of a failed challenge test.
pub fn challenge_failed(e: &SrunError) -> (res: String)
    ensures
        res@ == "失败："@ + error_text(*e),
{
    let mut v = chars_of("失败：");
    let m = e.message();
    append_str(&mut v, m.as_str());
    string_from(v.as_slice())
}

/// An optional address as text, with `missing` in its place.
pub open spec fn ip_or(v: Option<IpAddress>, missing: Seq<char>) -> Seq<char> {
    match v {
        Some(ip) => ip_text(ip),
        None => missing,
    }
}

/// The hint shown when the saved client address differs from the current
/// local address.
pub open spec fn ip_note_text(local_ip: Option<IpAddress>, saved: Option<IpAddress>) -> Seq<char> {
    match (local_ip, saved) {
        (Some(l), Some(s)) => if ip_text(l) != ip_text(s) {
            "\n提示：保存的客户端 IP 与当前校园网 IP 不一致；登录会优先使用当前 IP "@ + ip_text(l)
                + "，保存值仅作为兜底。"@
        } else {
            Seq::empty()
        },
        _ => Seq::empty(),
    }
}

/// The first lines of the report: the conclusion, the portal and `ac_id`.
pub open spec fn report_head(
    cfg: AppConfig,
    status: Result<PortalOnlineStatus, SrunError>,
    watching: bool,
) -> Seq<char> {
    "诊断\n结论："@ + conclusion_text(status, watching) + "\nPortal："@ + empty_dash_spec(
        trim(cfg.portal_url@),
    ) + "\nac_id："@ + match cfg.ac_id {
        Some(a) => decimal(a as nat),
        None => "-"@,
    }
}

/// The address lines of the report.
pub open spec fn report_addresses(
    cfg: AppConfig,
    local_ip: Option<IpAddress>,
    effective_ip: Option<IpAddress>,
) -> Seq<char> {
    "\n登录出口选择："@ + ip_or(cfg.bind_ip, "自动选择"@) + "\n登录使用 IP："@ + ip_or(effective_ip, "-"@)
        + "\n保存的客户端 IP："@ + ip_or(cfg.user_ip, "-"@) + "\n当前校园网 IP："@ + ip_or(
        local_ip,
        "未获取"@,
    ) + ip_note_text(local_ip, cfg.user_ip)
}

/// The last lines of the report: the state query, the watcher, the network
/// path, the adapters, the challenge test and the probes.
pub open spec fn report_tail(
    status: Result<PortalOnlineStatus, SrunError>,
    network: NetworkDiagnostics,
    summary: NetworkInterfaceSummary,
    challenge: Seq<char>,
    watching: bool,
    traces: Seq<PortalProbeTrace>,
) -> Seq<char> {
    report_status(status, watching) + report_sections(network, summary, challenge, traces)
}

/// The diagnosis report for the settings `cfg`: the conclusion, the login
/// context, the addresses, the state query, the watcher, the network path,
/// the adapters, the challenge test and the probes, one per line.
pub open spec fn diagnosis_text(
    cfg: AppConfig,
    status: Result<PortalOnlineStatus, SrunError>,
    network: NetworkDiagnostics,
    summary: NetworkInterfaceSummary,
    local_ip: Option<IpAddress>,
    effective_ip: Option<IpAddress>,
    challenge: Seq<char>,
    watching: bool,
    traces: Seq<PortalProbeTrace>,
) -> Seq<char> {
    report_head(cfg, status, watching) + report_addresses(cfg, local_ip, effective_ip)
        + report_tail(status, network, summary, challenge, watching, traces)
}

/// Appends an optional address, or `missing`.
fn append_ip_or(v: &mut Vec<char>, ip: Option<IpAddress>, missing: &str)
    ensures
        final(v)@ == old(v)@ + ip_or(ip, missing@),
{
    match ip {
        Some(i) => {
            let t = ip_to_string(i);
            append_str(v, t.as_str());
        },
        None => append_str(v, missing),
    }
}

/// Writes the first lines of the report.
fn write_head(
    v: &mut Vec<char>,
    cfg: &AppConfig,
    status: &Result<PortalOnlineStatus, SrunError>,
    watcher_running: bool,
)
    ensures
        final(v)@ == old(v)@ + report_head(*cfg, *status, watcher_running),
{
    let ghost start = v@;
    append_str(v, "诊断\n结论：");
    let conclusion = match status {
        Ok(PortalOnlineStatus::Online) => if watcher_running {
            "已在线，自动重连守护运行中"
        } else {
            "已在线，自动重连守护未运行"
        },
        Ok(PortalOnlineStatus::Offline) => if watcher_running {
            "已确认离线，自动重连守护运行中"
        } else {
            "已确认离线，自动重连守护未运行"
        },
        _ => if watcher_running {
            "Portal 状态暂时无法确认，自动重连守护运行中"
        } else {
            "Portal 状态暂时无法确认，自动重连守护未运行"
        },
    };
    append_str(v, conclusion);
    append_str(v, "\nPortal：");
    let portal = trim_str(cfg.portal_url.as_str());
    if portal.len() == 0 {
        append_str(v, "-");
    } else {
        let p = string_from(portal.as_slice());
        append_str(v, p.as_str());
    }
    append_str(v, "\nac_id：");
    match cfg.ac_id {
        Some(a) => {
            let t = decimal_string(a as u128);
            append_str(v, t.as_str());
        },
        None => append_str(v, "-"),
    }
    assert(v@ =~= start + report_head(*cfg, *status, watcher_running));
}

/// Writes the address lines of the report.
fn write_addresses(
    v: &mut Vec<char>,
    cfg: &AppConfig,
    local_ip: Option<IpAddress>,
    effective_ip: Option<IpAddress>,
)
    ensures
        final(v)@ == old(v)@ + report_addresses(*cfg, local_ip, effective_ip),
{
    let ghost start = v@;
    append_str(v, "\n登录出口选择：");
    append_ip_or(v, cfg.bind_ip, "自动选择");
    append_str(v, "\n登录使用 IP：");
    append_ip_or(v, effective_ip, "-");
    append_str(v, "\n保存的客户端 IP：");
    append_ip_or(v, cfg.user_ip, "-");
    append_str(v, "\n当前校园网 IP：");
    append_ip_or(v, local_ip, "未获取");
    match (local_ip, cfg.user_ip) {
        (Some(l), Some(s)) => {
            let lt = ip_to_string(l);
            let st = ip_to_string(s);
            let lc = chars_of(lt.as_str());
            let sc = chars_of(st.as_str());
            if !same_chars(lc.as_slice(), sc.as_slice()) {
                append_str(v, "\n提示：保存的客户端 IP 与当前校园网 IP 不一致；登录会优先使用当前 IP ");
                append_str(v, lt.as_str());
                append_str(v, "，保存值仅作为兜底。");
            }
        },
        _ => {},
    }
    assert(v@ =~= start + report_addresses(*cfg, local_ip, effective_ip));
}

/// The lines on the state query and the watcher.
pub open spec fn report_status(status: Result<PortalOnlineStatus, SrunError>, watching: bool) -> Seq<
    char,
> {
    "\nrad_user_info："@ + status_detail_text(status) + "\n自动重连守护："@ + (if watching {
        "运行中"@
    } else {
        "未运行"@
    })
}

/// The lines on the network path, the adapters, the challenge and the
/// probes.
pub open spec fn report_sections(
    network: NetworkDiagnostics,
    summary: NetworkInterfaceSummary,
    challenge: Seq<char>,
    traces: Seq<PortalProbeTrace>,
) -> Seq<char> {
    "\n网络路径："@ + join(diagnostics_parts(network), "；"@) + "\n网卡摘要："@ + join(
        summary_parts(summary),
        "；"@,
    ) + "\nChallenge："@ + challenge + "\n"@ + traces_report(traces)
}

/// Writes the lines on the state query and the watcher.
fn write_status(v: &mut Vec<char>, status: &Result<PortalOnlineStatus, SrunError>, watcher_running: bool)
    ensures
        final(v)@ == old(v)@ + report_status(*status, watcher_running),
{
    let ghost start = v@;
    append_str(v, "\nrad_user_info：");
    match status {
        Ok(PortalOnlineStatus::Online) => append_str(v, "online"),
        Ok(PortalOnlineStatus::Offline) => append_str(v, "offline"),
        Ok(PortalOnlineStatus::Unknown) => append_str(v, "unknown：Portal 返回了无法判定的状态"),
        Err(e) => {
            append_str(v, "接口失败：");
            let m = e.message();
            append_str(v, m.as_str());
        },
    }
    append_str(v, "\n自动重连守护：");
    append_str(v, if watcher_running {
        "运行中"
    } else {
        "未运行"
    });
    assert(v@ =~= start + report_status(*status, watcher_running));
}

/// Writes the lines on the network path, the adapters, the challenge and
/// the probes.
fn write_sections(
    v: &mut Vec<char>,
    network: &NetworkDiagnostics,
    summary: &NetworkInterfaceSummary,
    challenge: &str,
    traces: &[PortalProbeTrace],
)
    ensures
        final(v)@ == old(v)@ + report_sections(*network, *summary, challenge@, traces@),
{
    let ghost start = v@;
    append_str(v, "\n网络路径：");
    let net = format_network_diagnostics(network);
    append_str(v, net.as_str());
    append_str(v, "\n网卡摘要：");
    let ifs = format_interface_summary(summary);
    append_str(v, ifs.as_str());
    append_str(v, "\nChallenge：");
    append_str(v, challenge);
    append_str(v, "\n");
    let tr = format_probe_traces(traces);
    append_str(v, tr.as_str());
    assert(v@ =~= start + report_sections(*network, *summary, challenge@, traces@));
}

/// Writes the diagnosis report.
pub fn diagnosis_report(
    cfg: &AppConfig,
    status: &Result<PortalOnlineStatus, SrunError>,
    network: &NetworkDiagnostics,
    summary: &NetworkInterfaceSummary,
    local_ip: Option<IpAddress>,
    effective_ip: Option<IpAddress>,
    challenge: &str,
    watcher_running: bool,
    traces: &[PortalProbeTrace],
) -> (res: String)
    ensures
        res@ == diagnosis_text(
            *cfg,
            *status,
            *network,
            *summary,
            local_ip,
            effective_ip,
            challenge@,
            watcher_running,
            traces@,
        ),
{
    let mut v: Vec<char> = Vec::new();
    write_head(&mut v, cfg, status, watcher_running);
    write_addresses(&mut v, cfg, local_ip, effective_ip);
    write_status(&mut v, status, watcher_running);
    write_sections(&mut v, network, summary, challenge, traces);
    assert(v@ =~= diagnosis_text(
        *cfg,
        *status,
        *network,
        *summary,
        local_ip,
        effective_ip,
        challenge@,
        watcher_running,
        traces@,
    ));
    string_from(v.as_slice())
}

} // verus!
