//! Network-path diagnostics: routes, proxy and TUN findings, and the
//! texts that report them.
use vstd::prelude::*;
use crate::ip::{
    ip_of, ip_text, ip_to_string, is_proxy_reserved_ip, is_proxy_reserved_spec, parse_ip, IpAddress,
};
use crate::netif::{any_contains, contains_any, str_views};
use crate::url::opt_view;
use crate::probe::PortalProbeTrace;
use crate::response::{find_field, json_object, json_object_fields, lookup, JsonItem, JsonScalar};
use crate::text::{
    append_str, chars_of, contains, contains_chars, contains_str, decimal, decimal_string,
    end_kept, find_char, first_index_of, is_ws, is_ws_char, join, join_strings,
    lemma_first_index_of, lower, lowercase_chars, shorten, shorten_spec,
    slice_chars, string_from, string_of, trim_str, views,
};

verus! {

/// The route the system would take to a host.
#[derive(Clone, Debug)]
pub struct RouteInfo {
    pub interface: String,
    pub source: Option<IpAddress>,
    pub next_hop: Option<String>,
    pub virtual_route: bool,
}

/// Marks of an interface that belongs to a proxy tool or a TUN device.
pub open spec fn tunnel_words() -> Seq<Seq<char>> {
    seq!["tun"@, "tap"@, "wintun"@, "meta"@, "mihomo"@, "clash"@, "sing"@, "v2ray"@, "nekoray"@]
}

/// A route goes through a proxy tool: its interface name carries a tunnel
/// mark, or its source or next hop lies in 198.18/15.
pub open spec fn is_virtual_route_spec(
    interface: Seq<char>,
    source: Option<IpAddress>,
    next_hop: Option<Seq<char>>,
) -> bool {
    any_contains(lower(interface), tunnel_words()) || (source matches Some(ip)
        && is_proxy_reserved_spec(ip)) || (next_hop matches Some(h) && ip_of(h) matches Some(ip)
        && is_proxy_reserved_spec(ip))
}

/// Whether a route goes through a proxy tool.
pub fn is_virtual_route(interface: &str, source: Option<IpAddress>, next_hop: Option<&str>) -> (res:
    bool)
    ensures
        res == is_virtual_route_spec(
            interface@,
            source,
            match next_hop {
                Some(h) => Some(h@),
                None => None,
            },
        ),
{
    let chars = chars_of(interface);
    let l = lowercase_chars(chars.as_slice());
    let needles = ["tun", "tap", "wintun", "meta", "mihomo", "clash", "sing", "v2ray", "nekoray"];
    let name_matches = contains_any(l.as_slice(), &needles);
    assert(str_views(needles@) =~= tunnel_words());
    let source_matches = match source {
        Some(ip) => is_proxy_reserved_ip(ip),
        None => false,
    };
    let next_hop_matches = match next_hop {
        Some(h) => match parse_ip(h) {
            Some(ip) => is_proxy_reserved_ip(ip),
            None => false,
        },
        None => false,
    };
    name_matches || source_matches || next_hop_matches
}


/// What the network path looks like: the system proxy, the routes to the
/// internet and to the portal, and whether a TUN device is up.
#[derive(Clone, Debug)]
pub struct NetworkDiagnostics {
    pub system_proxy: Option<String>,
    pub default_route: Option<RouteInfo>,
    pub portal_route: Option<RouteInfo>,
    pub tun_detected: bool,
}

/// `-` for a missing value.
pub open spec fn or_dash(v: Option<Seq<char>>) -> Seq<char> {
    match v {
        Some(t) => t,
        None => "-"@,
    }
}

/// `-` for an empty text, else the text.
pub open spec fn empty_dash_spec(value: Seq<char>) -> Seq<char> {
    if value.len() == 0 {
        "-"@
    } else {
        value
    }
}

/// `-` for an empty text, else the text.
pub fn empty_dash(value: &str) -> (res: String)
    ensures
        res@ == empty_dash_spec(value@),
{
    let v = chars_of(value);
    if v.len() == 0 {
        let d = chars_of("-");
        string_from(d.as_slice())
    } else {
        string_from(v.as_slice())
    }
}

/// A route as text: `interface source=… next_hop=…`.
pub open spec fn route_text(r: RouteInfo) -> Seq<char> {
    r.interface@ + " source="@ + or_dash(
        match r.source {
            Some(ip) => Some(ip_text(ip)),
            None => None,
        },
    ) + " next_hop="@ + or_dash(opt_view(r.next_hop))
}

/// Writes a route as text.
pub fn format_route(route: &RouteInfo) -> (res: String)
    ensures
        res@ == route_text(*route),
{
    let mut v = chars_of(route.interface.as_str());
    append_str(&mut v, " source=");
    match route.source {
        Some(ip) => {
            let t = ip_to_string(ip);
            append_str(&mut v, t.as_str());
        },
        None => append_str(&mut v, "-"),
    }
    append_str(&mut v, " next_hop=");
    match &route.next_hop {
        Some(h) => append_str(&mut v, h.as_str()),
        None => append_str(&mut v, "-"),
    }
    string_from(v.as_slice())
}

/// The parts of the network-path report, in order.
pub open spec fn diagnostics_parts(info: NetworkDiagnostics) -> Seq<Seq<char>> {
    let p1: Seq<Seq<char>> = match opt_view(info.system_proxy) {
        Some(p) => seq!["系统代理已开启("@ + p + ")，SRUN 请求仍按程序直连"@],
        None => seq!["系统代理未开启"@],
    };
    let p2 = if info.tun_detected {
        p1.push("检测到可能的 TUN/虚拟网卡"@)
    } else {
        p1
    };
    let p3 = match info.default_route {
        Some(r) => p2.push("默认出口："@ + route_text(r)),
        None => p2,
    };
    match info.portal_route {
        Some(r) => if r.virtual_route {
            p3.push(
                "Portal 路由可能经过网络工具/TUN："@ + route_text(r) + "；建议将校园网网段设置为 DIRECT"@,
            )
        } else {
            p3.push("Portal 路由："@ + route_text(r))
        },
        None => p3,
    }
}

/// The network-path report, its parts joined by `；`.
pub fn format_network_diagnostics(info: &NetworkDiagnostics) -> (res: String)
    ensures
        res@ == join(diagnostics_parts(*info), "；"@),
{
    let mut parts: Vec<String> = Vec::new();
    match &info.system_proxy {
        Some(p) => {
            let mut v = chars_of("系统代理已开启(");
            append_str(&mut v, p.as_str());
            append_str(&mut v, ")，SRUN 请求仍按程序直连");
            parts.push(string_from(v.as_slice()));
        },
        None => parts.push(string_of("系统代理未开启")),
    }
    if info.tun_detected {
        parts.push(string_of("检测到可能的 TUN/虚拟网卡"));
    }
    match &info.default_route {
        Some(r) => {
            let mut v = chars_of("默认出口：");
            let t = format_route(r);
            append_str(&mut v, t.as_str());
            parts.push(string_from(v.as_slice()));
        },
        None => {},
    }
    match &info.portal_route {
        Some(r) => {
            let t = format_route(r);
            if r.virtual_route {
                let mut v = chars_of("Portal 路由可能经过网络工具/TUN：");
                append_str(&mut v, t.as_str());
                append_str(&mut v, "；建议将校园网网段设置为 DIRECT");
                parts.push(string_from(v.as_slice()));
            } else {
                let mut v = chars_of("Portal 路由：");
                append_str(&mut v, t.as_str());
                parts.push(string_from(v.as_slice()));
            }
        },
        None => {},
    }
    assert(views(parts@) =~= diagnostics_parts(*info));
    join_strings(&parts, "；")
}

/// What a probe record reports: its findings, else its failure, else its
/// unresolved redirect, else that nothing was found.
pub open spec fn trace_found(t: PortalProbeTrace) -> Seq<char> {
    if t.portal_url is Some || t.ac_id is Some || t.user_ip is Some {
        "命中 Portal="@ + or_dash(opt_view(t.portal_url)) + " ac_id="@ + or_dash(
            match t.ac_id {
                Some(a) => Some(decimal(a as nat)),
                None => None,
            },
        ) + " IP="@ + or_dash(
            match t.user_ip {
                Some(ip) => Some(ip_text(ip)),
                None => None,
            },
        )
    } else if t.error is Some {
        "失败 "@ + t.error.unwrap()@
    } else if t.location is Some {
        "重定向但未解析："@ + shorten_spec(t.location.unwrap()@, 90)
    } else {
        "未发现认证信息"@
    }
}

/// The report line of one probe record.
pub open spec fn trace_line(t: PortalProbeTrace) -> Seq<char> {
    "- "@ + t.target@ + " ["@ + or_dash(
        match t.status {
            Some(s) => Some(decimal(s as nat)),
            None => None,
        },
    ) + "] "@ + trace_found(t)
}

/// The report lines of probe records.
pub open spec fn trace_lines(traces: Seq<PortalProbeTrace>) -> Seq<Seq<char>>
    decreases traces.len(),
{
    if traces.len() == 0 {
        Seq::empty()
    } else {
        trace_lines(traces.drop_last()).push(trace_line(traces.last()))
    }
}

/// The probe report: a heading, then one line per record (or a line
/// saying there were none), joined by newlines.
pub open spec fn traces_report(traces: Seq<PortalProbeTrace>) -> Seq<char> {
    if traces.len() == 0 {
        join(seq!["探测明细："@, "- 无探测记录"@], "\n"@)
    } else {
        join(seq!["探测明细："@] + trace_lines(traces), "\n"@)
    }
}

/// Appends an optional text, or `-`.
fn append_or_dash(v: &mut Vec<char>, t: &Option<String>)
    ensures
        final(v)@ == old(v)@ + or_dash(opt_view(*t)),
{
    match t {
        Some(x) => append_str(v, x.as_str()),
        None => append_str(v, "-"),
    }
}

/// Appends an optional number, or `-`.
fn append_number_or_dash(v: &mut Vec<char>, n: Option<u32>)
    ensures
        final(v)@ == old(v)@ + or_dash(
            match n {
                Some(a) => Some(decimal(a as nat)),
                None => None,
            },
        ),
{
    match n {
        Some(a) => {
            let d = decimal_string(a as u128);
            append_str(v, d.as_str());
        },
        None => append_str(v, "-"),
    }
}

/// What a probe record reports.
fn format_found(t: &PortalProbeTrace) -> (res: String)
    ensures
        res@ == trace_found(*t),
{
    if t.portal_url.is_some() || t.ac_id.is_some() || t.user_ip.is_some() {
        let mut v = chars_of("命中 Portal=");
        append_or_dash(&mut v, &t.portal_url);
        append_str(&mut v, " ac_id=");
        append_number_or_dash(&mut v, t.ac_id);
        append_str(&mut v, " IP=");
        match t.user_ip {
            Some(ip) => {
                let d = ip_to_string(ip);
                append_str(&mut v, d.as_str());
            },
            None => append_str(&mut v, "-"),
        }
        assert(v@ =~= trace_found(*t));
        string_from(v.as_slice())
    } else {
        match &t.error {
            Some(e) => {
                let mut v = chars_of("失败 ");
                append_str(&mut v, e.as_str());
                string_from(v.as_slice())
            },
            None => match &t.location {
                Some(l) => {
                    let mut v = chars_of("重定向但未解析：");
                    let s = shorten(l.as_str(), 90);
                    append_str(&mut v, s.as_str());
                    string_from(v.as_slice())
                },
                None => {
                    let v = chars_of("未发现认证信息");
                    string_from(v.as_slice())
                },
            },
        }
    }
}

/// The report line of one probe record.
fn format_trace(t: &PortalProbeTrace) -> (res: String)
    ensures
        res@ == trace_line(*t),
{
    let mut v = chars_of("- ");
    append_str(&mut v, t.target.as_str());
    append_str(&mut v, " [");
    match t.status {
        Some(s) => {
            let d = decimal_string(s as u128);
            append_str(&mut v, d.as_str());
        },
        None => append_str(&mut v, "-"),
    }
    append_str(&mut v, "] ");
    let found = format_found(t);
    append_str(&mut v, found.as_str());
    assert(v@ =~= trace_line(*t));
    string_from(v.as_slice())
}

/// Writes the probe report.
pub fn format_probe_traces(traces: &[PortalProbeTrace]) -> (res: String)
    ensures
        res@ == traces_report(traces@),
{
    let mut lines: Vec<String> = Vec::new();
    lines.push(string_of("探测明细："));
    if traces.len() == 0 {
        lines.push(string_of("- 无探测记录"));
        assert(views(lines@) =~= seq!["探测明细："@, "- 无探测记录"@]);
        return join_strings(&lines, "\n");
    }
    let mut i: usize = 0;
    while i < traces.len()
        invariant
            i <= traces@.len(),
            views(lines@) == seq!["探测明细："@] + trace_lines(traces@.take(i as int)),
        decreases traces@.len() - i,
    {
        let ghost before = lines@;
        let line = format_trace(&traces[i]);
        lines.push(line);
        assert(views(lines@) =~= views(before).push(trace_line(traces@[i as int])));
        let ghost t = traces@.take(i + 1);
        assert(t.drop_last() =~= traces@.take(i as int));
        assert(t.last() == traces@[i as int]);
        assert(trace_lines(t) == trace_lines(traces@.take(i as int)).push(trace_line(traces@[i as int])));
        assert(views(lines@) =~= seq!["探测明细："@] + trace_lines(traces@.take(i + 1)));
        i = i + 1;
    }
    assert(traces@.take(traces@.len() as int) =~= traces@);
    join_strings(&lines, "\n")
}


/// What a route query printed as JSON says: the interface (a string, which
/// must be there), the source address and the next hop (when a non-empty
/// string).
pub open spec fn route_of_json(text: Seq<char>) -> Option<
    (Seq<char>, Option<IpAddress>, Option<Seq<char>>),
> {
    match json_object(crate::text::trim(text)) {
        None => None,
        Some(fields) => match lookup(fields, "InterfaceAlias"@) {
            Some(JsonItem::Text(i)) => Some(
                (
                    i,
                    match lookup(fields, "IPAddress"@) {
                        Some(JsonItem::Text(a)) => ip_of(a),
                        _ => None,
                    },
                    match lookup(fields, "NextHop"@) {
                        Some(JsonItem::Text(h)) => if h.len() > 0 {
                            Some(h)
                        } else {
                            None
                        },
                        _ => None,
                    },
                ),
            ),
            _ => None,
        },
    }
}

/// Reads the route a route query printed as JSON, and marks it virtual when
/// it goes through a proxy tool.
pub fn route_from_json(text: &str) -> (res: Option<RouteInfo>)
    ensures
        match res {
            Some(r) => route_of_json(text@) == Some((r.interface@, r.source, opt_view(r.next_hop)))
                && r.virtual_route == is_virtual_route_spec(
                r.interface@,
                r.source,
                opt_view(r.next_hop),
            ),
            None => route_of_json(text@) is None,
        },
{
    let t = trim_str(text);
    let body = string_from(t.as_slice());
    let fields = match json_object_fields(body.as_str()) {
        Ok(Some(f)) => f,
        _ => return None,
    };
    let interface = match find_field(&fields, "InterfaceAlias") {
        Some(JsonScalar::Text(i)) => i.clone(),
        _ => return None,
    };
    let source = match find_field(&fields, "IPAddress") {
        Some(JsonScalar::Text(a)) => parse_ip(a.as_str()),
        _ => None,
    };
    let next_hop = match find_field(&fields, "NextHop") {
        Some(JsonScalar::Text(h)) => if h.as_str().is_empty() {
            None
        } else {
            Some(h.clone())
        },
        _ => None,
    };
    let virtual_route = match &next_hop {
        Some(h) => is_virtual_route(interface.as_str(), source, Some(h.as_str())),
        None => is_virtual_route(interface.as_str(), source, None),
    };
    Some(RouteInfo { interface, source, next_hop, virtual_route })
}

/// Whether the names of the adapters that are up show a TUN device or a
/// proxy tool.
pub fn tun_in_adapter_names(text: &str) -> (res: bool)
    ensures
        res == any_contains(lower(text@), tunnel_words()),
{
    let chars = chars_of(text);
    let l = lowercase_chars(chars.as_slice());
    let needles = ["tun", "tap", "wintun", "meta", "mihomo", "clash", "sing", "v2ray", "nekoray"];
    let r = contains_any(l.as_slice(), &needles);
    assert(str_views(needles@) =~= tunnel_words());
    r
}


/// The first line of `s` (split at `\n`) that contains `needle`.
pub open spec fn first_line_with(s: Seq<char>, needle: Seq<char>) -> Option<Seq<char>>
    decreases s.len(),
{
    match first_index_of(s, '\n') {
        Some(i) => if 0 <= i < s.len() {
            if contains(s.take(i), needle) {
                Some(s.take(i))
            } else {
                first_line_with(s.skip(i + 1), needle)
            }
        } else {
            None
        },
        None => if contains(s, needle) {
            Some(s)
        } else {
            None
        },
    }
}

/// Where the word ending at `j` starts: just after the white space before
/// it (or at the start).
pub open spec fn word_start(s: Seq<char>, j: int) -> int
    decreases j,
{
    if j <= 0 || j > s.len() {
        0
    } else if is_ws(s[j - 1]) {
        j
    } else {
        word_start(s, j - 1)
    }
}

/// The last white-space separated word of `s`, if it has one.
pub open spec fn last_word(s: Seq<char>) -> Option<Seq<char>> {
    let e = end_kept(s, s.len() as int);
    if e <= 0 {
        None
    } else {
        Some(s.subrange(word_start(s, e), e))
    }
}

/// The proxy server a registry query printed: the last word of the first
/// line naming `ProxyServer`.
pub open spec fn proxy_server_of(text: Seq<char>) -> Option<Seq<char>> {
    match first_line_with(text, "ProxyServer"@) {
        Some(line) => last_word(line),
        None => None,
    }
}

/// The last word of a line.
fn last_word_chars(v: &[char]) -> (res: Option<Vec<char>>)
    ensures
        match res {
            Some(w) => last_word(v@) == Some(w@),
            None => last_word(v@) is None,
        },
{
    let n = v.len();
    let mut e: usize = n;
    while e > 0 && is_ws_char(v[e - 1])
        invariant
            e <= n,
            n == v@.len(),
            end_kept(v@, e as int) == end_kept(v@, n as int),
        decreases e,
    {
        e = e - 1;
    }
    if e == 0 {
        return None;
    }
    let mut a: usize = e;
    while a > 0 && !is_ws_char(v[a - 1])
        invariant
            a <= e <= n,
            n == v@.len(),
            word_start(v@, a as int) == word_start(v@, e as int),
        decreases a,
    {
        a = a - 1;
    }
    Some(slice_chars(v, a, e))
}

/// Reads the proxy server out of what `reg query … /v ProxyServer`
/// printed.
pub fn proxy_server_from_reg(text: &str) -> (res: Option<String>)
    ensures
        opt_view(res) == proxy_server_of(text@),
{
    let mut rest = chars_of(text);
    let needle = chars_of("ProxyServer");
    loop
        invariant
            needle@ == "ProxyServer"@,
            proxy_server_of(text@) == match first_line_with(rest@, "ProxyServer"@) {
                Some(line) => last_word(line),
                None => None,
            },
        decreases rest@.len(),
    {
        proof {
            lemma_first_index_of(rest@, '\n');
        }
        match find_char(rest.as_slice(), '\n') {
            Some(i) => {
                assert(i < rest.len());
                let line = slice_chars(rest.as_slice(), 0, i);
                assert(line@ =~= rest@.take(i as int));
                if contains_chars(line.as_slice(), needle.as_slice()) {
                    return match last_word_chars(line.as_slice()) {
                        Some(w) => Some(string_from(w.as_slice())),
                        None => None,
                    };
                }
                let next = slice_chars(rest.as_slice(), i + 1, rest.len());
                assert(next@ =~= rest@.skip(i + 1));
                rest = next;
            },
            None => {
                if contains_chars(rest.as_slice(), needle.as_slice()) {
                    return match last_word_chars(rest.as_slice()) {
                        Some(w) => Some(string_from(w.as_slice())),
                        None => None,
                    };
                }
                return None;
            },
        }
    }
}

/// The system proxy: the server the first query printed, when the second
/// query (of `ProxyEnable`) printed `0x1`.
pub fn system_proxy_from_reg(server_text: &str, enable_text: &str) -> (res: Option<String>)
    ensures
        opt_view(res) == (if contains(enable_text@, "0x1"@) {
            proxy_server_of(server_text@)
        } else {
            None
        }),
{
    let e = chars_of(enable_text);
    if contains_str(e.as_slice(), "0x1") {
        proxy_server_from_reg(server_text)
    } else {
        None
    }
}

} // verus!
