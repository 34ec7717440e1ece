//! Network adapters: how an adapter is classified from its name, its
//! description and its address, and which adapters look like a campus
//! login exit.
use vstd::prelude::*;
use crate::diag::RouteInfo;
use crate::url::opt_view;
use crate::ip::{
    ip_of, ip_text, ip_to_string, is_easyconnect_ip, is_easyconnect_spec, is_private_ip,
    is_private_spec, is_proxy_reserved_ip, is_proxy_reserved_spec, parse_ip, IpAddress,
};
use crate::json::{
    chars_lt, lemma_chars_lt_irreflexive, lemma_chars_lt_total, lemma_chars_lt_transitive,
};
use crate::text::{
    append_str, chars_of, contains, contains_str, decimal, decimal_string, join, join_strings,
    lemma_lower_of_upper_char, lower, lowercase_chars, string_from, string_of, trim, trim_str, upper, views,
};

verus! {

/// The views of a list of string literals.
pub open spec fn str_views(s: Seq<&str>) -> Seq<Seq<char>> {
    s.map_values(|x: &str| x@)
}

/// Some needle occurs in `hay`.
pub open spec fn any_contains(hay: Seq<char>, needles: Seq<Seq<char>>) -> bool {
    exists|i: int| 0 <= i < needles.len() && #[trigger] contains(hay, needles[i])
}

/// Whether some needle occurs in `value`.
pub fn contains_any(value: &[char], needles: &[&str]) -> (res: bool)
    ensures
        res == any_contains(value@, str_views(needles@)),
{
    let mut i: usize = 0;
    while i < needles.len()
        invariant
            i <= needles@.len(),
            forall|j: int| 0 <= j < i ==> !contains(value@, #[trigger] str_views(needles@)[j]),
        decreases needles@.len() - i,
    {
        if contains_str(value, needles[i]) {
            assert(contains(value@, str_views(needles@)[i as int]));
            return true;
        }
        i = i + 1;
    }
    false
}


/// The text an adapter is matched on: its name, a space and its
/// description, ASCII-lower-cased.
pub open spec fn adapter_text(name: Seq<char>, description: Seq<char>) -> Seq<char> {
    lower(name + " "@ + description)
}

/// Marks of the EasyConnect (Sangfor SSL VPN) adapter.
pub open spec fn easy_connect_words() -> Seq<Seq<char>> {
    seq!["easyconnect"@, "sangfor"@, "ssl vpn"@]
}

/// Marks of the Clash and mihomo proxy tools.
pub open spec fn clash_words() -> Seq<Seq<char>> {
    seq!["clash"@, "mihomo"@]
}

/// Marks of TUN/TAP devices and the tools that make them.
pub open spec fn tun_words() -> Seq<Seq<char>> {
    seq![
        "tun"@,
        "tap"@,
        "wintun"@,
        "openvpn"@,
        "wireguard"@,
        "sing"@,
        "v2ray"@,
        "nekoray"@,
        "tailscale"@,
        "zerotier"@,
    ]
}

/// Marks of loopback adapters.
pub open spec fn loopback_words() -> Seq<Seq<char>> {
    seq!["loopback"@, "pseudo-interface"@]
}

/// Marks of other virtual adapters.
pub open spec fn virtual_words() -> Seq<Seq<char>> {
    seq![
        "virtual"@,
        "vmware"@,
        "hyper-v"@,
        "wsl"@,
        "oray"@,
        "npcap"@,
        "hypomux"@,
        "dispatch"@,
        "teaming"@,
        "bluetooth"@,
        "wi-fi direct"@,
    ]
}

/// Marks of wireless adapters.
pub open spec fn wlan_words() -> Seq<Seq<char>> {
    seq!["wlan"@, "wi-fi"@, "wifi"@, "wireless"@]
}

/// Marks of wired adapters.
pub open spec fn ethernet_words() -> Seq<Seq<char>> {
    seq!["ethernet"@, "以太网"@, "realtek"@, "gbe"@, "gigabit"@]
}

/// 127.0.0.0/8.
pub open spec fn is_loopback_ip(ip: IpAddress) -> bool {
    ip matches IpAddress::V4(a, _, _, _) && a == 127
}

/// 169.254.0.0/16.
pub open spec fn is_link_local_ip(ip: IpAddress) -> bool {
    ip matches IpAddress::V4(a, b, _, _) && a == 169 && b == 254
}

/// What an adapter was found to be.
#[derive(Clone, Debug)]
pub struct AdapterClassification {
    pub kind: String,
    pub is_virtual: bool,
    pub is_tun: bool,
    pub is_easy_connect: bool,
    pub is_clash: bool,
    pub is_likely_srun_exit: bool,
    pub recommendation: String,
}

/// The flags of a classification, from the matched text `l` and the
/// address: (EasyConnect, Clash, TUN, loopback, link-local, virtual, WLAN,
/// wired).
pub open spec fn adapter_flags(l: Seq<char>, ip: IpAddress) -> (
    bool,
    bool,
    bool,
    bool,
    bool,
    bool,
    bool,
    bool,
) {
    let easy = any_contains(l, easy_connect_words());
    let clash = any_contains(l, clash_words());
    let tun = any_contains(l, tun_words());
    let loopback = is_loopback_ip(ip) || any_contains(l, loopback_words());
    let link_local = is_link_local_ip(ip);
    let proxy_ip = is_proxy_reserved_spec(ip) || is_easyconnect_spec(ip);
    let is_virtual = easy || clash || tun || proxy_ip || link_local || loopback || any_contains(
        l,
        virtual_words(),
    );
    let wlan = any_contains(l, wlan_words());
    let ethernet = any_contains(l, ethernet_words());
    (easy, clash, tun, loopback, link_local, is_virtual, wlan, ethernet)
}

/// The kind label of an adapter with these flags.
pub open spec fn kind_label(
    f: (bool, bool, bool, bool, bool, bool, bool, bool),
) -> Seq<char> {
    if f.0 {
        "EasyConnect"@
    } else if f.1 {
        "网络工具/虚拟网卡"@
    } else if f.2 {
        "TUN/虚拟网卡"@
    } else if f.3 {
        "本机回环"@
    } else if f.4 {
        "未分配有效地址"@
    } else if f.6 {
        "WLAN"@
    } else if f.7 {
        "有线网卡"@
    } else if f.5 {
        "虚拟网卡"@
    } else {
        "网络接口"@
    }
}

/// Whether an adapter with these flags is a likely SRUN login exit: not
/// virtual, and wireless or wired.
pub open spec fn srun_exit(f: (bool, bool, bool, bool, bool, bool, bool, bool)) -> bool {
    !f.5 && (f.6 || f.7)
}

/// The advice shown for an adapter with these flags.
pub open spec fn recommendation_label(
    f: (bool, bool, bool, bool, bool, bool, bool, bool),
) -> Seq<char> {
    if srun_exit(f) {
        "可作为校园网登录出口候选"@
    } else if f.0 {
        "虚拟网卡，不建议用于 SRUN 登录"@
    } else if f.3 || f.4 {
        "无效登录出口，不建议用于校园网登录"@
    } else if f.1 || f.2 || f.5 {
        "网络工具/虚拟网卡，不建议用于校园网登录"@
    } else {
        "仅用于流量展示"@
    }
}

/// `c` is the classification of the adapter `name`/`description` at `ip`.
pub open spec fn classifies(
    c: AdapterClassification,
    name: Seq<char>,
    description: Seq<char>,
    ip: IpAddress,
) -> bool {
    let f = adapter_flags(adapter_text(name, description), ip);
    &&& c.is_easy_connect == f.0
    &&& c.is_clash == f.1
    &&& c.is_tun == f.2
    &&& c.is_virtual == f.5
    &&& c.is_likely_srun_exit == srun_exit(f)
    &&& c.kind@ == kind_label(f)
    &&& c.recommendation@ == recommendation_label(f)
}

/// Classifies an adapter by its name, description and address.
pub fn classify_network_interface(name: &str, description: &str, ip: IpAddress) -> (res:
    AdapterClassification)
    ensures
        classifies(res, name@, description@, ip),
{
    let mut joined = chars_of(name);
    append_str(&mut joined, " ");
    append_str(&mut joined, description);
    let l = lowercase_chars(joined.as_slice());
    let ghost lv = adapter_text(name@, description@);
    assert(l@ == lv);
    let is_proxy_ip = is_proxy_reserved_ip(ip) || is_easyconnect_ip(ip);
    let is_loopback_ip = match ip {
        IpAddress::V4(a, _, _, _) => a == 127,
        IpAddress::V6(..) => false,
    };
    let is_link_local_ip = match ip {
        IpAddress::V4(a, b, _, _) => a == 169 && b == 254,
        IpAddress::V6(..) => false,
    };
    let easy_needles = ["easyconnect", "sangfor", "ssl vpn"];
    let is_easy_connect = contains_any(l.as_slice(), &easy_needles);
    assert(str_views(easy_needles@) =~= easy_connect_words());
    let clash_needles = ["clash", "mihomo"];
    let is_clash = contains_any(l.as_slice(), &clash_needles);
    assert(str_views(clash_needles@) =~= clash_words());
    let tun_needles = [
        "tun",
        "tap",
        "wintun",
        "openvpn",
        "wireguard",
        "sing",
        "v2ray",
        "nekoray",
        "tailscale",
        "zerotier",
    ];
    let is_tun = contains_any(l.as_slice(), &tun_needles);
    assert(str_views(tun_needles@) =~= tun_words());
    let loop_needles = ["loopback", "pseudo-interface"];
    let is_loopback = is_loopback_ip || contains_any(l.as_slice(), &loop_needles);
    assert(str_views(loop_needles@) =~= loopback_words());
    let virtual_needles = [
        "virtual",
        "vmware",
        "hyper-v",
        "wsl",
        "oray",
        "npcap",
        "hypomux",
        "dispatch",
        "teaming",
        "bluetooth",
        "wi-fi direct",
    ];
    let is_virtual = is_easy_connect || is_clash || is_tun || is_proxy_ip || is_link_local_ip
        || is_loopback || contains_any(l.as_slice(), &virtual_needles);
    assert(str_views(virtual_needles@) =~= virtual_words());
    let wlan_needles = ["wlan", "wi-fi", "wifi", "wireless"];
    let is_wlan = contains_any(l.as_slice(), &wlan_needles);
    assert(str_views(wlan_needles@) =~= wlan_words());
    let eth_needles = ["ethernet", "以太网", "realtek", "gbe", "gigabit"];
    let is_ethernet = contains_any(l.as_slice(), &eth_needles);
    assert(str_views(eth_needles@) =~= ethernet_words());
    let is_likely_srun_exit = !is_virtual && (is_wlan || is_ethernet);
    let ghost f = adapter_flags(lv, ip);
    assert(f == (is_easy_connect, is_clash, is_tun, is_loopback, is_link_local_ip, is_virtual, is_wlan, is_ethernet));
    let kind = if is_easy_connect {
        string_of("EasyConnect")
    } else if is_clash {
        string_of("网络工具/虚拟网卡")
    } else if is_tun {
        string_of("TUN/虚拟网卡")
    } else if is_loopback {
        string_of("本机回环")
    } else if is_link_local_ip {
        string_of("未分配有效地址")
    } else if is_wlan {
        string_of("WLAN")
    } else if is_ethernet {
        string_of("有线网卡")
    } else if is_virtual {
        string_of("虚拟网卡")
    } else {
        string_of("网络接口")
    };
    let recommendation = if is_likely_srun_exit {
        string_of("可作为校园网登录出口候选")
    } else if is_easy_connect {
        string_of("虚拟网卡，不建议用于 SRUN 登录")
    } else if is_loopback || is_link_local_ip {
        string_of("无效登录出口，不建议用于校园网登录")
    } else if is_clash || is_tun || is_virtual {
        string_of("网络工具/虚拟网卡，不建议用于校园网登录")
    } else {
        string_of("仅用于流量展示")
    };
    AdapterClassification {
        kind,
        is_virtual,
        is_tun,
        is_easy_connect,
        is_clash,
        is_likely_srun_exit,
        recommendation,
    }
}


/// A likely login exit is never virtual, and an EasyConnect, proxy-tool
/// or TUN adapter is always virtual.
pub proof fn lemma_tools_are_not_exits(
    c: AdapterClassification,
    name: Seq<char>,
    description: Seq<char>,
    ip: IpAddress,
)
    requires
        classifies(c, name, description, ip),
    ensures
        c.is_likely_srun_exit ==> !c.is_virtual,
        c.is_easy_connect || c.is_clash || c.is_tun ==> c.is_virtual && !c.is_likely_srun_exit,
{
}

/// An adapter is a likely login exit exactly when its advice is the exit
/// advice, and the classification ignores ASCII case: classifying the
/// upper-cased name and description gives the same classification.
pub proof fn lemma_classification_is_consistent(
    c: AdapterClassification,
    upper_c: AdapterClassification,
    name: Seq<char>,
    description: Seq<char>,
    ip: IpAddress,
)
    requires
        classifies(c, name, description, ip),
        classifies(upper_c, upper(name), upper(description), ip),
    ensures
        c.is_likely_srun_exit <==> c.recommendation@ == "可作为校园网登录出口候选"@,
        upper_c.kind@ == c.kind@,
        upper_c.recommendation@ == c.recommendation@,
        upper_c.is_virtual == c.is_virtual,
        upper_c.is_tun == c.is_tun,
        upper_c.is_easy_connect == c.is_easy_connect,
        upper_c.is_clash == c.is_clash,
        upper_c.is_likely_srun_exit == c.is_likely_srun_exit,
{
    reveal_strlit("可作为校园网登录出口候选");
    reveal_strlit("虚拟网卡，不建议用于 SRUN 登录");
    reveal_strlit("无效登录出口，不建议用于校园网登录");
    reveal_strlit("网络工具/虚拟网卡，不建议用于校园网登录");
    reveal_strlit("仅用于流量展示");
    reveal_strlit(" ");
    let exit_advice = "可作为校园网登录出口候选"@;
    assert(exit_advice[0] == '可');
    assert("虚拟网卡，不建议用于 SRUN 登录"@[0] != exit_advice[0]);
    assert("无效登录出口，不建议用于校园网登录"@[0] != exit_advice[0]);
    assert("网络工具/虚拟网卡，不建议用于校园网登录"@[0] != exit_advice[0]);
    assert("仅用于流量展示"@[0] != exit_advice[0]);
    let joined = name + " "@ + description;
    let upper_joined = upper(name) + " "@ + upper(description);
    assert(upper_joined.len() == joined.len());
    assert forall|i: int| 0 <= i < joined.len() implies #[trigger] lower(upper_joined)[i]
        == lower(joined)[i] by {
        if i < name.len() {
            lemma_lower_of_upper_char(name[i]);
        } else if i > name.len() {
            lemma_lower_of_upper_char(description[i - name.len() - 1]);
        }
    }
    assert(lower(upper_joined) =~= lower(joined));
}

/// Whether the matched text carries a wired mark.
pub open spec fn has_wired_mark(t: Seq<char>) -> bool {
    contains(t, "ethernet"@) || contains(t, "以太网"@) || contains(t, "realtek"@) || contains(
        t,
        "gbe"@,
    ) || contains(t, "gigabit"@)
}

/// Whether the matched text carries a wireless mark.
pub open spec fn has_wireless_mark(t: Seq<char>) -> bool {
    contains(t, "wlan"@) || contains(t, "wi-fi"@) || contains(t, "wifi"@) || contains(
        t,
        "wireless"@,
    )
}

/// Login exits are exactly the real wired and wireless adapters: an
/// adapter that is not virtual and whose name or description (in any ASCII
/// case) carries a wired mark (`ethernet`, `以太网`, `realtek`, `gbe`,
/// `gigabit`) or a wireless mark (`wlan`, `wi-fi`, `wifi`, `wireless`) is a
/// likely login exit and gets the exit advice; every likely exit is such an
/// adapter.
pub proof fn lemma_real_adapters_are_exits(
    c: AdapterClassification,
    name: Seq<char>,
    description: Seq<char>,
    ip: IpAddress,
)
    requires
        classifies(c, name, description, ip),
    ensures
        !c.is_virtual && (has_wired_mark(lower(name + " "@ + description)) || has_wireless_mark(
            lower(name + " "@ + description),
        )) ==> c.is_likely_srun_exit && c.recommendation@ == "可作为校园网登录出口候选"@,
        c.is_likely_srun_exit ==> !c.is_virtual && (has_wired_mark(lower(name + " "@ + description))
            || has_wireless_mark(lower(name + " "@ + description))),
{
    let t = lower(name + " "@ + description);
    let w = ethernet_words();
    let l = wlan_words();
    assert(has_wired_mark(t) <==> any_contains(t, w)) by {
        if has_wired_mark(t) {
            if contains(t, "ethernet"@) {
                assert(contains(t, w[0]));
            } else if contains(t, "以太网"@) {
                assert(contains(t, w[1]));
            } else if contains(t, "realtek"@) {
                assert(contains(t, w[2]));
            } else if contains(t, "gbe"@) {
                assert(contains(t, w[3]));
            } else {
                assert(contains(t, w[4]));
            }
        }
        if any_contains(t, w) {
            let i = choose|i: int| 0 <= i < w.len() && #[trigger] contains(t, w[i]);
            assert(i == 0 || i == 1 || i == 2 || i == 3 || i == 4);
        }
    }
    assert(has_wireless_mark(t) <==> any_contains(t, l)) by {
        if has_wireless_mark(t) {
            if contains(t, "wlan"@) {
                assert(contains(t, l[0]));
            } else if contains(t, "wi-fi"@) {
                assert(contains(t, l[1]));
            } else if contains(t, "wifi"@) {
                assert(contains(t, l[2]));
            } else {
                assert(contains(t, l[3]));
            }
        }
        if any_contains(t, l) {
            let i = choose|i: int| 0 <= i < l.len() && #[trigger] contains(t, l[i]);
            assert(i == 0 || i == 1 || i == 2 || i == 3);
        }
    }
}

/// Classifies an adapter known only by name (no description, address
/// 0.0.0.0).
pub fn classify_network_adapter(name: &str) -> (res: AdapterClassification)
    ensures
        classifies(res, name@, Seq::empty(), IpAddress::V4(0, 0, 0, 0)),
{
    let r = classify_network_interface(name, "", IpAddress::V4(0, 0, 0, 0));
    proof {
        reveal_strlit("");
    }
    r
}

/// What the traffic monitor shows of an adapter with operational state
/// `state` and byte counts: the total (saturating), whether the adapter is
/// active (its state is `up` in any ASCII case, or it moved bytes), and
/// whether it is listed at all (active or with traffic).
pub fn adapter_activity(state: &str, received_bytes: u64, transmitted_bytes: u64) -> (res: (
    u64,
    bool,
    bool,
))
    ensures
        res.0 == (if received_bytes + transmitted_bytes > u64::MAX {
            u64::MAX as int
        } else {
            received_bytes + transmitted_bytes
        }),
        res.1 == (lower(state@) == "up"@ || res.0 > 0),
        res.2 == (res.1 || res.0 > 0),
{
    let total = received_bytes.saturating_add(transmitted_bytes);
    let s = chars_of(state);
    let l = lowercase_chars(s.as_slice());
    let up = chars_of("up");
    let is_active = same_chars(l.as_slice(), up.as_slice()) || total > 0;
    (total, is_active, is_active || total > 0)
}

/// A gateway is present, and not blank or 0.0.0.0 once trimmed.
pub open spec fn gateway_present(value: Option<Seq<char>>) -> bool {
    value matches Some(v) && trim(v).len() > 0 && trim(v) != "0.0.0.0"@
}

/// Whether a gateway is present.
pub fn is_gateway_present(value: &Option<String>) -> (res: bool)
    ensures
        res == gateway_present(opt_view(*value)),
{
    match value {
        None => false,
        Some(v) => {
            let t = trim_str(v.as_str());
            let zero = chars_of("0.0.0.0");
            t.len() > 0 && !same_chars(t.as_slice(), zero.as_slice())
        },
    }
}

/// Whether two character slices are equal.
pub fn same_chars(a: &[char], b: &[char]) -> (res: bool)
    ensures
        res == (a@ == b@),
{
    if a.len() != b.len() {
        return false;
    }
    let mut i: usize = 0;
    while i < a.len()
        invariant
            a@.len() == b@.len(),
            i <= a@.len(),
            forall|j: int| 0 <= j < i ==> a@[j] == b@[j],
        decreases a@.len() - i,
    {
        if a[i] != b[i] {
            return false;
        }
        i = i + 1;
    }
    assert(a@ =~= b@);
    true
}

/// A route leaves through the adapter `alias` at `ip`: its source is `ip`,
/// or its interface name equals `alias` up to ASCII case.
pub open spec fn route_matches(route: Option<&RouteInfo>, alias: Seq<char>, ip: IpAddress) -> bool {
    route matches Some(r) && (r.source == Some(ip) || lower(r.interface@) == lower(alias))
}

/// Whether a route leaves through the adapter `alias` at `ip`.
pub fn route_matches_interface(route: Option<&RouteInfo>, alias: &str, ip: IpAddress) -> (res:
    bool)
    ensures
        res == route_matches(route, alias@, ip),
{
    match route {
        None => false,
        Some(r) => {
            if r.source == Some(ip) {
                return true;
            }
            let a = chars_of(r.interface.as_str());
            let b = chars_of(alias);
            let la = lowercase_chars(a.as_slice());
            let lb = lowercase_chars(b.as_slice());
            same_chars(la.as_slice(), lb.as_slice())
        },
    }
}

/// An adapter as read from the system listing.
#[derive(Clone, Debug)]
pub struct ParsedInterface {
    pub interface_alias: String,
    pub interface_description: String,
    pub ip: String,
    pub gateway: Option<String>,
    pub dns: Vec<String>,
    pub is_up: bool,
}

impl Default for ParsedInterface {
    fn default() -> (res: Self)
        ensures
            res.interface_alias@ == Seq::<char>::empty(),
            res.interface_description@ == Seq::<char>::empty(),
            res.ip@ == Seq::<char>::empty(),
            res.gateway is None,
            res.dns@ == Seq::<String>::empty(),
            !res.is_up,
    {
        ParsedInterface {
            interface_alias: String::new(),
            interface_description: String::new(),
            ip: String::new(),
            gateway: None,
            dns: Vec::new(),
            is_up: false,
        }
    }
}

/// The adapter is up, has an address and classifies as EasyConnect.
pub open spec fn easyconnect_up(item: ParsedInterface) -> bool {
    item.is_up && match ip_of(item.ip@) {
        Some(ip) => adapter_flags(
            adapter_text(item.interface_alias@, item.interface_description@),
            ip,
        ).0,
        None => false,
    }
}

/// Some adapter is an EasyConnect adapter that is up.
pub open spec fn easyconnect_active(items: Seq<ParsedInterface>) -> bool {
    exists|i: int| 0 <= i < items.len() && #[trigger] easyconnect_up(items[i])
}

/// Whether an EasyConnect adapter is up: auto reconnect pauses then.
pub fn has_active_easyconnect_adapter(items: &[ParsedInterface]) -> (res: bool)
    ensures
        res == easyconnect_active(items@),
{
    let mut i: usize = 0;
    while i < items.len()
        invariant
            i <= items@.len(),
            forall|j: int| 0 <= j < i ==> !#[trigger] easyconnect_up(items@[j]),
        decreases items@.len() - i,
    {
        let item = &items[i];
        if item.is_up {
            match parse_ip(item.ip.as_str()) {
                Some(ip) => {
                    let c = classify_network_interface(
                        item.interface_alias.as_str(),
                        item.interface_description.as_str(),
                        ip,
                    );
                    if c.is_easy_connect {
                        assert(easyconnect_up(items@[i as int]));
                        return true;
                    }
                },
                None => {},
            }
        }
        i = i + 1;
    }
    false
}


/// One adapter as the interface list shows it.
#[derive(Clone, Debug)]
pub struct NetworkInterfaceInfo {
    pub interface_alias: String,
    pub interface_description: String,
    pub ip: String,
    pub prefix_length: Option<u8>,
    pub gateway: Option<String>,
    pub dns: Vec<String>,
    pub is_up: bool,
    pub is_virtual: bool,
    pub is_likely_campus: bool,
    pub is_likely_vpn: bool,
    pub is_likely_tun: bool,
    pub is_likely_lan: bool,
    pub route_to_portal: bool,
    pub route_to_internet: bool,
    pub is_selected: bool,
    pub recommendation: String,
}

/// The IPv4 address an adapter lists, if its address text is one.
pub open spec fn v4_of(item: ParsedInterface) -> Option<IpAddress> {
    match ip_of(item.ip@) {
        Some(IpAddress::V4(a, b, c, d)) => Some(IpAddress::V4(a, b, c, d)),
        _ => None,
    }
}

/// The adapters that have an IPv4 address, in order.
pub open spec fn kept_items(items: Seq<ParsedInterface>) -> Seq<ParsedInterface>
    decreases items.len(),
{
    if items.len() == 0 {
        Seq::empty()
    } else if v4_of(items.last()) is Some {
        kept_items(items.drop_last()).push(items.last())
    } else {
        kept_items(items.drop_last())
    }
}

/// A likely campus adapter: up, not virtual, with a gateway, in 10/8.
pub open spec fn campus_spec(item: ParsedInterface, ip: IpAddress) -> bool {
    let f = adapter_flags(adapter_text(item.interface_alias@, item.interface_description@), ip);
    item.is_up && !f.5 && gateway_present(opt_view(item.gateway)) && ip matches IpAddress::V4(
        10,
        _,
        _,
        _,
    )
}

/// `info` shows the adapter `item` at `ip`, with the login exit `selected`
/// and the routes to the portal and to the internet.
pub open spec fn describes(
    info: NetworkInterfaceInfo,
    item: ParsedInterface,
    ip: IpAddress,
    selected: Option<IpAddress>,
    portal_route: Option<&RouteInfo>,
    default_route: Option<&RouteInfo>,
) -> bool {
    let f = adapter_flags(adapter_text(item.interface_alias@, item.interface_description@), ip);
    let campus = campus_spec(item, ip);
    let is_selected = selected == Some(ip);
    &&& info.interface_alias@ == item.interface_alias@
    &&& info.interface_description@ == item.interface_description@
    &&& info.ip@ == ip_text(ip)
    &&& info.prefix_length is None
    &&& opt_view(info.gateway) == opt_view(item.gateway)
    &&& info.dns@ == item.dns@
    &&& info.is_up == item.is_up
    &&& info.is_virtual == f.5
    &&& info.is_likely_campus == campus
    &&& info.is_likely_vpn == (f.0 || f.1)
    &&& info.is_likely_tun == f.2
    &&& info.is_likely_lan == is_private_spec(ip)
    &&& info.route_to_portal == route_matches(portal_route, item.interface_alias@, ip)
    &&& info.route_to_internet == (route_matches(default_route, item.interface_alias@, ip)
        || gateway_present(opt_view(item.gateway)))
    &&& info.is_selected == is_selected
    &&& info.recommendation@ == (if is_selected {
        "当前选择的登录出口"@
    } else if campus {
        "可能是校园网"@
    } else {
        recommendation_label(f)
    })
}

/// A copy of a list of strings.
fn copy_strings(v: &Vec<String>) -> (res: Vec<String>)
    ensures
        res@ == v@,
{
    let mut res: Vec<String> = Vec::new();
    let mut i: usize = 0;
    while i < v.len()
        invariant
            i <= v@.len(),
            res@ == v@.take(i as int),
        decreases v@.len() - i,
    {
        res.push(v[i].clone());
        i = i + 1;
        assert(res@ =~= v@.take(i as int));
    }
    assert(v@.take(v@.len() as int) =~= v@);
    res
}

/// A copy of an optional string.
fn copy_opt(v: &Option<String>) -> (res: Option<String>)
    ensures
        res == *v,
{
    match v {
        Some(s) => Some(s.clone()),
        None => None,
    }
}

/// The interface-list entry for the adapter `item` at `ip`.
fn interface_info(
    item: &ParsedInterface,
    ip: IpAddress,
    selected_ip: Option<IpAddress>,
    portal_route: Option<&RouteInfo>,
    default_route: Option<&RouteInfo>,
) -> (res: NetworkInterfaceInfo)
    ensures
        describes(res, *item, ip, selected_ip, portal_route, default_route),
{
    let classification = classify_network_interface(
        item.interface_alias.as_str(),
        item.interface_description.as_str(),
        ip,
    );
    let route_to_portal = route_matches_interface(portal_route, item.interface_alias.as_str(), ip);
    let gateway = is_gateway_present(&item.gateway);
    let route_to_internet = route_matches_interface(
        default_route,
        item.interface_alias.as_str(),
        ip,
    ) || gateway;
    let is_selected = selected_ip == Some(ip);
    let is_ten = match ip {
        IpAddress::V4(a, _, _, _) => a == 10,
        IpAddress::V6(..) => false,
    };
    let is_likely_campus = item.is_up && !classification.is_virtual && gateway && is_ten;
    let recommendation = if is_selected {
        string_of("当前选择的登录出口")
    } else if is_likely_campus {
        string_of("可能是校园网")
    } else {
        classification.recommendation
    };
    NetworkInterfaceInfo {
        interface_alias: item.interface_alias.clone(),
        interface_description: item.interface_description.clone(),
        ip: ip_to_string(ip),
        prefix_length: None,
        gateway: copy_opt(&item.gateway),
        dns: copy_strings(&item.dns),
        is_up: item.is_up,
        is_virtual: classification.is_virtual,
        is_likely_campus,
        is_likely_vpn: classification.is_easy_connect || classification.is_clash,
        is_likely_tun: classification.is_tun,
        is_likely_lan: is_private_ip(ip),
        route_to_portal,
        route_to_internet,
        is_selected,
        recommendation,
    }
}


/// The order key of an interface-list entry: selected first, then likely
/// campus, then real before virtual, then up before down, then by name.
pub open spec fn info_key(i: NetworkInterfaceInfo) -> (bool, bool, bool, bool, Seq<char>) {
    (!i.is_selected, !i.is_likely_campus, i.is_virtual, !i.is_up, i.interface_alias@)
}

/// `false` sorts before `true`.
pub open spec fn bool_lt(a: bool, b: bool) -> bool {
    !a && b
}

/// The lexicographic order on entry keys.
pub open spec fn key_lt(
    a: (bool, bool, bool, bool, Seq<char>),
    b: (bool, bool, bool, bool, Seq<char>),
) -> bool {
    if a.0 != b.0 {
        bool_lt(a.0, b.0)
    } else if a.1 != b.1 {
        bool_lt(a.1, b.1)
    } else if a.2 != b.2 {
        bool_lt(a.2, b.2)
    } else if a.3 != b.3 {
        bool_lt(a.3, b.3)
    } else {
        chars_lt(a.4, b.4)
    }
}

/// The key order is a strict total order.
pub proof fn lemma_key_order(
    a: (bool, bool, bool, bool, Seq<char>),
    b: (bool, bool, bool, bool, Seq<char>),
    c: (bool, bool, bool, bool, Seq<char>),
)
    ensures
        !key_lt(a, a),
        key_lt(a, b) && key_lt(b, c) ==> key_lt(a, c),
        a != b ==> key_lt(a, b) || key_lt(b, a),
{
    lemma_chars_lt_irreflexive(a.4);
    if key_lt(a, b) && key_lt(b, c) && a.0 == b.0 && b.0 == c.0 && a.1 == b.1 && b.1 == c.1
        && a.2 == b.2 && b.2 == c.2 && a.3 == b.3 && b.3 == c.3 {
        lemma_chars_lt_transitive(a.4, b.4, c.4);
    }
    if a != b && a.0 == b.0 && a.1 == b.1 && a.2 == b.2 && a.3 == b.3 {
        lemma_chars_lt_total(a.4, b.4);
    }
}

/// Entry `a` comes before entry `b` in a stable sort: a smaller key, or the
/// same key and an earlier place.
pub open spec fn ranks_before(keys: Seq<(bool, bool, bool, bool, Seq<char>)>, a: int, b: int) -> bool {
    key_lt(keys[a], keys[b]) || (keys[a] == keys[b] && a < b)
}

/// `order` lists the places `0..keys.len()` as a stable sort by key
/// arranges them.
pub open spec fn stable_order(keys: Seq<(bool, bool, bool, bool, Seq<char>)>, order: Seq<int>) -> bool {
    &&& order.len() == keys.len()
    &&& forall|k: int| 0 <= k < order.len() ==> 0 <= #[trigger] order[k] < keys.len()
    &&& forall|k: int, l: int|
        0 <= k < l < order.len() ==> ranks_before(keys, #[trigger] order[k], #[trigger] order[l])
}

/// Whether `a` sorts before `b` in code-point order.
pub fn chars_less(a: &[char], b: &[char]) -> (res: bool)
    ensures
        res == chars_lt(a@, b@),
{
    let mut i: usize = 0;
    assert(a@.skip(0) =~= a@ && b@.skip(0) =~= b@);
    while i < a.len() && i < b.len()
        invariant
            i <= a@.len(),
            i <= b@.len(),
            chars_lt(a@, b@) == chars_lt(a@.skip(i as int), b@.skip(i as int)),
        decreases a@.len() - i,
    {
        if a[i] != b[i] {
            return (a[i] as u32) < (b[i] as u32);
        }
        assert(a@.skip(i as int).drop_first() =~= a@.skip(i + 1));
        assert(b@.skip(i as int).drop_first() =~= b@.skip(i + 1));
        i = i + 1;
    }
    i < b.len()
}

/// Whether entry `a` has a smaller key than entry `b`.
fn info_before(a: &NetworkInterfaceInfo, b: &NetworkInterfaceInfo) -> (res: bool)
    ensures
        res == key_lt(info_key(*a), info_key(*b)),
{
    if a.is_selected != b.is_selected {
        return a.is_selected;
    }
    if a.is_likely_campus != b.is_likely_campus {
        return a.is_likely_campus;
    }
    if a.is_virtual != b.is_virtual {
        return !a.is_virtual;
    }
    if a.is_up != b.is_up {
        return a.is_up;
    }
    let x = chars_of(a.interface_alias.as_str());
    let y = chars_of(b.interface_alias.as_str());
    chars_less(x.as_slice(), y.as_slice())
}

/// The keys of a list of entries.
pub open spec fn keys_of(infos: Seq<NetworkInterfaceInfo>) -> Seq<(bool, bool, bool, bool, Seq<char>)> {
    infos.map_values(|i: NetworkInterfaceInfo| info_key(i))
}

/// The places of a list as integers.
pub open spec fn places(order: Seq<usize>) -> Seq<int> {
    order.map_values(|x: usize| x as int)
}

/// The stable sort order of a list of entries (insertion sort on places).
fn stable_sort_order(infos: &Vec<NetworkInterfaceInfo>) -> (res: Vec<usize>)
    ensures
        stable_order(keys_of(infos@), places(res@)),
{
    let ghost keys = keys_of(infos@);
    let mut order: Vec<usize> = Vec::new();
    let mut i: usize = 0;
    while i < infos.len()
        invariant
            i <= infos@.len(),
            keys == keys_of(infos@),
            order@.len() == i,
            forall|k: int| 0 <= k < order@.len() ==> #[trigger] order@[k] < i,
            forall|k: int, l: int|
                0 <= k < l < order@.len() ==> ranks_before(
                    keys,
                    #[trigger] order@[k] as int,
                    #[trigger] order@[l] as int,
                ),
        decreases infos@.len() - i,
    {
        let mut p: usize = 0;
        while p < order.len() && !info_before(&infos[i], &infos[order[p]])
            invariant
                i < infos@.len(),
                keys == keys_of(infos@),
                p <= order@.len(),
                forall|k: int| 0 <= k < order@.len() ==> #[trigger] order@[k] < i,
                forall|k: int|
                    0 <= k < p ==> !key_lt(keys[i as int], keys[#[trigger] order@[k] as int]),
            decreases order@.len() - p,
        {
            p = p + 1;
        }
        let ghost old_order = order@;
        proof {
            assert forall|k: int| p <= k < old_order.len() implies key_lt(
                keys[i as int],
                keys[#[trigger] old_order[k] as int],
            ) by {
                if k > p {
                    assert(ranks_before(keys, old_order[p as int] as int, old_order[k] as int));
                    lemma_key_order(
                        keys[i as int],
                        keys[old_order[p as int] as int],
                        keys[old_order[k] as int],
                    );
                }
            }
            assert forall|k: int| 0 <= k < p implies ranks_before(
                keys,
                #[trigger] old_order[k] as int,
                i as int,
            ) by {
                lemma_key_order(keys[i as int], keys[old_order[k] as int], keys[i as int]);
            }
        }
        order.insert(p, i);
        proof {
            let n = order@;
            assert(n == old_order.insert(p as int, i));
            assert forall|k: int, l: int| 0 <= k < l < n.len() implies ranks_before(
                keys,
                #[trigger] n[k] as int,
                #[trigger] n[l] as int,
            ) by {
                if k < p && l < p {
                    assert(n[k] == old_order[k] && n[l] == old_order[l]);
                } else if k < p && l == p {
                    assert(n[k] == old_order[k]);
                } else if k < p {
                    assert(n[k] == old_order[k] && n[l] == old_order[l - 1]);
                } else if k == p {
                    assert(n[l] == old_order[l - 1]);
                    lemma_key_order(keys[i as int], keys[i as int], keys[i as int]);
                } else {
                    assert(n[k] == old_order[k - 1] && n[l] == old_order[l - 1]);
                }
            }
        }
        i = i + 1;
    }
    let ghost pl = places(order@);
    assert(forall|k: int| 0 <= k < pl.len() ==> #[trigger] pl[k] == order@[k] as int);
    order
}


/// The order key of the entry for the adapter `item` at `ip`.
pub open spec fn item_key(item: ParsedInterface, ip: IpAddress, selected: Option<IpAddress>) -> (
    bool,
    bool,
    bool,
    bool,
    Seq<char>,
) {
    let f = adapter_flags(adapter_text(item.interface_alias@, item.interface_description@), ip);
    (!(selected == Some(ip)), !campus_spec(item, ip), f.5, !item.is_up, item.interface_alias@)
}

/// The order keys of the adapters kept in the list.
pub open spec fn kept_keys(kept: Seq<ParsedInterface>, selected: Option<IpAddress>) -> Seq<
    (bool, bool, bool, bool, Seq<char>),
> {
    kept.map_values(|it: ParsedInterface| item_key(it, v4_of(it).unwrap(), selected))
}

/// `res` is the interface list for `items`: one entry for each adapter with
/// an IPv4 address, sorted stably by selected, likely campus, real, up and
/// name.
pub open spec fn interface_list(
    res: Seq<NetworkInterfaceInfo>,
    items: Seq<ParsedInterface>,
    selected: Option<IpAddress>,
    portal_route: Option<&RouteInfo>,
    default_route: Option<&RouteInfo>,
) -> bool {
    let kept = kept_items(items);
    res.len() == kept.len() && exists|order: Seq<int>|
        stable_order(kept_keys(kept, selected), order) && forall|k: int|
            0 <= k < res.len() ==> describes(
                #[trigger] res[k],
                kept[order[k]],
                v4_of(kept[order[k]]).unwrap(),
                selected,
                portal_route,
                default_route,
            )
}

/// An entry's key is the key of the adapter it describes.
proof fn lemma_describes_key(
    info: NetworkInterfaceInfo,
    item: ParsedInterface,
    ip: IpAddress,
    selected: Option<IpAddress>,
    portal_route: Option<&RouteInfo>,
    default_route: Option<&RouteInfo>,
)
    requires
        describes(info, item, ip, selected, portal_route, default_route),
    ensures
        info_key(info) == item_key(item, ip, selected),
{
}

/// The entries of the adapters with an IPv4 address, in listing order,
/// with the place of each adapter in `items` and its address.
fn kept_entries(
    items: &Vec<ParsedInterface>,
    selected_ip: Option<IpAddress>,
    portal_route: Option<&RouteInfo>,
    default_route: Option<&RouteInfo>,
) -> (res: (Vec<NetworkInterfaceInfo>, Vec<usize>, Vec<IpAddress>))
    ensures
        res.0@.len() == kept_items(items@).len(),
        res.1@.len() == kept_items(items@).len(),
        res.2@.len() == kept_items(items@).len(),
        forall|k: int|
            0 <= k < kept_items(items@).len() ==> #[trigger] res.1@[k] < items@.len()
                && items@[res.1@[k] as int] == kept_items(items@)[k],
        forall|k: int|
            0 <= k < kept_items(items@).len() ==> v4_of(kept_items(items@)[k]) == Some(
                #[trigger] res.2@[k],
            ),
        forall|k: int|
            0 <= k < kept_items(items@).len() ==> describes(
                #[trigger] res.0@[k],
                kept_items(items@)[k],
                res.2@[k],
                selected_ip,
                portal_route,
                default_route,
            ),
{
    let mut unsorted: Vec<NetworkInterfaceInfo> = Vec::new();
    let mut source: Vec<usize> = Vec::new();
    let mut ips: Vec<IpAddress> = Vec::new();
    let ghost mut kept: Seq<ParsedInterface> = Seq::empty();
    let mut i: usize = 0;
    while i < items.len()
        invariant
            i <= items@.len(),
            kept == kept_items(items@.take(i as int)),
            unsorted@.len() == kept.len(),
            source@.len() == kept.len(),
            ips@.len() == kept.len(),
            forall|k: int|
                0 <= k < kept.len() ==> #[trigger] source@[k] < items@.len() && items@[source@[k] as int]
                    == kept[k],
            forall|k: int| 0 <= k < kept.len() ==> v4_of(kept[k]) == Some(#[trigger] ips@[k]),
            forall|k: int|
                0 <= k < kept.len() ==> describes(
                    #[trigger] unsorted@[k],
                    kept[k],
                    ips@[k],
                    selected_ip,
                    portal_route,
                    default_route,
                ),
        decreases items@.len() - i,
    {
        let item = &items[i];
        assert(items@.take(i + 1).drop_last() =~= items@.take(i as int));
        match parse_ip(item.ip.as_str()) {
            Some(IpAddress::V4(a, b, c, d)) => {
                let ip = IpAddress::V4(a, b, c, d);
                unsorted.push(interface_info(item, ip, selected_ip, portal_route, default_route));
                source.push(i);
                ips.push(ip);
                proof {
                    kept = kept.push(*item);
                }
            },
            _ => {},
        }
        i = i + 1;
    }
    assert(items@.take(items@.len() as int) =~= items@);
    (unsorted, source, ips)
}

/// The interface list is sorted by key: no entry has a smaller key than
/// one before it. So the selected login exit, when listed, comes first, and
/// likely campus adapters come before the others of equal selection.
pub proof fn lemma_interface_list_sorted(
    res: Seq<NetworkInterfaceInfo>,
    items: Seq<ParsedInterface>,
    selected: Option<IpAddress>,
    portal_route: Option<&RouteInfo>,
    default_route: Option<&RouteInfo>,
)
    requires
        interface_list(res, items, selected, portal_route, default_route),
    ensures
        forall|k: int, l: int|
            0 <= k < l < res.len() ==> !key_lt(info_key(#[trigger] res[l]), info_key(#[trigger] res[k])),
        forall|k: int| 0 <= k < res.len() && #[trigger] res[k].is_selected ==> res[0].is_selected,
{
    let kept = kept_items(items);
    let keys = kept_keys(kept, selected);
    let order = choose|order: Seq<int>|
        stable_order(keys, order) && forall|k: int|
            0 <= k < res.len() ==> describes(
                #[trigger] res[k],
                kept[order[k]],
                v4_of(kept[order[k]]).unwrap(),
                selected,
                portal_route,
                default_route,
            );
    assert forall|k: int| 0 <= k < res.len() implies info_key(#[trigger] res[k]) == keys[order[k]] by {
        lemma_describes_key(
            res[k],
            kept[order[k]],
            v4_of(kept[order[k]]).unwrap(),
            selected,
            portal_route,
            default_route,
        );
    }
    assert forall|k: int, l: int| 0 <= k < l < res.len() implies !key_lt(
        info_key(#[trigger] res[l]),
        info_key(#[trigger] res[k]),
    ) by {
        assert(ranks_before(keys, order[k], order[l]));
        lemma_key_order(keys[order[k]], keys[order[l]], keys[order[k]]);
    }
    assert forall|k: int| 0 <= k < res.len() && #[trigger] res[k].is_selected implies res[0].is_selected by {
        if k > 0 {
            assert(!key_lt(info_key(res[k]), info_key(res[0])));
        }
    }
}

/// Builds the interface list: adapters without an IPv4 address are left
/// out, the rest are described and sorted.
pub fn build_network_interface_infos(
    items: Vec<ParsedInterface>,
    selected_ip: Option<IpAddress>,
    portal_route: Option<&RouteInfo>,
    default_route: Option<&RouteInfo>,
) -> (res: Vec<NetworkInterfaceInfo>)
    ensures
        interface_list(res@, items@, selected_ip, portal_route, default_route),
{
    let ghost kept = kept_items(items@);
    let (unsorted, source, ips) = kept_entries(&items, selected_ip, portal_route, default_route);
    let ghost keys = kept_keys(kept, selected_ip);
    assert(keys_of(unsorted@) =~= keys) by {
        assert forall|k: int| 0 <= k < keys.len() implies keys_of(unsorted@)[k] == keys[k] by {
            lemma_describes_key(
                unsorted@[k],
                kept[k],
                ips@[k],
                selected_ip,
                portal_route,
                default_route,
            );
        }
    }
    let order = stable_sort_order(&unsorted);
    let mut res: Vec<NetworkInterfaceInfo> = Vec::new();
    let mut k: usize = 0;
    while k < order.len()
        invariant
            k <= order@.len(),
            kept == kept_items(items@),
            order@.len() == kept.len(),
            source@.len() == kept.len(),
            ips@.len() == kept.len(),
            stable_order(keys, places(order@)),
            res@.len() == k,
            forall|q: int|
                0 <= q < kept.len() ==> #[trigger] source@[q] < items@.len() && items@[source@[q] as int]
                    == kept[q],
            forall|q: int| 0 <= q < kept.len() ==> v4_of(kept[q]) == Some(#[trigger] ips@[q]),
            forall|q: int|
                0 <= q < k ==> describes(
                    #[trigger] res@[q],
                    kept[places(order@)[q]],
                    v4_of(kept[places(order@)[q]]).unwrap(),
                    selected_ip,
                    portal_route,
                    default_route,
                ),
        decreases order@.len() - k,
    {
        let o = order[k];
        assert(places(order@)[k as int] == o as int);
        assert(0 <= places(order@)[k as int] < keys.len());
        let s = source[o];
        assert(v4_of(kept[o as int]) == Some(ips@[o as int]));
        res.push(interface_info(&items[s], ips[o], selected_ip, portal_route, default_route));
        k = k + 1;
    }
    assert(stable_order(kept_keys(kept, selected_ip), places(order@)));
    res
}


/// What the interface list says about the login exit and network tools.
#[derive(Clone, Debug)]
pub struct NetworkInterfaceSummary {
    pub campus_candidates: Vec<String>,
    pub virtual_adapters: Vec<String>,
    pub selected_bind_ip: Option<String>,
    pub selected_bind_ip_available: bool,
    pub has_easy_connect: bool,
    pub has_clash: bool,
    pub has_tun: bool,
    pub has_hypomux_like: bool,
}

/// The label of a campus candidate: `alias / ip`.
pub open spec fn campus_label(i: NetworkInterfaceInfo) -> Seq<char> {
    i.interface_alias@ + " / "@ + i.ip@
}

/// The label of a virtual adapter: `alias / ip / recommendation`.
pub open spec fn virtual_label(i: NetworkInterfaceInfo) -> Seq<char> {
    i.interface_alias@ + " / "@ + i.ip@ + " / "@ + i.recommendation@
}

/// The labels of the likely campus entries, in order.
pub open spec fn campus_labels(infos: Seq<NetworkInterfaceInfo>) -> Seq<Seq<char>>
    decreases infos.len(),
{
    if infos.len() == 0 {
        Seq::empty()
    } else if infos.last().is_likely_campus {
        campus_labels(infos.drop_last()).push(campus_label(infos.last()))
    } else {
        campus_labels(infos.drop_last())
    }
}

/// The labels of the virtual entries, in order.
pub open spec fn virtual_labels(infos: Seq<NetworkInterfaceInfo>) -> Seq<Seq<char>>
    decreases infos.len(),
{
    if infos.len() == 0 {
        Seq::empty()
    } else if infos.last().is_virtual {
        virtual_labels(infos.drop_last()).push(virtual_label(infos.last()))
    } else {
        virtual_labels(infos.drop_last())
    }
}

/// The text an entry is searched for tool names in.
pub open spec fn entry_text(i: NetworkInterfaceInfo) -> Seq<char> {
    adapter_text(i.interface_alias@, i.interface_description@)
}

/// Marks of multi-adapter dispatch tools.
pub open spec fn hypomux_words() -> Seq<Seq<char>> {
    seq!["hypomux"@, "mux"@, "dispatch"@, "teaming"@]
}

/// At most the first `n` items.
pub open spec fn first_n(s: Seq<Seq<char>>, n: nat) -> Seq<Seq<char>> {
    if s.len() <= n {
        s
    } else {
        s.take(n as int)
    }
}

/// `s` summarizes the entries `infos` for the login exit `selected`: up to
/// four campus candidates and five virtual adapters, whether the selected
/// exit is listed, and which tools show.
pub open spec fn summarizes(
    s: NetworkInterfaceSummary,
    infos: Seq<NetworkInterfaceInfo>,
    selected: Option<IpAddress>,
) -> bool {
    &&& views(s.campus_candidates@) == first_n(campus_labels(infos), 4)
    &&& views(s.virtual_adapters@) == first_n(virtual_labels(infos), 5)
    &&& opt_view(s.selected_bind_ip) == (match selected {
        Some(ip) => Some(ip_text(ip)),
        None => None,
    })
    &&& s.selected_bind_ip_available == exists|k: int|
        0 <= k < infos.len() && #[trigger] infos[k].is_selected
    &&& s.has_easy_connect == exists|k: int|
        0 <= k < infos.len() && any_contains(
            entry_text(#[trigger] infos[k]),
            seq!["easyconnect"@, "sangfor"@],
        )
    &&& s.has_clash == exists|k: int|
        0 <= k < infos.len() && any_contains(entry_text(#[trigger] infos[k]), clash_words())
    &&& s.has_tun == exists|k: int| 0 <= k < infos.len() && #[trigger] infos[k].is_likely_tun
    &&& s.has_hypomux_like == exists|k: int|
        0 <= k < infos.len() && any_contains(entry_text(#[trigger] infos[k]), hypomux_words())
}

/// A summary lists at most four campus candidates and five virtual
/// adapters.
pub proof fn lemma_summary_bounds(
    s: NetworkInterfaceSummary,
    infos: Seq<NetworkInterfaceInfo>,
    selected: Option<IpAddress>,
)
    requires
        summarizes(s, infos, selected),
    ensures
        s.campus_candidates@.len() <= 4,
        s.virtual_adapters@.len() <= 5,
{
    assert(views(s.campus_candidates@).len() == s.campus_candidates@.len());
    assert(views(s.virtual_adapters@).len() == s.virtual_adapters@.len());
}

/// Keeps at most the first `n` strings.
fn keep_first(v: &mut Vec<String>, n: usize)
    ensures
        views(final(v)@) == first_n(views(old(v)@), n as nat),
{
    if v.len() > n {
        v.truncate(n);
        assert(views(v@) =~= views(old(v)@).take(n as int));
    }
}

/// Summarizes an interface list.
pub fn summarize_interface_infos(infos: &Vec<NetworkInterfaceInfo>, selected_ip: Option<
    IpAddress,
>) -> (res: NetworkInterfaceSummary)
    ensures
        summarizes(res, infos@, selected_ip),
{
    let mut campus: Vec<String> = Vec::new();
    let mut virt: Vec<String> = Vec::new();
    let mut available = false;
    let mut easy = false;
    let mut clash = false;
    let mut tun = false;
    let mut mux = false;
    let mut i: usize = 0;
    while i < infos.len()
        invariant
            i <= infos@.len(),
            views(campus@) == campus_labels(infos@.take(i as int)),
            views(virt@) == virtual_labels(infos@.take(i as int)),
            available == exists|k: int| 0 <= k < i && #[trigger] infos@[k].is_selected,
            easy == exists|k: int|
                0 <= k < i && any_contains(
                    entry_text(#[trigger] infos@[k]),
                    seq!["easyconnect"@, "sangfor"@],
                ),
            clash == exists|k: int|
                0 <= k < i && any_contains(entry_text(#[trigger] infos@[k]), clash_words()),
            tun == exists|k: int| 0 <= k < i && #[trigger] infos@[k].is_likely_tun,
            mux == exists|k: int|
                0 <= k < i && any_contains(entry_text(#[trigger] infos@[k]), hypomux_words()),
        decreases infos@.len() - i,
    {
        let item = &infos[i];
        let ghost t = infos@.take(i + 1);
        assert(t.drop_last() =~= infos@.take(i as int));
        assert(t.last() == infos@[i as int]);
        let mut label = chars_of(item.interface_alias.as_str());
        append_str(&mut label, " / ");
        append_str(&mut label, item.ip.as_str());
        if item.is_likely_campus {
            campus.push(string_from(label.as_slice()));
            assert(views(campus@) =~= campus_labels(t));
        }
        if item.is_virtual {
            let mut vl = label.clone();
            append_str(&mut vl, " / ");
            append_str(&mut vl, item.recommendation.as_str());
            virt.push(string_from(vl.as_slice()));
            assert(views(virt@) =~= virtual_labels(t));
        }
        if item.is_selected {
            available = true;
        }
        let mut name = chars_of(item.interface_alias.as_str());
        append_str(&mut name, " ");
        append_str(&mut name, item.interface_description.as_str());
        let l = lowercase_chars(name.as_slice());
        assert(l@ == entry_text(infos@[i as int]));
        let e_needles = ["easyconnect", "sangfor"];
        let c_needles = ["clash", "mihomo"];
        let m_needles = ["hypomux", "mux", "dispatch", "teaming"];
        let e = contains_any(l.as_slice(), &e_needles);
        let c = contains_any(l.as_slice(), &c_needles);
        let m = contains_any(l.as_slice(), &m_needles);
        assert(str_views(e_needles@) =~= seq!["easyconnect"@, "sangfor"@]);
        assert(str_views(c_needles@) =~= clash_words());
        assert(str_views(m_needles@) =~= hypomux_words());
        easy = easy || e;
        clash = clash || c;
        tun = tun || item.is_likely_tun;
        mux = mux || m;
        i = i + 1;
    }
    assert(infos@.take(infos@.len() as int) =~= infos@);
    keep_first(&mut campus, 4);
    keep_first(&mut virt, 5);
    let selected_bind_ip = match selected_ip {
        Some(ip) => Some(ip_to_string(ip)),
        None => None,
    };
    NetworkInterfaceSummary {
        campus_candidates: campus,
        virtual_adapters: virt,
        selected_bind_ip,
        selected_bind_ip_available: available,
        has_easy_connect: easy,
        has_clash: clash,
        has_tun: tun,
        has_hypomux_like: mux,
    }
}

/// Summarizes the adapters `items` (read from the system) for the login
/// exit `selected_ip`.
pub fn summarize_network_interfaces(items: Vec<ParsedInterface>, selected_ip: Option<IpAddress>) -> (res:
    NetworkInterfaceSummary)
    ensures
        exists|infos: Seq<NetworkInterfaceInfo>|
            interface_list(infos, items@, selected_ip, None, None) && summarizes(
                res,
                infos,
                selected_ip,
            ),
{
    let infos = build_network_interface_infos(items, selected_ip, None, None);
    summarize_interface_infos(&infos, selected_ip)
}

/// The text of the login exit part of a summary.
pub open spec fn exit_part(s: NetworkInterfaceSummary) -> Seq<char> {
    match opt_view(s.selected_bind_ip) {
        Some(ip) => if s.selected_bind_ip_available {
            "已指定登录出口 "@ + ip
        } else {
            "已指定登录出口 "@ + ip + "，但当前网卡列表未发现该 IP"@
        },
        None => "登录出口为自动选择"@,
    }
}

/// The tool names a summary shows.
pub open spec fn tool_names(s: NetworkInterfaceSummary) -> Seq<Seq<char>> {
    let a: Seq<Seq<char>> = if s.has_easy_connect {
        seq!["EasyConnect/Sangfor"@]
    } else {
        Seq::empty()
    };
    let b = if s.has_clash {
        a.push("Clash/mihomo"@)
    } else {
        a
    };
    let c = if s.has_tun {
        b.push("TUN/TAP"@)
    } else {
        b
    };
    if s.has_hypomux_like {
        c.push("多网卡工具"@)
    } else {
        c
    }
}

/// The parts of a summary text, in order.
pub open spec fn summary_parts(s: NetworkInterfaceSummary) -> Seq<Seq<char>> {
    let campus = views(s.campus_candidates@);
    let virt = views(s.virtual_adapters@);
    let p1 = seq![exit_part(s)];
    let p2 = if campus.len() == 0 {
        p1.push("未发现明确校园网候选"@)
    } else {
        p1.push("校园网候选 "@ + decimal(campus.len()) + " 个："@ + join(campus, "、"@))
    };
    let p3 = if virt.len() == 0 {
        p2
    } else {
        p2.push("检测到网络工具/虚拟网卡 "@ + decimal(virt.len()) + " 个："@ + join(virt, "、"@))
    };
    if tool_names(s).len() == 0 {
        p3
    } else {
        p3.push("网络工具特征："@ + join(tool_names(s), "、"@))
    }
}

/// The summary as one line of text, its parts joined by `；`.
pub fn format_interface_summary(summary: &NetworkInterfaceSummary) -> (res: String)
    ensures
        res@ == join(summary_parts(*summary), "；"@),
{
    let mut parts: Vec<String> = Vec::new();
    match &summary.selected_bind_ip {
        Some(ip) => {
            let mut p = chars_of("已指定登录出口 ");
            append_str(&mut p, ip.as_str());
            if !summary.selected_bind_ip_available {
                append_str(&mut p, "，但当前网卡列表未发现该 IP");
            }
            parts.push(string_from(p.as_slice()));
        },
        None => parts.push(string_of("登录出口为自动选择")),
    }
    if summary.campus_candidates.len() == 0 {
        parts.push(string_of("未发现明确校园网候选"));
    } else {
        let mut p = chars_of("校园网候选 ");
        let n = decimal_string(summary.campus_candidates.len() as u128);
        append_str(&mut p, n.as_str());
        append_str(&mut p, " 个：");
        let j = join_strings(&summary.campus_candidates, "、");
        append_str(&mut p, j.as_str());
        parts.push(string_from(p.as_slice()));
    }
    if summary.virtual_adapters.len() > 0 {
        let mut p = chars_of("检测到网络工具/虚拟网卡 ");
        let n = decimal_string(summary.virtual_adapters.len() as u128);
        append_str(&mut p, n.as_str());
        append_str(&mut p, " 个：");
        let j = join_strings(&summary.virtual_adapters, "、");
        append_str(&mut p, j.as_str());
        parts.push(string_from(p.as_slice()));
    }
    let mut tools: Vec<String> = Vec::new();
    if summary.has_easy_connect {
        tools.push(string_of("EasyConnect/Sangfor"));
    }
    if summary.has_clash {
        tools.push(string_of("Clash/mihomo"));
    }
    if summary.has_tun {
        tools.push(string_of("TUN/TAP"));
    }
    if summary.has_hypomux_like {
        tools.push(string_of("多网卡工具"));
    }
    assert(views(tools@) =~= tool_names(*summary));
    if tools.len() > 0 {
        let mut p = chars_of("网络工具特征：");
        let j = join_strings(&tools, "、");
        append_str(&mut p, j.as_str());
        parts.push(string_from(p.as_slice()));
    }
    assert(views(parts@) =~= summary_parts(*summary));
    join_strings(&parts, "；")
}

} // verus!
