use gdou_net_login::config::{default_for_os, AppConfig};
use gdou_net_login::diag::{
    empty_dash, format_network_diagnostics, format_probe_traces, format_route, is_virtual_route,
    route_from_json, tun_in_adapter_names, NetworkDiagnostics, RouteInfo,
};
use gdou_net_login::error::SrunError;
use gdou_net_login::ip::{ip_to_string, parse_ip, IpAddress};
use gdou_net_login::ipconfig::{
    clean_ipconfig_value, decode_windows_command_output, looks_like_ipv4,
    parse_ipconfig_interfaces, split_ipconfig_field,
};
use gdou_net_login::monitor::{
    auth_too_soon_text, command_too_soon_text, logout_command_report, online_from_state_reply,
    self_test_done, self_test_logout_note, self_test_progress, self_test_recovered,
    self_test_unrecovered, cooldown_wait, logout_report, new_monitor, next_round_delay_secs, online_status_of,
    online_status_to_option, plan_after_status, record_round, status_check_report,
    open_round, wait_step, PortalOnlineStatus, ReconnectCycleState, RoundOpening, RoundPlan,
    WaitStep,
};
use gdou_net_login::netif::{
    build_network_interface_infos, classify_network_adapter, classify_network_interface,
    contains_any, is_gateway_present,
    summarize_network_interfaces, ParsedInterface,
};
use gdou_net_login::probe::{PortalProbe, PortalProbeTrace};
use gdou_net_login::report::{challenge_ok, challenge_skip, diagnosis_report};
use gdou_net_login::settings::{
    build_config, build_config_without_username, detect_portal_status, enrich_step,
    refresh_user_ip, take_detected_portal, ui_config_from_app_config, use_form_portal,
    EnrichAction, EnrichEvent, EnrichStage, UiConfig,
};
use gdou_net_login::text::shorten;

fn ip(text: &str) -> IpAddress {
    parse_ip(text).unwrap()
}

fn form() -> UiConfig {
    ui_config_from_app_config(
        &AppConfig { username: "student".to_string(), ..default_for_os("windows") },
        "secret".to_string(),
    )
}

const IPCONFIG_EN: &str = "Windows IP Configuration\r\n\r\nEthernet adapter Ethernet:\r\n\r\n   Media State . . . . . . . . . . . : Media disconnected\r\n   Description . . . . . . . . . . . : Realtek PCIe GbE\r\n   IPv4 Address. . . . . . . . . . . : 10.0.3.20(Preferred) \r\n\r\nWireless LAN adapter WLAN:\r\n\r\n   Description . . . . . . . . . . . : Intel Wi-Fi 6\r\n   IPv4 Address. . . . . . . . . . . : 10.138.26.168(Preferred) \r\n   Default Gateway . . . . . . . . . : 10.138.0.1\r\n   DNS Servers . . . . . . . . . . . : 10.1.1.1\r\n                                       10.1.1.2\r\n\r\nTunnel adapter isatap:\r\n\r\n   Description . . . . . . . . . . . : Microsoft ISATAP Adapter\r\n";

#[test]
fn reads_english_ipconfig_output() {
    let items = parse_ipconfig_interfaces(IPCONFIG_EN);
    assert_eq!(items.len(), 2);
    assert_eq!(items[0].interface_alias, "Ethernet adapter Ethernet");
    assert!(!items[0].is_up);
    assert_eq!(items[0].ip, "10.0.3.20");
    assert_eq!(items[1].interface_alias, "Wireless LAN adapter WLAN");
    assert_eq!(items[1].interface_description, "Intel Wi-Fi 6");
    assert_eq!(items[1].gateway.as_deref(), Some("10.138.0.1"));
    assert_eq!(items[1].dns, vec!["10.1.1.1".to_string(), "10.1.1.2".to_string()]);
    assert!(items[1].is_up);
}

#[test]
fn reads_chinese_ipconfig_output() {
    let text = "以太网适配器 以太网:\n\n   描述. . . . . . . . . . . . . . . : Realtek\n   IPv4 地址 . . . . . . . . . . . . : 10.0.0.5(首选)\n   默认网关. . . . . . . . . . . . . : \n   DNS 服务器  . . . . . . . . . . . : 10.0.0.1\n";
    let items = parse_ipconfig_interfaces(text);
    assert_eq!(items.len(), 1);
    assert_eq!(items[0].interface_alias, "以太网适配器 以太网");
    assert_eq!(items[0].interface_description, "Realtek");
    assert_eq!(items[0].ip, "10.0.0.5");
    assert_eq!(items[0].gateway, None);
    assert_eq!(items[0].dns, vec!["10.0.0.1".to_string()]);
}

#[test]
fn ipconfig_fields_are_cleaned() {
    assert_eq!(clean_ipconfig_value(" 10.0.0.5(Preferred) "), "10.0.0.5");
    assert_eq!(clean_ipconfig_value("example.com..."), "example.com");
    assert_eq!(
        split_ipconfig_field("IPv4 Address. . . : 10.0.0.5"),
        Some(("IPv4 Address. . .".to_string(), "10.0.0.5".to_string()))
    );
    assert_eq!(split_ipconfig_field("no colon here"), None);
    assert!(looks_like_ipv4("  10.1.1.2  extra"));
    assert!(!looks_like_ipv4("fe80::1"));
    assert!(!looks_like_ipv4("   "));
    assert_eq!(decode_windows_command_output("plain".as_bytes()), "plain");
}

#[test]
fn classification_by_name_only() {
    let c = classify_network_adapter("WLAN");
    assert_eq!(c.kind, "WLAN");
    assert!(c.is_likely_srun_exit);
    assert_eq!(c.recommendation, "可作为校园网登录出口候选");
    let lo = classify_network_adapter("Loopback Pseudo-Interface 1");
    assert_eq!(lo.kind, "本机回环");
    assert_eq!(lo.recommendation, "无效登录出口，不建议用于校园网登录");
    assert!(contains_any(&['a', 'b', 'c'], &["x", "bc"]));
    assert!(!contains_any(&['a', 'b', 'c'], &["x", "cb"]));
}

#[test]
fn gateways_must_be_real() {
    assert!(is_gateway_present(&Some(" 10.0.0.1 ".to_string())));
    assert!(!is_gateway_present(&Some("0.0.0.0".to_string())));
    assert!(!is_gateway_present(&Some("  ".to_string())));
    assert!(!is_gateway_present(&None));
}

#[test]
fn interface_list_keeps_ipv4_adapters_only_and_sorts_them() {
    let items = vec![
        ParsedInterface { interface_alias: "b".to_string(), ip: "10.0.0.2".to_string(), is_up: true, ..ParsedInterface::default() },
        ParsedInterface { interface_alias: "v6".to_string(), ip: "fe80::1".to_string(), is_up: true, ..ParsedInterface::default() },
        ParsedInterface { interface_alias: "a".to_string(), ip: "10.0.0.1".to_string(), is_up: true, ..ParsedInterface::default() },
        ParsedInterface { interface_alias: "down".to_string(), ip: "10.0.0.3".to_string(), is_up: false, ..ParsedInterface::default() },
        ParsedInterface { interface_alias: "none".to_string(), ..ParsedInterface::default() },
    ];
    let infos = build_network_interface_infos(items, None, None, None);
    let names: Vec<&str> = infos.iter().map(|i| i.interface_alias.as_str()).collect();
    assert_eq!(names, vec!["a", "b", "down"]);
    assert!(infos[0].is_likely_lan);
    assert_eq!(infos[0].recommendation, "仅用于流量展示");
}

#[test]
fn summary_of_adapters() {
    let items = vec![
        ParsedInterface {
            interface_alias: "WLAN".to_string(),
            interface_description: "Intel Wi-Fi".to_string(),
            ip: "10.0.2.20".to_string(),
            gateway: Some("10.0.2.1".to_string()),
            is_up: true,
            ..ParsedInterface::default()
        },
        ParsedInterface {
            interface_alias: "Clash".to_string(),
            interface_description: "Mihomo TUN".to_string(),
            ip: "198.18.0.1".to_string(),
            is_up: true,
            ..ParsedInterface::default()
        },
    ];
    let summary = summarize_network_interfaces(items, Some(ip("10.0.2.20")));
    assert_eq!(summary.campus_candidates, vec!["WLAN / 10.0.2.20".to_string()]);
    assert_eq!(summary.virtual_adapters, vec!["Clash / 198.18.0.1 / 网络工具/虚拟网卡，不建议用于校园网登录".to_string()]);
    assert!(summary.selected_bind_ip_available);
    assert!(summary.has_clash && summary.has_tun && !summary.has_easy_connect);
    assert_eq!(summary.selected_bind_ip.as_deref(), Some("10.0.2.20"));
}

#[test]
fn routes_through_proxy_tools_are_virtual() {
    assert!(is_virtual_route("Meta", None, None));
    assert!(is_virtual_route("eth0", Some(ip("198.18.0.5")), None));
    assert!(is_virtual_route("eth0", None, Some("198.19.1.1")));
    assert!(!is_virtual_route("WLAN", Some(ip("10.0.0.2")), Some("10.0.0.1")));
    let route = route_from_json(r#" {"IPAddress":"198.18.0.1","InterfaceAlias":"Meta","NextHop":""} "#).unwrap();
    assert_eq!(route.interface, "Meta");
    assert_eq!(route.next_hop, None);
    assert!(route.virtual_route);
    assert!(route_from_json(r#"{"IPAddress":"10.0.0.1"}"#).is_none());
    assert!(route_from_json("not json").is_none());
    assert!(tun_in_adapter_names("WLAN\r\nwintun\r\n"));
    assert!(!tun_in_adapter_names("WLAN\r\nEthernet\r\n"));
}

#[test]
fn network_report_texts() {
    let route = RouteInfo {
        interface: "WLAN".to_string(),
        source: Some(ip("10.0.0.2")),
        next_hop: None,
        virtual_route: true,
    };
    assert_eq!(format_route(&route), "WLAN source=10.0.0.2 next_hop=-");
    let info = NetworkDiagnostics {
        system_proxy: Some("127.0.0.1:7890".to_string()),
        default_route: None,
        portal_route: Some(route),
        tun_detected: true,
    };
    assert_eq!(
        format_network_diagnostics(&info),
        "系统代理已开启(127.0.0.1:7890)，SRUN 请求仍按程序直连；检测到可能的 TUN/虚拟网卡；Portal 路由可能经过网络工具/TUN：WLAN source=10.0.0.2 next_hop=-；建议将校园网网段设置为 DIRECT"
    );
    assert_eq!(format_probe_traces(&[]), "探测明细：\n- 无探测记录");
    let traces = vec![
        PortalProbeTrace {
            target: "http://a/".to_string(),
            status: Some(302),
            location: Some("http://b/".to_string()),
            error: None,
            portal_url: None,
            ac_id: None,
            user_ip: None,
        },
        PortalProbeTrace {
            target: "http://c/".to_string(),
            status: None,
            location: None,
            error: None,
            portal_url: Some("http://p".to_string()),
            ac_id: Some(3),
            user_ip: None,
        },
    ];
    assert_eq!(
        format_probe_traces(&traces),
        "探测明细：\n- http://a/ [302] 重定向但未解析：http://b/\n- http://c/ [-] 命中 Portal=http://p ac_id=3 IP=-"
    );
    assert_eq!(empty_dash(""), "-");
    assert_eq!(empty_dash("x"), "x");
    assert_eq!(shorten("abcdef", 3), "abc...");
    assert_eq!(shorten("abc", 3), "abc");
}

#[test]
fn online_status_from_state_replies() {
    assert_eq!(online_status_of(Ok(r#"cb({"error":"ok"})"#.to_string())).unwrap(), PortalOnlineStatus::Online);
    assert_eq!(online_status_of(Ok(r#"cb({"error":"not_online"})"#.to_string())).unwrap(), PortalOnlineStatus::Offline);
    assert_eq!(online_status_of(Ok(r#"cb({"error":"speed_limit"})"#.to_string())).unwrap(), PortalOnlineStatus::Unknown);
    let unreadable = online_status_of(Ok("junk".to_string())).unwrap_err();
    assert!(matches!(unreadable, SrunError::LoginStateParse(Some(_))));
    assert_eq!(
        unreadable.message(),
        "failed to parse login state: expected value at line 1 column 1"
    );
    assert_eq!(
        online_status_of(Ok(r#"cb({"online_ip":"10.1.2.3"})"#.to_string())).unwrap_err(),
        SrunError::LoginStateParse(None)
    );
    let failed = online_status_of(Err("timeout".to_string()));
    assert_eq!(online_status_to_option(&failed), None);
    assert_eq!(online_status_to_option(&Ok(PortalOnlineStatus::Offline)), Some(false));
    let (text, online) = status_check_report(&failed);
    assert_eq!(text, "Portal 状态接口失败：timeout");
    assert_eq!(online, None);
    assert_eq!(
        logout_report("logout ok", &Ok(PortalOnlineStatus::Offline)),
        "logout ok; 二次检测已确认离线"
    );
}

#[test]
fn reconnect_rounds_are_announced_once() {
    let cfg = default_for_os("windows");
    let mut monitor = new_monitor();
    let first = record_round(&mut monitor, Ok((ReconnectCycleState::Online, "online".to_string(), None)));
    assert_eq!(first.unwrap().status, "Auto reconnect: online");
    let second = record_round(&mut monitor, Ok((ReconnectCycleState::Online, "online".to_string(), None)));
    assert!(second.is_none());
    assert_eq!(next_round_delay_secs(&cfg, &monitor), 60);
    let failed = record_round(&mut monitor, Err(SrunError::Transport("boom".to_string())));
    assert_eq!(failed.unwrap().status, "Auto reconnect failed: boom");
    assert_eq!(next_round_delay_secs(&cfg, &monitor), 15);
    let again = record_round(&mut monitor, Err(SrunError::Transport("boom".to_string())));
    assert!(again.is_some());
    let outlet = record_round(
        &mut monitor,
        Err(SrunError::Transport("[bind_ip_fallback_unavailable] outlet gone".to_string())),
    );
    assert_eq!(outlet.unwrap().status, "登录出口不可用，自动重连已暂停：[bind_ip_fallback_unavailable] outlet gone");
    assert_eq!(monitor.last_state, Some(ReconnectCycleState::WaitingForNetwork));
}

#[test]
fn rounds_plan_by_status() {
    let cfg = AppConfig { ac_id: None, ..default_for_os("windows") };
    assert!(matches!(plan_after_status(&cfg, &Ok(PortalOnlineStatus::Offline)), RoundPlan::LogIn(true)));
    match plan_after_status(&cfg, &Ok(PortalOnlineStatus::Online)) {
        RoundPlan::Conclude(state, message) => {
            assert_eq!(state, ReconnectCycleState::Online);
            assert_eq!(message, "online");
        },
        other => panic!("unexpected {other:?}"),
    }
    match plan_after_status(&cfg, &Err(SrunError::LoginStateParse(None))) {
        RoundPlan::Conclude(state, message) => {
            assert_eq!(state, ReconnectCycleState::WaitingForPortal);
            assert_eq!(message, "Portal 状态接口失败，自动重连已暂停本轮：failed to parse login state");
        },
        other => panic!("unexpected {other:?}"),
    }
    assert_eq!(cooldown_wait(Some(2_500_000_000), 10_000_000_000), Some(7));
    assert_eq!(cooldown_wait(Some(9_999_000_000), 10_000_000_000), Some(1));
    assert_eq!(cooldown_wait(Some(10_000_000_000), 10_000_000_000), None);
    assert_eq!(cooldown_wait(None, 10_000_000_000), None);
}

#[test]
fn form_is_read_into_settings() {
    let mut ui = form();
    ui.portal_url = " http://10.129.1.1/srun_portal_success?ac_id=5&wlanuserip=10.1.2.3 ".to_string();
    ui.retry_seconds = 3;
    ui.online_check_seconds = 10;
    ui.username = "  student ".to_string();
    let cfg = build_config(&ui, true).unwrap();
    assert_eq!(cfg.portal_url, "http://10.129.1.1");
    assert_eq!(cfg.ac_id, Some(5));
    assert_eq!(ip_to_string(cfg.user_ip.unwrap()), "10.1.2.3");
    assert_eq!(cfg.username, "student");
    assert_eq!(cfg.retry_seconds, 15);
    assert_eq!(cfg.online_check_seconds, 60);
    assert!(cfg.startup_enabled);
    let back = ui_config_from_app_config(&cfg, "pw".to_string());
    assert_eq!(back.ac_id, "5");
    assert_eq!(back.user_ip, "10.1.2.3");
    assert_eq!(back.bind_ip, "");

    let mut bad = form();
    bad.ac_id = "x1".to_string();
    assert_eq!(build_config(&bad, false).unwrap_err(), SrunError::InvalidAcId);
    let mut anon = form();
    anon.username = " ".to_string();
    assert_eq!(build_config(&anon, false).unwrap_err(), SrunError::UsernameRequired);
    assert!(build_config_without_username(&anon, false).is_ok());
    let mut no_probe = form();
    no_probe.probe_url = "".to_string();
    assert_eq!(build_config(&no_probe, false).unwrap_err().message(), "probe url is required");
    let mut bad_ip = form();
    bad_ip.user_ip = "10.1".to_string();
    assert_eq!(build_config(&bad_ip, false).unwrap_err(), SrunError::InvalidClientIp);
    let mut bad_bind = form();
    bad_bind.bind_ip = "nope".to_string();
    assert_eq!(build_config(&bad_bind, false).unwrap_err(), SrunError::InvalidBindIp);
}

#[test]
fn detection_fills_missing_settings() {
    let mut cfg = default_for_os("windows");
    let detected = gdou_net_login::probe::PortalProbe {
        portal_url: Some("http://10.129.1.1/index_17.html?ac_id=17".to_string()),
        ac_id: None,
        user_ip: Some(ip("10.1.2.3")),
    };
    assert_eq!(take_detected_portal(&mut cfg, &detected), Ok(true));
    assert_eq!(cfg.portal_url, "http://10.129.1.1");
    assert_eq!(cfg.ac_id, Some(17));
    assert!(refresh_user_ip(&mut cfg, Some(ip("10.1.2.4"))));
    assert!(!refresh_user_ip(&mut cfg, Some(ip("10.1.2.4"))));
    assert!(!refresh_user_ip(&mut cfg, None));
    let ui = ui_config_from_app_config(&cfg, String::new());
    assert_eq!(detect_portal_status(&ui), Ok("已探测 Portal / ac_id / IP".to_string()));
    let empty = ui_config_from_app_config(&default_for_os("windows"), String::new());
    assert!(detect_portal_status(&empty).is_err());
}

#[test]
fn diagnosis_report_lists_everything() {
    let cfg = AppConfig {
        portal_url: "http://10.129.1.1".to_string(),
        username: "student".to_string(),
        ac_id: Some(1),
        user_ip: Some(ip("10.1.2.3")),
        ..default_for_os("windows")
    };
    assert_eq!(challenge_skip(&cfg), None);
    assert_eq!(challenge_skip(&default_for_os("windows")), Some("未测试：账号为空".to_string()));
    let challenge = challenge_ok("http://10.129.1.1", 1, ip("10.1.2.3"), "abcd");
    assert_eq!(challenge, "challenge ok: portal=http://10.129.1.1, ac_id=1, ip=10.1.2.3, token_len=4");
    let network = NetworkDiagnostics { system_proxy: None, default_route: None, portal_route: None, tun_detected: false };
    let summary = summarize_network_interfaces(Vec::new(), None);
    let text = diagnosis_report(
        &cfg,
        &Ok(PortalOnlineStatus::Online),
        &network,
        &summary,
        Some(ip("10.1.2.9")),
        Some(ip("10.1.2.9")),
        &challenge,
        true,
        &[],
    );
    assert!(text.starts_with("诊断\n结论：已在线，自动重连守护运行中\nPortal：http://10.129.1.1\nac_id：1\n"));
    assert!(text.contains("\n登录出口选择：自动选择\n"));
    assert!(text.contains("提示：保存的客户端 IP 与当前校园网 IP 不一致；登录会优先使用当前 IP 10.1.2.9"));
    assert!(text.contains("\nrad_user_info：online\n自动重连守护：运行中\n网络路径：系统代理未开启\n"));
    assert!(text.contains("网卡摘要：登录出口为自动选择；未发现明确校园网候选"));
    assert!(text.ends_with("探测明细：\n- 无探测记录"));
}

#[test]
fn command_texts() {
    assert_eq!(auth_too_soon_text(7), "认证请求过于频繁，请 7 秒后再试");
    assert_eq!(command_too_soon_text(1), "操作过于频繁，请 1 秒后再试");
    assert_eq!(
        logout_command_report("logout ok", Some(false), true),
        ("logout ok; 自动重连已继续守护".to_string(), None)
    );
    assert_eq!(logout_command_report("logout ok", Some(false), false), ("logout ok".to_string(), Some(false)));
    assert_eq!(online_from_state_reply(&Ok(r#"cb({"error":"ok"})"#.to_string())), Some(true));
    assert_eq!(online_from_state_reply(&Ok(r#"cb({"error":"not_online"})"#.to_string())), Some(false));
    assert_eq!(online_from_state_reply(&Err("down".to_string())), None);
    assert_eq!(self_test_logout_note(&Ok("logout ok".to_string())), "logout ok");
    assert_eq!(
        self_test_logout_note(&Err(SrunError::AcIdRequired)),
        "退出阶段返回：ac_id is required when auto detection is disabled"
    );
    assert_eq!(self_test_progress("logout ok"), "重连自测：logout ok；开始直接登录验证");
    assert_eq!(self_test_done("login_ok"), "重连自测完成：login_ok");
    assert_eq!(self_test_recovered("boom"), "重连自测失败，自动重连已恢复：boom");
    assert_eq!(
        self_test_unrecovered("boom", &SrunError::Transport("busy".to_string())),
        "boom; 自动重连恢复失败：busy"
    );
    let mut detected = form();
    detected.portal_url = String::new();
    let mut with_portal = form();
    with_portal.portal_url = "http://10.129.1.1".to_string();
    assert!(use_form_portal(&detected, &with_portal));
    assert!(!use_form_portal(&with_portal, &detected));
}

#[test]
fn classification_ignores_case_and_shows_exit_advice_only_for_exits() {
    let cases = [
        ("WLAN", "Intel(R) Wi-Fi 6 AX201", "10.1.2.3"),
        ("以太网", "Realtek PCIe GbE Family Controller", "10.1.2.4"),
        ("Clash", "Meta Tunnel", "198.18.0.1"),
        ("EasyConnect", "Sangfor SSL VPN CS Support System VNIC", "2.0.0.1"),
        ("vEthernet (WSL)", "Hyper-V Virtual Ethernet Adapter", "172.20.0.1"),
    ];
    for (name, description, address) in cases {
        let c = classify_network_interface(name, description, parse_ip(address).unwrap());
        let u = classify_network_interface(
            &name.to_ascii_uppercase(),
            &description.to_ascii_uppercase(),
            parse_ip(address).unwrap(),
        );
        assert_eq!(c.is_likely_srun_exit, c.recommendation == "可作为校园网登录出口候选");
        assert_eq!(
            (u.kind, u.recommendation, u.is_virtual, u.is_tun, u.is_easy_connect, u.is_clash, u.is_likely_srun_exit),
            (c.kind, c.recommendation, c.is_virtual, c.is_tun, c.is_easy_connect, c.is_clash, c.is_likely_srun_exit)
        );
    }
}

#[test]
fn easyconnect_pauses_the_round_before_any_request() {
    assert!(matches!(open_round(true, true), RoundOpening::Stop));
    assert!(matches!(open_round(false, false), RoundOpening::Proceed));
    match open_round(false, true) {
        RoundOpening::Pause(state, message) => {
            assert_eq!(state, ReconnectCycleState::PausedForEasyConnect);
            assert_eq!(message, "检测到 EasyConnect 已连接，校园网自动重连已暂停");
            let cfg = AppConfig { retry_seconds: 30, ..default_for_os("windows") };
            let mut monitor = new_monitor();
            assert!(record_round(&mut monitor, Ok((state, message, None))).is_some());
            assert_eq!(next_round_delay_secs(&cfg, &monitor), 30);
        }
        other => panic!("unexpected {other:?}"),
    }
}

#[test]
fn watcher_waits_in_five_second_steps_and_stops_when_asked() {
    assert_eq!(wait_step(false, 0, 60), WaitStep::Sleep(5));
    assert_eq!(wait_step(false, 55, 60), WaitStep::Sleep(5));
    assert_eq!(wait_step(false, 60, 60), WaitStep::NextRound);
    assert_eq!(wait_step(true, 10, 60), WaitStep::Quit);
    assert_eq!(wait_step(true, 60, 60), WaitStep::NextRound);
}

#[test]
fn completing_settings_from_detection() {
    let mut cfg = default_for_os("windows");
    let (stage, action, changed) =
        enrich_step(&mut cfg, false, EnrichStage::Start, EnrichEvent::Begin(None));
    assert!(matches!(stage, EnrichStage::Detecting));
    assert!(matches!(action, EnrichAction::Detect));
    assert!(!changed);
    let probe = PortalProbe {
        portal_url: Some("http://10.0.0.1/srun_portal_success?ac_id=3&wlanuserip=10.1.2.3".to_string()),
        ac_id: None,
        user_ip: None,
    };
    let (stage, action, changed) = enrich_step(&mut cfg, changed, stage, EnrichEvent::Detected(probe));
    assert!(matches!(stage, EnrichStage::Done));
    assert!(matches!(action, EnrichAction::Finish(Ok(true))));
    assert!(changed);
    assert_eq!(cfg.portal_url, "http://10.0.0.1");
    assert_eq!(cfg.ac_id, Some(3));
    assert_eq!(ip_to_string(cfg.user_ip.unwrap()), "10.1.2.3");

    let mut cfg = AppConfig { auto_query_acid: true, ..default_for_os("windows") };
    let (stage, _, changed) =
        enrich_step(&mut cfg, false, EnrichStage::Start, EnrichEvent::Begin(parse_ip("10.9.9.9")));
    assert!(changed);
    let probe = PortalProbe {
        portal_url: Some("http://10.0.0.1/".to_string()),
        ac_id: None,
        user_ip: parse_ip("10.1.1.1"),
    };
    let (stage, action, changed) = enrich_step(&mut cfg, changed, stage, EnrichEvent::Detected(probe));
    assert!(matches!(stage, EnrichStage::QueryingAcid(_)));
    assert!(matches!(action, EnrichAction::QueryAcid));
    let (stage, action, _) = enrich_step(&mut cfg, changed, stage, EnrichEvent::AcidQueried(Some(9)));
    assert!(matches!(stage, EnrichStage::Done));
    assert!(matches!(action, EnrichAction::Finish(Ok(true))));
    assert_eq!(cfg.ac_id, Some(9));
    assert_eq!(ip_to_string(cfg.user_ip.unwrap()), "10.9.9.9");

    let (stage, action, _) =
        enrich_step(&mut cfg, false, EnrichStage::Start, EnrichEvent::Begin(parse_ip("10.9.9.9")));
    assert!(matches!(stage, EnrichStage::Done));
    assert!(matches!(action, EnrichAction::Finish(Ok(false))));
}
