use gdou_net_login::config::{default_for_os, AppConfig};
use gdou_net_login::diag::RouteInfo;
use gdou_net_login::ip::{ip_to_string, parse_ip, IpAddress};
use gdou_net_login::ipconfig::decode_windows_command_output;
use gdou_net_login::monitor::require_password;
use gdou_net_login::netif::{
    build_network_interface_infos, classify_network_interface, format_interface_summary,
    has_active_easyconnect_adapter, NetworkInterfaceSummary, ParsedInterface,
};
use gdou_net_login::response::{parse_login_state, parse_portal_response};
use gdou_net_login::settings::merge_saved_login_context_from;
use gdou_net_login::startup::{
    startup_script_matches_executable, startup_value_matches_executable,
};
use gdou_net_login::url::normalize_portal_url;

fn ip(text: &str) -> IpAddress {
    parse_ip(text).unwrap()
}

#[test]
fn normalizes_full_portal_success_url_and_extracts_acid() {
    let (portal, ac_id, user_ip) =
        normalize_portal_url("http://portal.example/srun_portal_success?ac_id=5&theme=pro")
            .unwrap();

    assert_eq!(portal, "http://portal.example");
    assert_eq!(ac_id, Some(5));
    assert_eq!(user_ip, None);
}

#[test]
fn extracts_wlan_user_ip_from_portal_url() {
    let (_, _, user_ip) = normalize_portal_url(
        "http://portal.example/srun_portal_success?ac_id=5&wlanuserip=10.0.0.23",
    )
    .unwrap();

    assert_eq!(ip_to_string(user_ip.unwrap()), "10.0.0.23");
}

#[test]
fn preserves_explicit_port_without_query() {
    let (portal, ac_id, user_ip) = normalize_portal_url("http://portal.example:8080").unwrap();

    assert_eq!(portal, "http://portal.example:8080");
    assert_eq!(ac_id, None);
    assert_eq!(user_ip, None);
}

#[test]
fn normalize_portal_url_rejects_unsafe_hosts() {
    for target in [
        "http://localhost/srun_portal_success?ac_id=1&wlanuserip=10.1.2.3",
        "http://127.0.0.1/srun_portal_success?ac_id=1&wlanuserip=10.1.2.3",
        "http://198.18.0.1/srun_portal_success?ac_id=1&wlanuserip=10.1.2.3",
    ] {
        assert!(
            normalize_portal_url(target).is_err(),
            "{target} should be rejected"
        );
    }
}

#[test]
fn saved_context_does_not_restore_cleared_bind_ip() {
    let mut cfg = AppConfig {
        portal_url: String::new(),
        ac_id: None,
        user_ip: None,
        bind_ip: None,
        ..default_for_os("windows")
    };
    let saved = AppConfig {
        portal_url: "http://10.129.1.1".to_string(),
        ac_id: Some(1),
        user_ip: Some(ip("10.1.2.3")),
        bind_ip: Some(ip("10.1.2.4")),
        last_reconnect_at_ms: Some(1_757_000_000_000),
        ..default_for_os("windows")
    };

    merge_saved_login_context_from(&mut cfg, &saved);

    assert_eq!(cfg.portal_url, "http://10.129.1.1");
    assert_eq!(cfg.ac_id, Some(1));
    assert_eq!(ip_to_string(cfg.user_ip.unwrap()), "10.1.2.3");
    assert_eq!(cfg.bind_ip, None);
    assert_eq!(cfg.last_reconnect_at_ms, Some(1_757_000_000_000));
}

#[test]
fn decodes_gbk_ipconfig_output() {
    let bytes = b"\xd2\xd4\xcc\xab\xcd\xf8\xca\xca\xc5\xe4\xc6\xf7 WLAN:";

    assert_eq!(decode_windows_command_output(bytes), "以太网适配器 WLAN:");
}

#[test]
fn matches_quoted_startup_path_with_optional_arguments() {
    let exe = r"C:\Program Files\GDOU Net Login\gdou-net-login.exe";

    assert!(startup_value_matches_executable(
        r#""C:\Program Files\GDOU Net Login\gdou-net-login.exe""#,
        exe
    ));
    assert!(startup_value_matches_executable(
        r#""C:\Program Files\GDOU Net Login\gdou-net-login.exe" --hidden"#,
        exe
    ));
    assert!(!startup_value_matches_executable(
        r#""C:\Other\gdou-net-login.exe""#,
        exe
    ));
    assert!(startup_script_matches_executable(
        r#"shell.Run "C:\Program Files\GDOU Net Login\gdou-net-login.exe", 0, False"#,
        exe
    ));
    assert!(!startup_script_matches_executable(
        r#"shell.Run "C:\Other\gdou-net-login.exe", 0, False"#,
        exe
    ));
}

#[test]
fn ranks_real_campus_interface_before_virtual_adapters() {
    let items = vec![
        ParsedInterface {
            interface_alias: "EasyConnect".to_string(),
            interface_description: "Sangfor SSL VPN".to_string(),
            ip: "2.0.1.7".to_string(),
            gateway: Some("2.0.1.1".to_string()),
            is_up: true,
            ..ParsedInterface::default()
        },
        ParsedInterface {
            interface_alias: "WLAN".to_string(),
            interface_description: "Intel Wi-Fi".to_string(),
            ip: "10.0.2.20".to_string(),
            gateway: Some("10.0.2.1".to_string()),
            is_up: true,
            ..ParsedInterface::default()
        },
    ];

    let infos = build_network_interface_infos(items, None, None, None);

    assert_eq!(infos[0].interface_alias, "WLAN");
    assert!(infos[0].is_likely_campus);
    assert!(!infos[0].is_virtual);
    assert!(infos[1].is_virtual);
    assert!(!infos[1].is_likely_campus);
}

#[test]
fn selected_bind_ip_is_marked_and_sorted_first() {
    let selected = ip("10.0.2.20");
    let items = vec![
        ParsedInterface {
            interface_alias: "以太网".to_string(),
            interface_description: "Realtek PCIe".to_string(),
            ip: "10.0.3.20".to_string(),
            gateway: Some("10.0.3.1".to_string()),
            is_up: true,
            ..ParsedInterface::default()
        },
        ParsedInterface {
            interface_alias: "WLAN".to_string(),
            interface_description: "Intel Wi-Fi".to_string(),
            ip: ip_to_string(selected),
            gateway: Some("10.0.2.1".to_string()),
            is_up: true,
            ..ParsedInterface::default()
        },
    ];

    let infos = build_network_interface_infos(items, Some(selected), None, None);

    assert_eq!(infos[0].ip, ip_to_string(selected));
    assert!(infos[0].is_selected);
    assert_eq!(infos[0].recommendation, "当前选择的登录出口");
}

#[test]
fn marks_interface_used_by_portal_route() {
    let portal_ip = ip("10.0.2.20");
    let items = vec![
        ParsedInterface {
            interface_alias: "WLAN".to_string(),
            interface_description: "Intel Wi-Fi".to_string(),
            ip: ip_to_string(portal_ip),
            gateway: Some("10.0.2.1".to_string()),
            is_up: true,
            ..ParsedInterface::default()
        },
        ParsedInterface {
            interface_alias: "EasyConnect".to_string(),
            interface_description: "Sangfor SSL VPN".to_string(),
            ip: "2.0.1.8".to_string(),
            gateway: Some("2.0.1.1".to_string()),
            is_up: true,
            ..ParsedInterface::default()
        },
    ];
    let route = RouteInfo {
        interface: "WLAN".to_string(),
        source: Some(portal_ip),
        next_hop: Some("10.0.2.1".to_string()),
        virtual_route: false,
    };

    let infos = build_network_interface_infos(items, None, Some(&route), None);

    assert!(infos
        .iter()
        .any(|item| item.ip == ip_to_string(portal_ip) && item.route_to_portal));
    assert!(infos
        .iter()
        .any(|item| item.interface_alias == "EasyConnect" && !item.route_to_portal));
}

#[test]
fn pauses_reconnect_only_for_an_active_easyconnect_adapter() {
    let disconnected = ParsedInterface {
        interface_alias: "本地连接 2".to_string(),
        interface_description: "Sangfor SSL VPN CS Support System VNIC".to_string(),
        ip: "2.0.1.12".to_string(),
        is_up: false,
        ..ParsedInterface::default()
    };
    let active = ParsedInterface {
        is_up: true,
        ..disconnected.clone()
    };
    let wlan = ParsedInterface {
        interface_alias: "WLAN".to_string(),
        interface_description: "Intel Wi-Fi".to_string(),
        ip: "10.138.26.168".to_string(),
        is_up: true,
        ..ParsedInterface::default()
    };

    assert!(!has_active_easyconnect_adapter(&[
        disconnected,
        wlan.clone()
    ]));
    assert!(has_active_easyconnect_adapter(&[wlan, active]));
}

#[test]
fn classifies_common_network_tools_as_virtual_not_srun_exits() {
    let cases = [
        ("EasyConnect", "Sangfor SSL VPN", "2.0.1.8", "EasyConnect"),
        (
            "Clash Verge TUN",
            "Wintun Userspace Tunnel",
            "198.18.0.2",
            "网络工具/虚拟网卡",
        ),
        (
            "mihomo",
            "Meta TUN Adapter",
            "198.19.0.9",
            "网络工具/虚拟网卡",
        ),
        (
            "HypoMuxPlus",
            "Network Dispatch Adapter",
            "10.20.30.40",
            "虚拟网卡",
        ),
    ];

    for (name, description, address, expected_kind) in cases {
        let classification = classify_network_interface(name, description, ip(address));

        assert_eq!(classification.kind, expected_kind);
        assert!(classification.is_virtual, "{name} should be virtual");
        assert!(
            !classification.is_likely_srun_exit,
            "{name} should not be an SRUN login exit"
        );
    }
}

#[test]
fn interface_summary_mentions_network_tool_features() {
    let summary = NetworkInterfaceSummary {
        selected_bind_ip: Some("10.1.2.3".to_string()),
        selected_bind_ip_available: false,
        campus_candidates: vec!["WLAN / 10.1.2.3".to_string()],
        virtual_adapters: vec![
            "EasyConnect / 2.0.1.8 / 虚拟网卡，不建议用于 SRUN 登录".to_string()
        ],
        has_easy_connect: true,
        has_clash: true,
        has_tun: true,
        has_hypomux_like: true,
    };

    let text = format_interface_summary(&summary);

    assert!(text.contains("当前网卡列表未发现该 IP"));
    assert!(text.contains("EasyConnect/Sangfor"));
    assert!(text.contains("Clash/mihomo"));
    assert!(text.contains("TUN/TAP"));
    assert!(text.contains("多网卡工具"));
}

#[test]
fn login_rejects_empty_password_without_network() {
    let result = require_password("");
    assert!(result.is_err());
    assert_eq!(result.unwrap_err().message(), "password is required");
}

#[test]
fn parses_numeric_portal_response_fields() {
    let parsed =
        parse_portal_response(r#"callback({"error":"ok","res":0,"error_msg":0})"#).unwrap();

    assert_eq!(parsed.error, "ok");
    assert_eq!(parsed.res, "0");
    assert_eq!(parsed.error_msg, "0");
}

#[test]
fn parses_numeric_login_state_fields() {
    let parsed =
        parse_login_state(r#"callback({"error":"ok","online_ip":"10.0.0.8","res":0})"#).unwrap();

    assert_eq!(parsed.error, "ok");
    assert_eq!(ip_to_string(parsed.online_ip.unwrap()), "10.0.0.8");
    assert_eq!(parsed.res.as_deref(), Some("0"));
}
