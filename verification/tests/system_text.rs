use gdou_net_login::client::portal_host;
use gdou_net_login::config::{config_file_in, default_for_os, project_identity, keyring_service, password_account, AppConfig};
use gdou_net_login::diag::{proxy_server_from_reg, system_proxy_from_reg};
use gdou_net_login::error::SrunError;
use gdou_net_login::ip::ip_to_string;
use gdou_net_login::localaddr::private_ipv4_from_ipconfig;
use gdou_net_login::netif::adapter_activity;
use gdou_net_login::startup::{
    registry_string_from_bytes, startup_command_value, startup_restore_plan,
    startup_script_from_bytes, startup_script_matches_executable, startup_script_text,
    startup_unverified_text, startup_value_matches_executable, utf16le_with_bom,
};

#[test]
fn startup_script_round_trips_through_its_file_bytes() {
    let exe = r#"C:\Apps\Say "hi"\gdou-net-login.exe"#;
    let script = startup_script_text(exe);
    assert_eq!(
        script,
        "Dim shell\r\nSet shell = CreateObject(\"WScript.Shell\")\r\nshell.Run \"C:\\Apps\\Say \"\"hi\"\"\\gdou-net-login.exe\", 0, False\r\n"
    );
    let bytes = utf16le_with_bom(&script);
    assert_eq!(&bytes[..4], &[0xFF, 0xFE, b'D', 0]);
    let expected: Vec<u8> = [0xFF, 0xFE]
        .into_iter()
        .chain(script.encode_utf16().flat_map(|u| u.to_le_bytes()))
        .collect();
    assert_eq!(bytes, expected);
    assert_eq!(startup_script_from_bytes(&bytes), script);
    assert_eq!(startup_script_from_bytes("plain text".as_bytes()), "plain text");
    assert_eq!(utf16le_with_bom("😀"), vec![0xFF, 0xFE, 0x3D, 0xD8, 0x00, 0xDE]);
}

#[test]
fn startup_entries_name_the_program() {
    let exe = r"C:\Program Files\GDOU Net Login\gdou-net-login.exe";
    let value = startup_command_value(exe);
    assert_eq!(value, format!("\"{exe}\""));
    assert!(startup_value_matches_executable(&value, exe));
    assert!(startup_value_matches_executable(r"C:\Tools\login.exe --hidden", r" c:\tools\LOGIN.exe "));
    assert!(!startup_value_matches_executable(r"C:\Program Files\x.exe --flag", exe));
    assert!(startup_script_matches_executable(&startup_script_text(exe), exe));
}

#[test]
fn registry_values_are_utf16_up_to_nul() {
    let bytes: Vec<u8> = "\"C:\\a.exe\"\0junk"
        .encode_utf16()
        .flat_map(|u| u.to_le_bytes())
        .collect();
    assert_eq!(registry_string_from_bytes(&bytes).unwrap(), "\"C:\\a.exe\"");
    let odd = registry_string_from_bytes(&[0x41, 0x00, 0x42]);
    assert_eq!(odd.unwrap_err(), SrunError::StartupValueEncoding);
    assert_eq!(
        SrunError::StartupValueEncoding.message(),
        "startup registry value has invalid UTF-16 data"
    );
}

#[test]
fn startup_failure_and_restore() {
    assert_eq!(
        startup_unverified_text(Some("denied"), None),
        "startup entry could not be verified (注册表：denied; 启动文件夹校验失败)"
    );
    assert_eq!(startup_restore_plan(true, false), (true, false));
    assert_eq!(startup_restore_plan(false, true), (false, true));
    assert_eq!(startup_restore_plan(false, false), (false, false));
}

#[test]
fn campus_address_prefers_ten_slash_eight() {
    let text = "Ethernet adapter:\r\n   IPv4 Address. . . : 192.168.1.5(Preferred)\r\nWLAN:\r\n   ipv4 address : 10.20.30.40\r\n   IPv4 Address. . . : 127.0.0.1\r\n";
    assert_eq!(ip_to_string(private_ipv4_from_ipconfig(text).unwrap()), "10.20.30.40");
    let only_home = "IPv4 Address. . . : 192.168.1.5\r\nIPv4 Address: 198.18.0.1\r\n";
    assert_eq!(ip_to_string(private_ipv4_from_ipconfig(only_home).unwrap()), "192.168.1.5");
    assert!(private_ipv4_from_ipconfig("IPv4 Address\r\n: 10.0.0.1").is_none());
    assert!(private_ipv4_from_ipconfig("IPv4 Address: 10.0.0.256").is_none());
}

#[test]
fn proxy_settings_from_registry_queries() {
    let server = "\r\nHKEY_CURRENT_USER\\Software\\Microsoft\\Windows\\CurrentVersion\\Internet Settings\r\n    ProxyServer    REG_SZ    127.0.0.1:7890\r\n\r\n";
    assert_eq!(proxy_server_from_reg(server).as_deref(), Some("127.0.0.1:7890"));
    assert_eq!(
        system_proxy_from_reg(server, "    ProxyEnable    REG_DWORD    0x1\r\n").as_deref(),
        Some("127.0.0.1:7890")
    );
    assert_eq!(system_proxy_from_reg(server, "    ProxyEnable    REG_DWORD    0x0\r\n"), None);
    assert_eq!(proxy_server_from_reg("nothing here"), None);
}

#[test]
fn adapter_traffic_and_names() {
    assert_eq!(adapter_activity("Up", 0, 0), (0, true, true));
    assert_eq!(adapter_activity("Down", 0, 0), (0, false, false));
    assert_eq!(adapter_activity("Down", u64::MAX, 5), (u64::MAX, true, true));
    assert_eq!(keyring_service(), "gdou-net-login");
    let cfg = AppConfig { username: "  ".to_string(), ..default_for_os("windows") };
    assert_eq!(password_account(&cfg), None);
    let named = AppConfig { username: "student".to_string(), ..default_for_os("windows") };
    assert_eq!(password_account(&named).as_deref(), Some("student"));
    let portal = AppConfig { portal_url: "http://10.129.1.1:8080/srun_portal_success".to_string(), ..default_for_os("windows") };
    assert_eq!(portal_host(&portal).as_deref(), Some("10.129.1.1"));
}

#[test]
fn settings_file_lives_in_the_configuration_directory() {
    let dir = std::path::PathBuf::from("cfgdir");
    let path = config_file_in(Some(dir.clone())).unwrap();
    assert_eq!(path, dir.join("config.json"));
    assert_eq!(config_file_in(None).unwrap_err(), SrunError::ConfigDirUnavailable);
}

#[test]
fn settings_directory_is_looked_up_under_the_project_names() {
    assert_eq!(project_identity(), ("cn", "gdou", "gdou-net-login"));
}

#[test]
fn registry_text_decodes_surrogate_pairs_and_replaces_lone_surrogates() {
    let bytes = [
        0x61, 0x00, 0x3D, 0xD8, 0x00, 0xDE, 0x00, 0xD8, 0x62, 0x00, 0x00, 0x00, 0x63, 0x00,
    ];
    assert_eq!(registry_string_from_bytes(&bytes).unwrap(), "a\u{1F600}\u{FFFD}b");
    let mut script = vec![0xFF, 0xFE];
    script.extend_from_slice(&[0x00, 0xDC, 0x41, 0x00]);
    assert_eq!(startup_script_from_bytes(&script), "\u{FFFD}A");
}

#[test]
fn ipconfig_addresses_with_other_digits_are_skipped() {
    let text = "IPv4 Address. . . : 10.0.0.1\u{663}\r\nIPv4 Address. . . : 10.2.3.4\r\n";
    assert_eq!(ip_to_string(private_ipv4_from_ipconfig(text).unwrap()), "10.2.3.4");
}
