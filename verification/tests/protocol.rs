use gdou_net_login::client::{
    challenge_request, has_login_context, login_request, login_request_admissible,
    logout_request, online_probe_targets, portal_probe_targets, resolve_login_context,
    resolve_portal_url_with_probe, srun_probe_targets, state_request,
};
use gdou_net_login::config::{default_for_os, AppConfig};
use gdou_net_login::crypto::{fkbase64, hmac_md5_hex, sha1_hex};
use gdou_net_login::error::SrunError;
use gdou_net_login::flow::{
    login_step, login_step_checked, logout_step, FlowAction, LoginEvent, LoginStage, LogoutEvent, LogoutStage,
};
use gdou_net_login::ip::{ip_to_string, parse_ip, IpAddress};
use gdou_net_login::portal::{
    callback_name, parse_acid_from_text, parse_portal_url_from_text, strip_jsonp,
};
use gdou_net_login::probe::{
    absorb_probe_results, merge_probe, probe_precheck, PortalProbe, PortalProbeTrace,
};
use gdou_net_login::response::{interpret_login_reply, interpret_logout_reply, parse_challenge};
use gdou_net_login::url::{
    normalize_portal_url, push_unique_target, validate_request_url, UrlPurpose,
};
use gdou_net_login::xencode::{mix, split, xencode};

fn ip(text: &str) -> IpAddress {
    parse_ip(text).unwrap()
}

fn full_context() -> AppConfig {
    AppConfig {
        portal_url: "http://10.129.1.1".to_string(),
        username: "student".to_string(),
        ac_id: Some(1),
        user_ip: Some(ip("10.1.2.3")),
        ..default_for_os("windows")
    }
}

fn param<'a>(params: &'a [(String, String)], key: &str) -> &'a str {
    params
        .iter()
        .find(|(k, _)| k == key)
        .map(|(_, v)| v.as_str())
        .unwrap()
}

#[test]
fn hmac_md5_matches_the_published_vector() {
    let digest = hmac_md5_hex("The quick brown fox jumps over the lazy dog", "key").unwrap();
    assert_eq!(digest, "80070713463e7749b90c2dc24911e275");
}

#[test]
fn sha1_matches_the_published_vector() {
    assert_eq!(sha1_hex("abc"), "a9993e364706816aba3e25717850c26c9cd0d89d");
}

#[test]
fn portal_base64_uses_the_portal_alphabet() {
    assert_eq!(fkbase64(b"Man".to_vec()), "FaiK");
    assert_eq!(fkbase64(b"Ma".to_vec()), "FaP=");
    assert_eq!(fkbase64(Vec::new()), "");
}

#[test]
fn xencode_enciphers_a_known_message() {
    assert_eq!(
        xencode("hello", "0123456789abcdef"),
        vec![225, 84, 97, 70, 214, 235, 243, 4, 139, 139, 231, 253]
    );
    assert!(xencode("", "0123456789abcdef").is_empty());
}

#[test]
fn split_undoes_mix() {
    let words = mix(b"hello", true);
    assert_eq!(words, vec![1819043176, 111, 5]);
    assert_eq!(split(words, true), b"hello".to_vec());
    assert_eq!(split(vec![1, 2, 99], true), Vec::<u8>::new());
}

#[test]
fn callback_names_carry_the_timestamp() {
    assert_eq!(callback_name(1700000000123), "jQuery1124_1700000000123");
    assert_eq!(strip_jsonp(r#"jQuery1124_1({"a":1})"#), r#"{"a":1}"#);
    assert_eq!(strip_jsonp(r#"{"a":1}"#), r#"{"a":1}"#);
}

#[test]
fn request_rule_refuses_local_hosts_and_other_schemes() {
    assert!(validate_request_url("http://10.129.1.1", UrlPurpose::Portal).is_ok());
    assert_eq!(
        validate_request_url("ftp://10.129.1.1", UrlPurpose::Portal).unwrap_err(),
        SrunError::UnsupportedScheme
    );
    assert_eq!(
        validate_request_url("http://localhost/", UrlPurpose::Probe).unwrap_err(),
        SrunError::UnsafeHost
    );
    assert!(matches!(
        validate_request_url("not a url", UrlPurpose::Probe),
        Err(SrunError::InvalidUrl(_))
    ));
}

#[test]
fn probe_targets_have_no_duplicates() {
    let mut cfg = default_for_os("windows");
    cfg.probe_url = "http://www.msftconnecttest.com/connecttest.txt".to_string();
    let online = online_probe_targets(&cfg);
    assert_eq!(online, vec!["http://www.msftconnecttest.com/connecttest.txt".to_string()]);
    let portal = portal_probe_targets(&cfg);
    assert_eq!(portal.len(), 3);
    let mut targets = Vec::new();
    push_unique_target(&mut targets, " http://a/ ");
    push_unique_target(&mut targets, "http://a/");
    push_unique_target(&mut targets, "   ");
    assert_eq!(targets, vec!["http://a/".to_string()]);
}

#[test]
fn srun_targets_come_from_the_configured_portal_and_address() {
    let cfg = full_context();
    let targets = srun_probe_targets(&cfg, None);
    assert_eq!(targets[0], "http://10.129.1.1/cgi-bin/rad_user_info");
    assert_eq!(targets[1], "http://10.129.1.1/index_17.html");
    assert!(targets.contains(&"http://10.1.2.1/cgi-bin/rad_user_info".to_string()));
    let mut unique = targets.clone();
    unique.sort();
    unique.dedup();
    assert_eq!(unique.len(), targets.len());
}

#[test]
fn login_context_prefers_configured_and_local_values() {
    let cfg = full_context();
    let probe = PortalProbe {
        portal_url: Some("http://10.9.9.9/".to_string()),
        ac_id: Some(7),
        user_ip: Some(ip("10.5.5.5")),
    };
    assert!(has_login_context(&cfg));
    assert_eq!(
        resolve_portal_url_with_probe(&cfg, &probe).unwrap(),
        "http://10.129.1.1"
    );
    let (portal, ac_id, address) = resolve_login_context(&cfg, &probe, Some(ip("10.7.7.7"))).unwrap();
    assert_eq!(portal, "http://10.129.1.1");
    assert_eq!(ac_id, 1);
    assert_eq!(ip_to_string(address), "10.7.7.7");

    let bare = default_for_os("windows");
    let none = PortalProbe { portal_url: None, ac_id: None, user_ip: None };
    assert_eq!(
        resolve_login_context(&bare, &none, None).unwrap_err(),
        SrunError::PortalUndetected
    );
    let detected_only = PortalProbe { portal_url: Some("http://10.9.9.9:8080/x?y=1".to_string()), ac_id: None, user_ip: None };
    assert_eq!(
        resolve_portal_url_with_probe(&bare, &detected_only).unwrap(),
        "http://10.9.9.9:8080"
    );
    assert_eq!(
        resolve_login_context(&bare, &detected_only, None).unwrap_err().message(),
        "failed to auto detect ac_id; paste the current portal URL or fill ac_id manually"
    );
}

#[test]
fn requests_carry_the_protocol_parameters() {
    let cfg = full_context();
    let state = state_request("http://10.129.1.1/", 42);
    assert_eq!(state.url, "http://10.129.1.1/cgi-bin/rad_user_info");
    assert_eq!(state.params, vec![
        ("callback".to_string(), "jQuery1124_42".to_string()),
        ("_".to_string(), "42".to_string()),
    ]);
    let challenge = challenge_request(&cfg, "http://10.129.1.1", ip("10.1.2.3"), 1, 42);
    assert_eq!(challenge.url, "http://10.129.1.1/cgi-bin/get_challenge");
    assert_eq!(param(&challenge.params, "username"), "student");
    assert_eq!(param(&challenge.params, "ip"), "10.1.2.3");
    assert_eq!(param(&challenge.params, "ac_id"), "1");
    let logout = logout_request(&cfg, "http://10.129.1.1", 1, ip("10.1.2.3"), 42);
    assert_eq!(logout.url, "http://10.129.1.1/cgi-bin/srun_portal");
    assert_eq!(param(&logout.params, "action"), "logout");
    assert_eq!(logout.params.len(), 8);
}

#[test]
fn login_request_is_signed_with_the_challenge() {
    let cfg = full_context();
    let token = "0123456789abcdef0123456789abcdef";
    assert!(login_request_admissible(&cfg, "secret", token, 1, ip("10.1.2.3")));
    assert!(!login_request_admissible(&cfg, "secret", "short", 1, ip("10.1.2.3")));
    let req = login_request(&cfg, "secret", "http://10.129.1.1", token, 1, ip("10.1.2.3"), 42);
    let digest = hmac_md5_hex("secret", token).unwrap();
    assert_eq!(param(&req.params, "password"), format!("{{MD5}}{digest}"));
    let info = param(&req.params, "info");
    assert!(info.starts_with("{SRBX1}"));
    let expected_info = format!(
        "{{SRBX1}}{}",
        fkbase64(xencode(
            r#"{"acid":"1","enc_ver":"srun_bx1","ip":"10.1.2.3","password":"secret","username":"student"}"#,
            token
        ))
    );
    assert_eq!(info, expected_info);
    let check = format!(
        "{token}student{token}{digest}{token}1{token}10.1.2.3{token}200{token}1{token}{info}"
    );
    assert_eq!(param(&req.params, "chksum"), sha1_hex(&check));
    assert_eq!(param(&req.params, "double_stack"), "0");
    assert_eq!(req.params.len(), 14);
}

#[test]
fn replies_are_interpreted() {
    assert_eq!(
        interpret_login_reply(r#"cb({"error":"ok","res":"login_ok"})"#).unwrap(),
        "login_ok"
    );
    assert_eq!(
        interpret_login_reply(r#"cb({"error":"ok","suc_msg":"welcome"})"#).unwrap(),
        "welcome"
    );
    let refused = interpret_login_reply(r#"cb({"error":"login_error","error_msg":"bad password","ecode":"E2901"})"#);
    assert_eq!(
        refused.unwrap_err().message(),
        "login failed: login_error; ecode=E2901; bad password"
    );
    assert_eq!(
        interpret_login_reply("garbage").unwrap_err().message(),
        "failed to parse portal response: expected value at line 1 column 1"
    );
    assert_eq!(
        interpret_login_reply("[1]").unwrap_err(),
        SrunError::PortalResponseParse(None)
    );
    assert_eq!(
        interpret_logout_reply(r#"cb({"error":"ok","error_msg":"0"})"#).unwrap(),
        "logout ok"
    );
    assert_eq!(parse_challenge(r#"cb({"challenge":""})"#).unwrap_err(), SrunError::ChallengeMissing);
    assert_eq!(parse_challenge(r#"cb({"other":1})"#).unwrap_err(), SrunError::ChallengeParse(None));
    assert_eq!(
        parse_challenge("cb({\"challenge\":)").unwrap_err().message(),
        "failed to parse challenge response: EOF while parsing a value at line 1 column 13"
    );
    assert_eq!(parse_challenge(r#"cb({"challenge":"abc"})"#).unwrap(), "abc");
}

fn fetch(action: FlowAction) -> (String, Vec<(String, String)>) {
    match action {
        FlowAction::Fetch(r) => (r.url, r.params),
        other => panic!("expected a request, got {other:?}"),
    }
}

#[test]
fn login_conversation_with_known_context() {
    let cfg = full_context();
    let (stage, action) = login_step(&cfg, "secret", LoginStage::Start, LoginEvent::Begin, 5, None);
    let (url, _) = fetch(action);
    assert_eq!(url, "http://10.129.1.1/cgi-bin/rad_user_info");
    let (stage, action) = login_step(
        &cfg,
        "secret",
        stage,
        LoginEvent::StateReply(Ok(r#"cb({"error":"not_online_error"})"#.to_string())),
        6,
        Some(ip("10.1.2.9")),
    );
    let (url, params) = fetch(action);
    assert_eq!(url, "http://10.129.1.1/cgi-bin/get_challenge");
    assert_eq!(param(&params, "ip"), "10.1.2.9");
    let (stage, action) = login_step(
        &cfg,
        "secret",
        stage,
        LoginEvent::ChallengeReply(Ok(r#"cb({"challenge":"0123456789abcdef0123"})"#.to_string())),
        7,
        Some(ip("10.1.2.9")),
    );
    let (url, params) = fetch(action);
    assert_eq!(url, "http://10.129.1.1/cgi-bin/srun_portal");
    assert_eq!(param(&params, "action"), "login");
    assert_eq!(param(&params, "_"), "7");
    let (stage, action) = login_step(
        &cfg,
        "secret",
        stage,
        LoginEvent::LoginReply(Ok(r#"cb({"error":"ok","res":"login_ok"})"#.to_string())),
        8,
        None,
    );
    assert!(matches!(stage, LoginStage::Finished));
    assert!(matches!(action, FlowAction::Finish(Ok(ref m)) if m == "login_ok"));
}

#[test]
fn login_stops_when_already_online() {
    let cfg = full_context();
    let (stage, _) = login_step(&cfg, "secret", LoginStage::Start, LoginEvent::Begin, 5, None);
    let (_, action) = login_step(
        &cfg,
        "secret",
        stage,
        LoginEvent::StateReply(Ok(r#"cb({"error":"ok","online_ip":"10.1.2.3"})"#.to_string())),
        6,
        None,
    );
    assert!(matches!(action, FlowAction::Finish(Ok(ref m)) if m == "already online"));
}

#[test]
fn login_without_portal_checks_the_internet() {
    let cfg = AppConfig { username: "student".to_string(), ..default_for_os("windows") };
    let (stage, action) = login_step(&cfg, "secret", LoginStage::Start, LoginEvent::Begin, 5, None);
    assert!(matches!(action, FlowAction::Detect));
    let nothing = PortalProbe { portal_url: None, ac_id: None, user_ip: None };
    let (stage, action) = login_step(&cfg, "secret", stage, LoginEvent::Detected(nothing), 6, None);
    assert!(matches!(action, FlowAction::CheckInternet));
    let (_, action) = login_step(&cfg, "secret", stage, LoginEvent::InternetChecked(true), 7, None);
    assert!(matches!(
        action,
        FlowAction::Finish(Ok(ref m))
            if m == "already online; portal will be detected when authentication page is reachable"
    ));
}

#[test]
fn login_reports_a_failed_challenge_request() {
    let cfg = full_context();
    let stage = LoginStage::Challenging("http://10.129.1.1".to_string(), 1, ip("10.1.2.3"));
    let (_, action) = login_step(
        &cfg,
        "secret",
        stage,
        LoginEvent::ChallengeReply(Err("failed to send challenge request: timeout".to_string())),
        7,
        None,
    );
    match action {
        FlowAction::Finish(Err(e)) => {
            assert_eq!(e.message(), "failed to send challenge request: timeout")
        },
        other => panic!("unexpected {other:?}"),
    }
}

#[test]
fn logout_conversation() {
    let cfg = full_context();
    let (stage, _) = logout_step(&cfg, LogoutStage::Start, LogoutEvent::Begin, 5, None);
    let (_, action) = logout_step(
        &cfg,
        stage,
        LogoutEvent::StateReply(Ok(r#"cb({"error":"not_online"})"#.to_string())),
        6,
        None,
    );
    assert!(matches!(action, FlowAction::Finish(Ok(ref m)) if m == "already offline"));

    let (stage, _) = logout_step(&cfg, LogoutStage::Start, LogoutEvent::Begin, 5, None);
    let (stage, action) = logout_step(
        &cfg,
        stage,
        LogoutEvent::StateReply(Ok(r#"cb({"error":"ok","online_ip":"10.1.2.77"})"#.to_string())),
        6,
        None,
    );
    let (url, params) = fetch(action);
    assert_eq!(url, "http://10.129.1.1/cgi-bin/srun_portal");
    assert_eq!(param(&params, "ip"), "10.1.2.77");
    let (_, action) = logout_step(
        &cfg,
        stage,
        LogoutEvent::LogoutReply(Ok(r#"cb({"error":"ok","res":"0"})"#.to_string())),
        7,
        None,
    );
    assert!(matches!(action, FlowAction::Finish(Ok(ref m)) if m == "logout ok"));

    let no_acid = AppConfig { ac_id: None, auto_query_acid: false, ..full_context() };
    let (stage, _) = logout_step(&no_acid, LogoutStage::Start, LogoutEvent::Begin, 5, None);
    assert!(matches!(stage, LogoutStage::DetectingForState));
    let nothing = PortalProbe { portal_url: None, ac_id: None, user_ip: None };
    let (stage, _) = logout_step(&no_acid, stage, LogoutEvent::Detected(nothing), 6, None);
    let (_, action) = logout_step(
        &no_acid,
        stage,
        LogoutEvent::StateReply(Err("timeout".to_string())),
        7,
        None,
    );
    match action {
        FlowAction::Finish(Err(e)) => {
            assert_eq!(e.message(), "ac_id is required when auto detection is disabled")
        },
        other => panic!("unexpected {other:?}"),
    }
}

fn trace(target: &str) -> PortalProbeTrace {
    PortalProbeTrace {
        target: target.to_string(),
        status: Some(200),
        location: None,
        error: None,
        portal_url: None,
        ac_id: None,
        user_ip: None,
    }
}

#[test]
fn detection_merges_findings_until_complete() {
    let mut detected = PortalProbe { portal_url: None, ac_id: Some(3), user_ip: None };
    merge_probe(
        &mut detected,
        PortalProbe { portal_url: Some("http://p".to_string()), ac_id: Some(9), user_ip: None },
    );
    assert_eq!(detected.ac_id, Some(3));
    assert_eq!(detected.portal_url.as_deref(), Some("http://p"));

    let mut found = PortalProbe { portal_url: None, ac_id: None, user_ip: None };
    let mut traces = Vec::new();
    let results = vec![
        (PortalProbe { portal_url: Some("http://p".to_string()), ac_id: None, user_ip: None }, trace("a")),
        (PortalProbe { portal_url: None, ac_id: Some(5), user_ip: Some(ip("10.0.0.2")) }, trace("b")),
        (PortalProbe { portal_url: None, ac_id: Some(6), user_ip: None }, trace("c")),
    ];
    assert!(absorb_probe_results(&mut found, &mut traces, results));
    assert_eq!(traces.len(), 2);
    assert_eq!(found.ac_id, Some(5));
}

#[test]
fn short_challenge_token_ends_the_login_with_an_error() {
    let cfg = full_context();
    let stage = || LoginStage::Challenging("http://10.129.1.1".to_string(), 1, ip("10.1.2.9"));
    let (next, action) = login_step_checked(
        &cfg,
        "secret",
        stage(),
        LoginEvent::ChallengeReply(Ok(r#"cb({"challenge":"short"})"#.to_string())),
        7,
        None,
    );
    assert!(matches!(next, LoginStage::Finished));
    assert!(matches!(action, FlowAction::Finish(Err(SrunError::ChallengeUnusable))));
    assert_eq!(
        SrunError::ChallengeUnusable.message(),
        "challenge token is too short to key the login cipher"
    );
    let (next, action) = login_step_checked(
        &cfg,
        "secret",
        stage(),
        LoginEvent::ChallengeReply(Ok(r#"cb({"challenge":"0123456789abcdef0123"})"#.to_string())),
        7,
        None,
    );
    assert!(matches!(next, LoginStage::LoggingIn));
    let (url, _) = fetch(action);
    assert_eq!(url, "http://10.129.1.1/cgi-bin/srun_portal");
}

#[test]
fn digests_are_fixed_length_lower_case_hex() {
    let tag = hmac_md5_hex("what do ya want for nothing?", "Jefe").unwrap();
    assert_eq!(tag, "750c783e6ab0b503eaa86e310a5db738");
    for (password, token) in [("", ""), ("secret", "0123456789abcdef0123"), ("密码", "令牌")] {
        let h = hmac_md5_hex(password, token).unwrap();
        assert_eq!(h.len(), 32);
        assert!(h.chars().all(|c| c.is_ascii_digit() || ('a'..='f').contains(&c)));
        let s = sha1_hex(password);
        assert_eq!(s.len(), 40);
        assert!(s.chars().all(|c| c.is_ascii_digit() || ('a'..='f').contains(&c)));
    }
}

#[test]
fn digit_runs_follow_unicode_decimal_digits() {
    assert_eq!(parse_acid_from_text("ac_id=5&x"), Some(5));
    assert_eq!(parse_acid_from_text("ac_id=5\u{663}"), None);
    assert_eq!(parse_acid_from_text("ac_id=\u{663} ac_id=7"), None);
    assert_eq!(parse_acid_from_text("/index_\u{FF17}.html ac_id=7"), None);
    assert_eq!(parse_acid_from_text("ac_id=x ac_id=7"), Some(7));
    assert_eq!(
        parse_portal_url_from_text("go to http://10.0.0.1/index_\u{663}.html now"),
        Some("http://10.0.0.1/index_\u{663}.html".to_string())
    );
}

#[test]
fn normalized_portal_origin_normalizes_to_itself() {
    for input in [
        "http://portal.example/srun_portal_success?ac_id=5&theme=pro",
        "  HTTPS://Portal.Example:8443/index_1.html?wlanuserip=10.1.2.3  ",
        "http://10.129.1.1:80/cgi-bin/rad_user_info",
    ] {
        let (base, _, _) = normalize_portal_url(input).unwrap();
        let (again, ac_id, user_ip) = normalize_portal_url(&base).unwrap();
        assert_eq!(again, base);
        assert_eq!(ac_id, None);
        assert_eq!(user_ip, None);
    }
}

#[test]
fn refused_probe_target_is_traced_without_status() {
    let (probe, trace) = probe_precheck("ftp://10.0.0.1/", UrlPurpose::Probe).unwrap();
    assert_eq!(trace.target, "ftp://10.0.0.1/");
    assert_eq!(trace.status, None);
    assert_eq!(trace.location, None);
    assert!(trace.error.is_some());
    assert_eq!(trace.portal_url, probe.portal_url);
    assert_eq!(trace.ac_id, probe.ac_id);
    assert_eq!(trace.user_ip, probe.user_ip);
    assert!(probe_precheck("http://10.0.0.1/", UrlPurpose::Probe).is_none());
}
