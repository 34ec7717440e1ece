//! The client's settings, their defaults, and where they are stored.
use vstd::prelude::*;
use crate::error::SrunError;
use crate::ip::IpAddress;
use crate::text::{chars_of, string_from, trim, trim_str};
use crate::url::chars_eq_str;

verus! {

/// The connectivity probe used unless another is configured.
pub open spec fn default_probe_url() -> Seq<char> {
    "http://www.msftconnecttest.com/connecttest.txt"@
}

/// The probe earlier versions used; it is replaced on load.
pub open spec fn legacy_probe_url() -> Seq<char> {
    "http://connectivitycheck.gstatic.com/generate_204"@
}

/// The client's settings.
#[derive(Clone, Debug)]
pub struct AppConfig {
    pub portal_url: String,
    pub probe_url: String,
    pub username: String,
    pub ac_id: Option<u32>,
    pub user_ip: Option<IpAddress>,
    pub bind_ip: Option<IpAddress>,
    pub retry_seconds: u64,
    pub online_check_seconds: u64,
    pub auto_query_acid: bool,
    pub auto_reconnect: bool,
    pub startup_enabled: bool,
    pub last_reconnect_at_ms: Option<u64>,
    pub accept_terms: bool,
    pub os_name: String,
    pub device_name: String,
    pub n: u32,
    pub login_type: u32,
}

/// Seconds between status checks while online, unless configured longer.
pub fn default_online_check_seconds() -> (res: u64)
    ensures
        res == 60,
{
    60
}

/// The default settings on an operating system named `os`: no portal,
/// user or `ac_id`; the default probe; retry after 15 s; check every 60 s
/// while online; `ac_id` detection and auto reconnect on; the OS name as
/// both OS and device name; `n` 200 and login type 1.
pub fn default_for_os(os: &str) -> (res: AppConfig)
    ensures
        res.portal_url@ == Seq::<char>::empty(),
        res.probe_url@ == default_probe_url(),
        res.username@ == Seq::<char>::empty(),
        res.ac_id is None,
        res.user_ip is None,
        res.bind_ip is None,
        res.retry_seconds == 15,
        res.online_check_seconds == 60,
        res.auto_query_acid,
        res.auto_reconnect,
        !res.startup_enabled,
        res.last_reconnect_at_ms is None,
        res.accept_terms,
        res.os_name@ == os@,
        res.device_name@ == os@,
        res.n == 200,
        res.login_type == 1,
{
    let probe = chars_of("http://www.msftconnecttest.com/connecttest.txt");
    let os_v = chars_of(os);
    AppConfig {
        portal_url: String::new(),
        probe_url: string_from(probe.as_slice()),
        username: String::new(),
        ac_id: None,
        user_ip: None,
        bind_ip: None,
        retry_seconds: 15,
        online_check_seconds: default_online_check_seconds(),
        auto_query_acid: true,
        auto_reconnect: true,
        startup_enabled: false,
        last_reconnect_at_ms: None,
        accept_terms: true,
        os_name: string_from(os_v.as_slice()),
        device_name: string_from(os_v.as_slice()),
        n: 200,
        login_type: 1,
    }
}

/// Replaces the legacy probe URL by the default one; nothing else changes.
pub fn migrate_config(cfg: &mut AppConfig)
    ensures
        final(cfg).probe_url@ == (if trim(old(cfg).probe_url@) == legacy_probe_url() {
            default_probe_url()
        } else {
            old(cfg).probe_url@
        }),
        final(cfg).portal_url == old(cfg).portal_url,
        final(cfg).username == old(cfg).username,
        final(cfg).ac_id == old(cfg).ac_id,
        final(cfg).user_ip == old(cfg).user_ip,
        final(cfg).bind_ip == old(cfg).bind_ip,
        final(cfg).retry_seconds == old(cfg).retry_seconds,
        final(cfg).online_check_seconds == old(cfg).online_check_seconds,
        final(cfg).auto_query_acid == old(cfg).auto_query_acid,
        final(cfg).auto_reconnect == old(cfg).auto_reconnect,
        final(cfg).startup_enabled == old(cfg).startup_enabled,
        final(cfg).last_reconnect_at_ms == old(cfg).last_reconnect_at_ms,
        final(cfg).accept_terms == old(cfg).accept_terms,
        final(cfg).os_name == old(cfg).os_name,
        final(cfg).device_name == old(cfg).device_name,
        final(cfg).n == old(cfg).n,
        final(cfg).login_type == old(cfg).login_type,
{
    let t = trim_str(cfg.probe_url.as_str());
    if chars_eq_str(t.as_slice(), "http://connectivitycheck.gstatic.com/generate_204") {
        let probe = chars_of("http://www.msftconnecttest.com/connecttest.txt");
        cfg.probe_url = string_from(probe.as_slice());
    }
}

/// The name passwords are kept under in the system credential store.
pub fn keyring_service() -> (res: &'static str)
    ensures
        res@ == "gdou-net-login"@,
{
    "gdou-net-login"
}

/// The account a password is kept under: the user name, when it is not
/// blank (a blank user name has no stored password).
pub fn password_account(cfg: &AppConfig) -> (res: Option<String>)
    ensures
        match res {
            Some(u) => trim(cfg.username@).len() > 0 && u@ == cfg.username@,
            None => trim(cfg.username@).len() == 0,
        },
{
    let t = trim_str(cfg.username.as_str());
    if t.len() == 0 {
        None
    } else {
        Some(cfg.username.clone())
    }
}

#[verifier::external_type_specification]
#[verifier::external_body]
pub struct ExPathBuf(std::path::PathBuf);

/// The per-user configuration directory for an application, as
/// `directories::ProjectDirs::from` finds it; it depends on the user's
/// environment, so nothing is stated of it.
#[verifier::external_body]
fn project_config_dir(qualifier: &str, organization: &str, application: &str) -> Option<
    std::path::PathBuf,
> {
    directories::ProjectDirs::from(qualifier, organization, application).map(
        |dirs| dirs.config_dir().to_path_buf(),
    )
}

/// What `Path::join` gives for `base` and `name`.
pub uninterp spec fn joined(base: std::path::PathBuf, name: Seq<char>) -> std::path::PathBuf;

/// `base` with `name` appended (`Path::join`); the result depends on the
/// two arguments alone.
#[verifier::external_body]
fn path_join(base: &std::path::PathBuf, name: &str) -> (res: std::path::PathBuf)
    ensures
        res == joined(*base, name@),
{
    base.join(name)
}

/// The qualifier, organization and application name under which the
/// settings directory is looked up.
pub fn project_identity() -> (res: (&'static str, &'static str, &'static str))
    ensures
        res.0@ == "cn"@,
        res.1@ == "gdou"@,
        res.2@ == "gdou-net-login"@,
{
    proof {
        reveal_strlit("cn");
        reveal_strlit("gdou");
        reveal_strlit("gdou-net-login");
    }
    ("cn", "gdou", "gdou-net-login")
}

/// The settings file `config.json` in the configuration directory `dir`,
/// or the error for a directory that could not be found.
pub fn config_file_in(dir: Option<std::path::PathBuf>) -> (res: Result<std::path::PathBuf, SrunError>)
    ensures
        res is Ok <==> dir is Some,
        dir matches Some(d) ==> res == Ok::<std::path::PathBuf, SrunError>(joined(d, "config.json"@)),
        res is Err ==> res == Err::<std::path::PathBuf, SrunError>(SrunError::ConfigDirUnavailable),
{
    match dir {
        Some(d) => {
            let name = "config.json";
            proof {
                reveal_strlit("config.json");
            }
            Ok(path_join(&d, name))
        },
        None => Err(SrunError::ConfigDirUnavailable),
    }
}

/// The path of the settings file, `config.json` in the application's
/// configuration directory (looked up under `project_identity`). Whether
/// that directory can be found depends on the user's environment; when it
/// cannot, the error says so.
pub fn config_path() -> (res: Result<std::path::PathBuf, SrunError>)
    ensures
        res matches Ok(p) ==> exists|d: std::path::PathBuf| p == joined(d, "config.json"@),
        res is Err ==> res == Err::<std::path::PathBuf, SrunError>(SrunError::ConfigDirUnavailable),
{
    let (qualifier, organization, application) = project_identity();
    let dir = project_config_dir(qualifier, organization, application);
    let ghost found = dir;
    let res = config_file_in(dir);
    proof {
        if let Some(d) = found {
            assert(res == Ok::<std::path::PathBuf, SrunError>(joined(d, "config.json"@)));
        }
    }
    res
}

} // verus!
