//! The failures the client reports, each with the message it shows.
use vstd::prelude::*;
use crate::text::{prefixed, string_of};

verus! {

/// A failure of one of the client's steps.
#[derive(Clone, Debug, PartialEq, Eq)]
pub enum SrunError {
    /// The text is not an absolute URL; carries the URL parser's reason.
    InvalidUrl(String),
    /// The URL's scheme is neither `http` nor `https`.
    UnsupportedScheme,
    /// The URL has no host.
    MissingHost,
    /// The URL's host is a local, unspecified or link-local address.
    UnsafeHost,
    /// An empty portal URL was given where one is needed.
    PortalUrlRequired,
    /// The portal URL is not an absolute URL; carries the parser's reason.
    InvalidPortalUrl(String),
    /// The portal URL has no host.
    PortalUrlMissingHost,
    /// The HMAC key was refused.
    HmacKey,
    /// The portal's reply to a login or logout is not a JSON object with an
    /// `error` field; carries the JSON parser's reason when the reply is not
    /// JSON at all.
    PortalResponseParse(Option<String>),
    /// The portal's login-state reply is not a JSON object with an `error`
    /// field; carries the JSON parser's reason when it is not JSON at all.
    LoginStateParse(Option<String>),
    /// The portal's challenge reply is not a JSON object with a string
    /// `challenge`; carries the JSON parser's reason when it is not JSON.
    ChallengeParse(Option<String>),
    /// The portal's challenge reply holds an empty token.
    ChallengeMissing,
    /// The challenge token cannot key the login cipher (it is shorter than
    /// 13 bytes), or the login data is too large to encode.
    ChallengeUnusable,
    /// The portal refused the request; carries the summary of its reply.
    PortalRejected(String),
    /// No `ac_id` was configured or detected.
    AcIdUndetected,
    /// No `ac_id` is configured and detection is off.
    AcIdRequired,
    /// No client address could be found or was configured.
    ClientIpRequired,
    /// No portal URL was configured or detected.
    PortalUndetected,
    /// The detected portal URL is not an absolute URL; carries the reason.
    InvalidDetectedPortalUrl(String),
    /// The detected portal URL has no host.
    DetectedPortalMissingHost,
    /// The probe URL is empty.
    ProbeUrlRequired,
    /// The user name is empty.
    UsernameRequired,
    /// The `ac_id` is not a number.
    InvalidAcId,
    /// The client address is not an address.
    InvalidClientIp,
    /// The login outlet address is not an address.
    InvalidBindIp,
    /// The password is empty.
    PasswordRequired,
    /// The configuration directory could not be found.
    ConfigDirUnavailable,
    /// A request could not be sent or its reply not read; carries the reason.
    Transport(String),
    /// The Run registry value is not UTF-16 text.
    StartupValueEncoding,
}

/// `: ` and the cause, when there is one.
pub open spec fn cause_suffix(cause: Option<String>) -> Seq<char> {
    match cause {
        Some(c) => ": "@ + c@,
        None => Seq::empty(),
    }
}

/// `message`, followed by `: ` and the cause when there is one.
fn with_cause(message: &str, cause: &Option<String>) -> (res: String)
    ensures
        res@ == message@ + cause_suffix(*cause),
{
    match cause {
        Some(c) => {
            let head = prefixed(message, ": ");
            proof {
                reveal_strlit(": ");
            }
            let r = prefixed(head.as_str(), c.as_str());
            assert(r@ =~= message@ + (": "@ + c@));
            r
        },
        None => {
            let r = string_of(message);
            assert(message@ + Seq::<char>::empty() =~= message@);
            r
        },
    }
}

/// The message shown for a failure.
pub open spec fn error_text(e: SrunError) -> Seq<char> {
    match e {
        SrunError::InvalidUrl(c) => "invalid url: "@ + c@,
        SrunError::UnsupportedScheme => "only http and https urls are allowed"@,
        SrunError::MissingHost => "url missing host"@,
        SrunError::UnsafeHost => "unsafe local or link-local address is not allowed"@,
        SrunError::PortalUrlRequired => "portal url is required"@,
        SrunError::InvalidPortalUrl(c) => "invalid portal url: "@ + c@,
        SrunError::PortalUrlMissingHost => "portal url missing host"@,
        SrunError::HmacKey => "failed to initialize hmac"@,
        SrunError::PortalResponseParse(c) => "failed to parse portal response"@ + cause_suffix(c),
        SrunError::LoginStateParse(c) => "failed to parse login state"@ + cause_suffix(c),
        SrunError::ChallengeParse(c) => "failed to parse challenge response"@ + cause_suffix(c),
        SrunError::ChallengeMissing => "challenge token missing"@,
        SrunError::ChallengeUnusable => "challenge token is too short to key the login cipher"@,
        SrunError::PortalRejected(m) => m@,
        SrunError::AcIdUndetected => "failed to auto detect ac_id; paste the current portal URL or fill ac_id manually"@,
        SrunError::AcIdRequired => "ac_id is required when auto detection is disabled"@,
        SrunError::ClientIpRequired => "client ip is required"@,
        SrunError::PortalUndetected => "failed to auto detect portal url; paste the current portal URL in advanced settings"@,
        SrunError::InvalidDetectedPortalUrl(c) => "invalid detected portal url: "@ + c@,
        SrunError::DetectedPortalMissingHost => "detected portal url missing host"@,
        SrunError::ProbeUrlRequired => "probe url is required"@,
        SrunError::UsernameRequired => "username is required"@,
        SrunError::InvalidAcId => "invalid ac_id"@,
        SrunError::InvalidClientIp => "invalid client ip"@,
        SrunError::InvalidBindIp => "invalid login outlet ip"@,
        SrunError::PasswordRequired => "password is required"@,
        SrunError::ConfigDirUnavailable => "failed to resolve config directory"@,
        SrunError::Transport(c) => c@,
        SrunError::StartupValueEncoding => "startup registry value has invalid UTF-16 data"@,
    }
}

impl SrunError {
    /// The message shown for this failure.
    pub fn message(&self) -> (res: String)
        ensures
            res@ == error_text(*self),
    {
        match self {
            SrunError::InvalidUrl(c) => prefixed("invalid url: ", c.as_str()),
            SrunError::UnsupportedScheme => string_of("only http and https urls are allowed"),
            SrunError::MissingHost => string_of("url missing host"),
            SrunError::UnsafeHost => string_of("unsafe local or link-local address is not allowed"),
            SrunError::PortalUrlRequired => string_of("portal url is required"),
            SrunError::InvalidPortalUrl(c) => prefixed("invalid portal url: ", c.as_str()),
            SrunError::PortalUrlMissingHost => string_of("portal url missing host"),
            SrunError::HmacKey => string_of("failed to initialize hmac"),
            SrunError::PortalResponseParse(c) => with_cause("failed to parse portal response", c),
            SrunError::LoginStateParse(c) => with_cause("failed to parse login state", c),
            SrunError::ChallengeParse(c) => with_cause("failed to parse challenge response", c),
            SrunError::ChallengeMissing => string_of("challenge token missing"),
            SrunError::ChallengeUnusable => string_of(
                "challenge token is too short to key the login cipher",
            ),
            SrunError::PortalRejected(m) => m.clone(),
            SrunError::AcIdUndetected => string_of(
                "failed to auto detect ac_id; paste the current portal URL or fill ac_id manually",
            ),
            SrunError::AcIdRequired => string_of("ac_id is required when auto detection is disabled"),
            SrunError::ClientIpRequired => string_of("client ip is required"),
            SrunError::PortalUndetected => string_of(
                "failed to auto detect portal url; paste the current portal URL in advanced settings",
            ),
            SrunError::InvalidDetectedPortalUrl(c) => prefixed("invalid detected portal url: ", c.as_str()),
            SrunError::DetectedPortalMissingHost => string_of("detected portal url missing host"),
            SrunError::ProbeUrlRequired => string_of("probe url is required"),
            SrunError::UsernameRequired => string_of("username is required"),
            SrunError::InvalidAcId => string_of("invalid ac_id"),
            SrunError::InvalidClientIp => string_of("invalid client ip"),
            SrunError::InvalidBindIp => string_of("invalid login outlet ip"),
            SrunError::PasswordRequired => string_of("password is required"),
            SrunError::ConfigDirUnavailable => string_of("failed to resolve config directory"),
            SrunError::Transport(c) => c.clone(),
            SrunError::StartupValueEncoding => string_of(
                "startup registry value has invalid UTF-16 data",
            ),
        }
    }
}

} // verus!
