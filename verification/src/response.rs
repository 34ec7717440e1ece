//! The portal's JSON replies: their fields read leniently as text, the
//! login-state, login/logout and challenge replies, and what a reply means.
use vstd::prelude::*;
use crate::error::SrunError;
use crate::ip::{ip_of, parse_ip_chars, IpAddress};
use crate::portal::{strip_jsonp, strip_jsonp_spec};
use crate::text::{append_chars, append_str, chars_of, string_from};
use crate::url::{chars_eq, chars_eq_str, opt_view};

verus! {

/// A JSON value as the client reads it.
pub enum JsonScalar {
    /// A string, decoded.
    Text(String),
    /// A number, as `serde_json` writes it.
    Number(String),
    /// A boolean.
    Bool(bool),
    /// `null`.
    Null,
    /// An array or object, as `serde_json` writes it.
    Compound(String),
}

/// The mathematical content of a `JsonScalar`.
pub enum JsonItem {
    Text(Seq<char>),
    Number(Seq<char>),
    Bool(bool),
    Null,
    Compound(Seq<char>),
}

impl View for JsonScalar {
    type V = JsonItem;

    open spec fn view(&self) -> JsonItem {
        match self {
            JsonScalar::Text(t) => JsonItem::Text(t@),
            JsonScalar::Number(t) => JsonItem::Number(t@),
            JsonScalar::Bool(b) => JsonItem::Bool(*b),
            JsonScalar::Null => JsonItem::Null,
            JsonScalar::Compound(t) => JsonItem::Compound(t@),
        }
    }
}

/// What `serde_json::from_str::<Value>` makes of a text: the fields of the
/// object it holds (`Some`), `None` for JSON that is not an object, or the
/// message of the error when the text is not JSON.
pub uninterp spec fn json_parse(text: Seq<char>) -> Result<
    Option<Seq<(Seq<char>, JsonItem)>>,
    Seq<char>,
>;

/// The fields of the JSON object a text holds; `None` when the text is not
/// a JSON object.
pub open spec fn json_object(text: Seq<char>) -> Option<Seq<(Seq<char>, JsonItem)>> {
    match json_parse(text) {
        Ok(o) => o,
        Err(_) => None,
    }
}

/// Why a text is not JSON, as `serde_json` words it; `None` for JSON.
pub open spec fn json_failure(text: Seq<char>) -> Option<Seq<char>> {
    match json_parse(text) {
        Ok(_) => None,
        Err(m) => Some(m),
    }
}

/// The views of a list of fields.
pub open spec fn field_views(v: Seq<(String, JsonScalar)>) -> Seq<(Seq<char>, JsonItem)> {
    v.map_values(|p: (String, JsonScalar)| (p.0@, p.1@))
}

/// Reads a JSON object with `serde_json::from_str::<Value>`; a failure
/// carries `serde_json`'s message.
#[verifier::external_body]
pub(crate) fn json_object_fields(text: &str) -> (res: Result<Option<Vec<(String, JsonScalar)>>, String>)
    ensures
        json_parse(text@) == (match res {
            Ok(Some(v)) => Ok(Some(field_views(v@))),
            Ok(None) => Ok(None),
            Err(m) => Err(m@),
        }),
{
    let map = match serde_json::from_str::<serde_json::Value>(text) {
        Ok(serde_json::Value::Object(map)) => map,
        Ok(_) => return Ok(None),
        Err(e) => return Err(e.to_string()),
    };
    Ok(Some(map.into_iter().map(|(key, value)| (key, match value {
        serde_json::Value::String(t) => JsonScalar::Text(t),
        serde_json::Value::Number(n) => JsonScalar::Number(n.to_string()),
        serde_json::Value::Bool(b) => JsonScalar::Bool(b),
        serde_json::Value::Null => JsonScalar::Null,
        other => JsonScalar::Compound(other.to_string()),
    })).collect()))
}

/// Why the body of a JSONP text is not JSON, if it is not.
pub open spec fn body_failure(text: Seq<char>) -> Option<Seq<char>> {
    json_failure(strip_jsonp_spec(text))
}

/// The value of the first field named `key`.
pub open spec fn lookup(fields: Seq<(Seq<char>, JsonItem)>, key: Seq<char>) -> Option<JsonItem>
    decreases fields.len(),
{
    if fields.len() == 0 {
        None
    } else if fields[0].0 == key {
        Some(fields[0].1)
    } else {
        lookup(fields.drop_first(), key)
    }
}

/// A JSON value read as text: strings as they are, numbers, booleans and
/// compound values as JSON writes them, `null` as nothing.
pub open spec fn item_text(v: JsonItem) -> Option<Seq<char>> {
    match v {
        JsonItem::Text(t) => Some(t),
        JsonItem::Number(t) => Some(t),
        JsonItem::Bool(b) => Some(if b {
            "true"@
        } else {
            "false"@
        }),
        JsonItem::Null => None,
        JsonItem::Compound(t) => Some(t),
    }
}

/// A field read as text, empty when absent or `null`.
pub open spec fn lossy_text(v: Option<JsonItem>) -> Seq<char> {
    match v {
        Some(i) => match item_text(i) {
            Some(t) => t,
            None => Seq::empty(),
        },
        None => Seq::empty(),
    }
}

/// A field read as text, nothing when absent, `null` or empty.
pub open spec fn lossy_opt(v: Option<JsonItem>) -> Option<Seq<char>> {
    match v {
        Some(i) => match item_text(i) {
            Some(t) => if t.len() > 0 {
                Some(t)
            } else {
                None
            },
            None => None,
        },
        None => None,
    }
}

/// The JSON value read as text.
pub fn value_to_string(value: &JsonScalar) -> (res: Option<String>)
    ensures
        opt_view(res) == item_text(value@),
{
    match value {
        JsonScalar::Text(t) => Some(t.clone()),
        JsonScalar::Number(t) => Some(t.clone()),
        JsonScalar::Bool(b) => {
            let v = if *b {
                chars_of("true")
            } else {
                chars_of("false")
            };
            Some(string_from(v.as_slice()))
        },
        JsonScalar::Null => None,
        JsonScalar::Compound(t) => Some(t.clone()),
    }
}

/// The value of the first field named `key`.
pub(crate) fn find_field<'a>(fields: &'a Vec<(String, JsonScalar)>, key: &str) -> (res: Option<&'a JsonScalar>)
    ensures
        match res {
            Some(v) => lookup(field_views(fields@), key@) == Some(v@),
            None => lookup(field_views(fields@), key@) is None,
        },
{
    let ghost fv = field_views(fields@);
    let kv = chars_of(key);
    let mut i: usize = 0;
    assert(fv.skip(0) =~= fv);
    while i < fields.len()
        invariant
            i <= fields@.len(),
            fv == field_views(fields@),
            kv@ == key@,
            lookup(fv.skip(i as int), key@) == lookup(fv, key@),
        decreases fields@.len() - i,
    {
        let k = chars_of(fields[i].0.as_str());
        assert(fv.skip(i as int)[0] == fv[i as int]);
        assert(fv.skip(i as int).drop_first() =~= fv.skip(i + 1));
        if chars_eq(k.as_slice(), kv.as_slice()) {
            return Some(&fields[i].1);
        }
        i = i + 1;
    }
    None
}

/// A field read as text, empty when absent or `null`.
fn field_text(fields: &Vec<(String, JsonScalar)>, key: &str) -> (res: String)
    ensures
        res@ == lossy_text(lookup(field_views(fields@), key@)),
{
    match find_field(fields, key) {
        Some(v) => match value_to_string(v) {
            Some(t) => t,
            None => String::new(),
        },
        None => String::new(),
    }
}

/// A field read as text, nothing when absent, `null` or empty.
fn field_opt(fields: &Vec<(String, JsonScalar)>, key: &str) -> (res: Option<String>)
    ensures
        opt_view(res) == lossy_opt(lookup(field_views(fields@), key@)),
{
    match find_field(fields, key) {
        Some(v) => match value_to_string(v) {
            Some(t) => if !t.as_str().is_empty() {
                Some(t)
            } else {
                None
            },
            None => None,
        },
        None => None,
    }
}

/// The portal's reply to a login or logout request.
#[derive(Clone, Debug)]
pub struct PortalResponse {
    pub error: String,
    pub error_msg: String,
    pub res: String,
    pub ecode: Option<String>,
    pub suc_msg: Option<String>,
}

/// The portal reply that a body's fields describe: `error` must be present.
pub open spec fn portal_response_of(fields: Seq<(Seq<char>, JsonItem)>) -> Option<
    (Seq<char>, Seq<char>, Seq<char>, Option<Seq<char>>, Option<Seq<char>>),
> {
    match lookup(fields, "error"@) {
        None => None,
        Some(e) => Some(
            (
                lossy_text(Some(e)),
                lossy_text(lookup(fields, "error_msg"@)),
                lossy_text(lookup(fields, "res"@)),
                lossy_opt(lookup(fields, "ecode"@)),
                lossy_opt(lookup(fields, "suc_msg"@)),
            ),
        ),
    }
}

/// The view of a portal reply.
pub open spec fn portal_response_view(p: PortalResponse) -> (
    Seq<char>,
    Seq<char>,
    Seq<char>,
    Option<Seq<char>>,
    Option<Seq<char>>,
) {
    (p.error@, p.error_msg@, p.res@, opt_view(p.ecode), opt_view(p.suc_msg))
}

/// The portal reply in a JSONP text, if its body is a JSON object with `error`.
pub open spec fn parse_portal_response_spec(text: Seq<char>) -> Option<
    (Seq<char>, Seq<char>, Seq<char>, Option<Seq<char>>, Option<Seq<char>>),
> {
    match json_object(strip_jsonp_spec(text)) {
        Some(fields) => portal_response_of(fields),
        None => None,
    }
}

/// Reads the portal's reply to a login or logout request.
pub fn parse_portal_response(text: &str) -> (res: Result<PortalResponse, SrunError>)
    ensures
        match res {
            Ok(p) => parse_portal_response_spec(text@) == Some(portal_response_view(p)),
            Err(e) => parse_portal_response_spec(text@) is None && (e matches SrunError::PortalResponseParse(c)
                && opt_view(c) == body_failure(text@)),
        },
{
    let body = strip_jsonp(text);
    let fields = match json_object_fields(body.as_str()) {
        Ok(Some(f)) => f,
        Ok(None) => return Err(SrunError::PortalResponseParse(None)),
        Err(m) => return Err(SrunError::PortalResponseParse(Some(m))),
    };
    if find_field(&fields, "error").is_none() {
        return Err(SrunError::PortalResponseParse(None));
    }
    Ok(PortalResponse {
        error: field_text(&fields, "error"),
        error_msg: field_text(&fields, "error_msg"),
        res: field_text(&fields, "res"),
        ecode: field_opt(&fields, "ecode"),
        suc_msg: field_opt(&fields, "suc_msg"),
    })
}

/// The portal's reply to a login-state query.
#[derive(Clone, Debug)]
pub struct LoginState {
    pub error: String,
    pub online_ip: Option<IpAddress>,
    pub user_name: Option<String>,
    pub error_msg: Option<String>,
    pub res: Option<String>,
}

/// An optional text read as an address.
pub open spec fn opt_ip(t: Option<Seq<char>>) -> Option<IpAddress> {
    match t {
        Some(s) => ip_of(s),
        None => None,
    }
}

/// The login state that a body's fields describe: `error` must be present.
pub open spec fn login_state_of(fields: Seq<(Seq<char>, JsonItem)>) -> Option<
    (Seq<char>, Option<IpAddress>, Option<Seq<char>>, Option<Seq<char>>, Option<Seq<char>>),
> {
    match lookup(fields, "error"@) {
        None => None,
        Some(e) => Some(
            (
                lossy_text(Some(e)),
                match lookup(fields, "online_ip"@) {
                    Some(v) => opt_ip(item_text(v)),
                    None => None,
                },
                lossy_opt(lookup(fields, "user_name"@)),
                lossy_opt(lookup(fields, "error_msg"@)),
                lossy_opt(lookup(fields, "res"@)),
            ),
        ),
    }
}

/// The view of a login state.
pub open spec fn login_state_view(s: LoginState) -> (
    Seq<char>,
    Option<IpAddress>,
    Option<Seq<char>>,
    Option<Seq<char>>,
    Option<Seq<char>>,
) {
    (s.error@, s.online_ip, opt_view(s.user_name), opt_view(s.error_msg), opt_view(s.res))
}

/// The login state in a JSONP text, if its body is a JSON object with `error`.
pub open spec fn parse_login_state_spec(text: Seq<char>) -> Option<
    (Seq<char>, Option<IpAddress>, Option<Seq<char>>, Option<Seq<char>>, Option<Seq<char>>),
> {
    match json_object(strip_jsonp_spec(text)) {
        Some(fields) => login_state_of(fields),
        None => None,
    }
}

/// Reads the portal's reply to a login-state query.
pub fn parse_login_state(text: &str) -> (res: Result<LoginState, SrunError>)
    ensures
        match res {
            Ok(s) => parse_login_state_spec(text@) == Some(login_state_view(s)),
            Err(e) => parse_login_state_spec(text@) is None && (e matches SrunError::LoginStateParse(c)
                && opt_view(c) == body_failure(text@)),
        },
{
    let body = strip_jsonp(text);
    let fields = match json_object_fields(body.as_str()) {
        Ok(Some(f)) => f,
        Ok(None) => return Err(SrunError::LoginStateParse(None)),
        Err(m) => return Err(SrunError::LoginStateParse(Some(m))),
    };
    if find_field(&fields, "error").is_none() {
        return Err(SrunError::LoginStateParse(None));
    }
    let online_ip = match find_field(&fields, "online_ip") {
        Some(v) => match value_to_string(v) {
            Some(t) => {
                let tv = chars_of(t.as_str());
                parse_ip_chars(tv.as_slice())
            },
            None => None,
        },
        None => None,
    };
    Ok(LoginState {
        error: field_text(&fields, "error"),
        online_ip,
        user_name: field_opt(&fields, "user_name"),
        error_msg: field_opt(&fields, "error_msg"),
        res: field_opt(&fields, "res"),
    })
}

/// The summary of a refused request: `login failed: <error>`, then `ecode=`
/// when it is set and differs from `error`, the message when set, and `res`
/// when set and different from the message, joined by `; `.
pub open spec fn portal_error_text(
    error: Seq<char>,
    error_msg: Seq<char>,
    res: Seq<char>,
    ecode: Option<Seq<char>>,
) -> Seq<char> {
    "login failed: "@ + error + (match ecode {
        Some(e) => if e.len() > 0 && e != error {
            "; ecode="@ + e
        } else {
            Seq::empty()
        },
        None => Seq::empty(),
    }) + (if error_msg.len() > 0 {
        "; "@ + error_msg
    } else {
        Seq::empty()
    }) + (if res.len() > 0 && res != error_msg {
        "; "@ + res
    } else {
        Seq::empty()
    })
}

/// The summary of a refused request.
pub fn format_portal_error(parsed: &PortalResponse) -> (res: String)
    ensures
        res@ == portal_error_text(
            parsed.error@,
            parsed.error_msg@,
            parsed.res@,
            opt_view(parsed.ecode),
        ),
{
    let error = chars_of(parsed.error.as_str());
    let msg = chars_of(parsed.error_msg.as_str());
    let r = chars_of(parsed.res.as_str());
    let mut out = chars_of("login failed: ");
    append_chars(&mut out, error.as_slice());
    let ghost p1 = out@;
    if let Some(e) = &parsed.ecode {
        let ev = chars_of(e.as_str());
        if ev.len() > 0 && !chars_eq(ev.as_slice(), error.as_slice()) {
            append_str(&mut out, "; ecode=");
            append_chars(&mut out, ev.as_slice());
        }
    }
    let ghost p2 = out@;
    if msg.len() > 0 {
        append_str(&mut out, "; ");
        append_chars(&mut out, msg.as_slice());
    }
    let ghost p3 = out@;
    if r.len() > 0 && !chars_eq(r.as_slice(), msg.as_slice()) {
        append_str(&mut out, "; ");
        append_chars(&mut out, r.as_slice());
    }
    proof {
        let ec = match opt_view(parsed.ecode) {
            Some(e) => if e.len() > 0 && e != error@ {
                "; ecode="@ + e
            } else {
                Seq::<char>::empty()
            },
            None => Seq::<char>::empty(),
        };
        assert(p2 =~= p1 + ec);
        assert(out@ =~= portal_error_text(
            parsed.error@,
            parsed.error_msg@,
            parsed.res@,
            opt_view(parsed.ecode),
        ));
    }
    string_from(out.as_slice())
}

/// What a login reply means: a refusal unless `error` is `ok`; else `res`
/// when set, else `suc_msg` when set, else the raw reply.
pub open spec fn login_reply_outcome(res: Result<String, SrunError>, raw: Seq<char>) -> bool {
    match parse_portal_response_spec(raw) {
        None => res matches Err(SrunError::PortalResponseParse(c)) && opt_view(c) == body_failure(raw),
        Some((error, error_msg, r, ecode, suc_msg)) => if error != "ok"@ {
            res matches Err(SrunError::PortalRejected(m)) && m@ == portal_error_text(
                error,
                error_msg,
                r,
                ecode,
            )
        } else if r.len() > 0 {
            res matches Ok(t) && t@ == r
        } else {
            match suc_msg {
                Some(m) => res matches Ok(t) && t@ == m,
                None => res matches Ok(t) && t@ == raw,
            }
        },
    }
}

/// A refusal summary starts with `login failed: ` and the `error` value.
proof fn lemma_portal_error_text_head(
    error: Seq<char>,
    error_msg: Seq<char>,
    res: Seq<char>,
    ecode: Option<Seq<char>>,
)
    ensures
        portal_error_text(error, error_msg, res, ecode).take(14 + error.len() as int) == "login failed: "@
            + error,
{
    reveal_strlit("login failed: ");
    let head = "login failed: "@ + error;
    let t = portal_error_text(error, error_msg, res, ecode);
    assert(head.len() == 14 + error.len());
    let rest = t.subrange(head.len() as int, t.len() as int);
    assert(t =~= head + rest);
    assert((head + rest).take(head.len() as int) =~= head);
}

/// A refused login is never reported as a success: when the reply reads
/// and its `error` field is not `ok`, the login ends in a refusal whose
/// text starts with `login failed: ` and the `error` value, whatever `res`
/// or `suc_msg` say; and a login reported as a success came with `error`
/// equal to `ok`.
pub proof fn lemma_login_refusal_is_failure(raw: Seq<char>, res: Result<String, SrunError>)
    requires
        login_reply_outcome(res, raw),
    ensures
        match parse_portal_response_spec(raw) {
            Some(p) => p.0 != "ok"@ ==> match res {
                Err(SrunError::PortalRejected(m)) => m@.take(14 + p.0.len() as int) == "login failed: "@
                    + p.0,
                _ => false,
            },
            None => true,
        },
        res is Ok ==> (parse_portal_response_spec(raw) matches Some(p) && p.0 == "ok"@),
        res matches Ok(t) ==> (parse_portal_response_spec(raw) matches Some(p) && (t@ == p.2
            || Some(t@) == p.4 || t@ == raw)),
        match parse_portal_response_spec(raw) {
            Some(p) => p.0 == "ok"@ && p.2.len() > 0 ==> match res {
                Ok(t) => t@ == p.2,
                Err(_) => false,
            },
            None => true,
        },
{
    reveal_strlit("login failed: ");
    if let Some(p) = parse_portal_response_spec(raw) {
        if p.0 != "ok"@ {
            lemma_portal_error_text_head(p.0, p.1, p.2, p.3);
        }
    }
}

/// Interprets the portal's reply to a login request.
pub fn interpret_login_reply(raw: &str) -> (res: Result<String, SrunError>)
    ensures
        login_reply_outcome(res, raw@),
{
    let parsed = match parse_portal_response(raw) {
        Ok(p) => p,
        Err(e) => return Err(e),
    };
    let ev = chars_of(parsed.error.as_str());
    if !chars_eq_str(ev.as_slice(), "ok") {
        return Err(SrunError::PortalRejected(format_portal_error(&parsed)));
    }
    if !parsed.res.as_str().is_empty() {
        return Ok(parsed.res);
    }
    match parsed.suc_msg {
        Some(m) => Ok(m),
        None => Ok(raw.to_owned()),
    }
}

/// What a logout reply means: a refusal unless `error` is `ok`; else
/// `logout ok` when the message or `res` is `0`, else the message when set,
/// else `res` when set, else the raw reply.
pub open spec fn logout_reply_outcome(res: Result<String, SrunError>, raw: Seq<char>) -> bool {
    match parse_portal_response_spec(raw) {
        None => res matches Err(SrunError::PortalResponseParse(c)) && opt_view(c) == body_failure(raw),
        Some((error, error_msg, r, ecode, suc_msg)) => if error != "ok"@ {
            res matches Err(SrunError::PortalRejected(m)) && m@ == portal_error_text(
                error,
                error_msg,
                r,
                ecode,
            )
        } else if error_msg == "0"@ || r == "0"@ {
            res matches Ok(t) && t@ == "logout ok"@
        } else if error_msg.len() > 0 {
            res matches Ok(t) && t@ == error_msg
        } else if r.len() > 0 {
            res matches Ok(t) && t@ == r
        } else {
            res matches Ok(t) && t@ == raw
        },
    }
}

/// A refused logout is never reported as done: when the reply reads and
/// its `error` field is not `ok`, the logout ends in a refusal whose text
/// starts with `login failed: ` and the `error` value; a logout reported as
/// done came with `error` equal to `ok`.
pub proof fn lemma_logout_refusal_is_failure(raw: Seq<char>, res: Result<String, SrunError>)
    requires
        logout_reply_outcome(res, raw),
    ensures
        match parse_portal_response_spec(raw) {
            Some(p) => p.0 != "ok"@ ==> match res {
                Err(SrunError::PortalRejected(m)) => m@.take(14 + p.0.len() as int) == "login failed: "@
                    + p.0,
                _ => false,
            },
            None => true,
        },
        res is Ok ==> (parse_portal_response_spec(raw) matches Some(p) && p.0 == "ok"@),
        match parse_portal_response_spec(raw) {
            Some(p) => p.0 == "ok"@ && (p.1 == "0"@ || p.2 == "0"@) ==> match res {
                Ok(t) => t@ == "logout ok"@,
                Err(_) => false,
            },
            None => true,
        },
{
    reveal_strlit("login failed: ");
    if let Some(p) = parse_portal_response_spec(raw) {
        if p.0 != "ok"@ {
            lemma_portal_error_text_head(p.0, p.1, p.2, p.3);
        }
    }
}

/// Interprets the portal's reply to a logout request.
pub fn interpret_logout_reply(raw: &str) -> (res: Result<String, SrunError>)
    ensures
        logout_reply_outcome(res, raw@),
{
    let parsed = match parse_portal_response(raw) {
        Ok(p) => p,
        Err(e) => return Err(e),
    };
    let ev = chars_of(parsed.error.as_str());
    if !chars_eq_str(ev.as_slice(), "ok") {
        return Err(SrunError::PortalRejected(format_portal_error(&parsed)));
    }
    let mv = chars_of(parsed.error_msg.as_str());
    let rv = chars_of(parsed.res.as_str());
    if chars_eq_str(mv.as_slice(), "0") || chars_eq_str(rv.as_slice(), "0") {
        let t = chars_of("logout ok");
        return Ok(string_from(t.as_slice()));
    }
    if mv.len() > 0 {
        return Ok(parsed.error_msg);
    }
    if rv.len() > 0 {
        return Ok(parsed.res);
    }
    Ok(raw.to_owned())
}

/// The challenge token a JSONP reply holds, if its body is a JSON object
/// whose `challenge` is a string.
pub open spec fn challenge_of(text: Seq<char>) -> Option<Seq<char>> {
    match json_object(strip_jsonp_spec(text)) {
        Some(fields) => match lookup(fields, "challenge"@) {
            Some(JsonItem::Text(t)) => Some(t),
            _ => None,
        },
        None => None,
    }
}

/// Reads the challenge token from the portal's reply; an empty token is a failure.
pub fn parse_challenge(raw: &str) -> (res: Result<String, SrunError>)
    ensures
        match challenge_of(raw@) {
            None => res matches Err(SrunError::ChallengeParse(c)) && opt_view(c) == body_failure(raw@),
            Some(t) => if t.len() == 0 {
                res == Err::<String, SrunError>(SrunError::ChallengeMissing)
            } else {
                res matches Ok(c) && c@ == t
            },
        },
{
    let body = strip_jsonp(raw);
    let fields = match json_object_fields(body.as_str()) {
        Ok(Some(f)) => f,
        Ok(None) => return Err(SrunError::ChallengeParse(None)),
        Err(m) => return Err(SrunError::ChallengeParse(Some(m))),
    };
    match find_field(&fields, "challenge") {
        Some(JsonScalar::Text(t)) => if t.as_str().is_empty() {
            Err(SrunError::ChallengeMissing)
        } else {
            Ok(t.clone())
        },
        _ => Err(SrunError::ChallengeParse(None)),
    }
}

} // verus!
