//! Reading what the portal and the pages around it send back: the JSONP
//! wrapper, the signs of an SRUN portal, and the `ac_id`, user address and
//! portal URL found in page text.
use vstd::prelude::*;
use crate::ip::{
    decimal_run_end, decimal_run_end_exec, ip_of, is_decimal_digit, is_decimal_digit_char,
    parse_ip_chars, IpAddress,
};
use crate::ipv6::is_hex;
use crate::text::{
    append_str, chars_of, contains, contains_str, decimal, decimal_chars, find_char, first_index_of,
    is_ws, is_ws_char, last_index_of, matches_at, occurs_at, parse_u32_chars, replace_all,
    replace_chars, rfind_char, slice_chars, string_from, trim, trim_str, u32_of, append_chars,
};

verus! {

/// The JSON inside a JSONP reply: the text between the first `(` and the
/// last `)` of the trimmed reply, or the trimmed reply itself.
pub open spec fn strip_jsonp_spec(text: Seq<char>) -> Seq<char> {
    let t = trim(text);
    match (first_index_of(t, '('), last_index_of(t, ')')) {
        (Some(o), Some(c)) => if c > o {
            t.subrange(o + 1, c)
        } else {
            t
        },
        _ => t,
    }
}

/// The JSON inside a JSONP reply.
pub fn strip_jsonp(text: &str) -> (res: String)
    ensures
        res@ == strip_jsonp_spec(text@),
{
    let t = trim_str(text);
    match find_char(t.as_slice(), '(') {
        Some(open) => match rfind_char(t.as_slice(), ')') {
            Some(close) => if close > open {
                let inner = slice_chars(t.as_slice(), open + 1, close);
                return string_from(inner.as_slice());
            },
            None => {},
        },
        None => {},
    }
    string_from(t.as_slice())
}

/// Page text that mentions an SRUN portal endpoint or parameter.
pub open spec fn looks_like_srun_portal_spec(text: Seq<char>) -> bool {
    contains(text, "srun_portal"@) || contains(text, "get_challenge"@) || contains(
        text,
        "rad_user_info"@,
    ) || contains(text, "srun_bx1"@) || contains(text, "ac_id"@)
}

/// Whether page text mentions an SRUN portal endpoint or parameter.
pub fn looks_like_srun_portal(text: &str) -> (res: bool)
    ensures
        res == looks_like_srun_portal_spec(text@),
{
    let v = chars_of(text);
    contains_str(v.as_slice(), "srun_portal") || contains_str(v.as_slice(), "get_challenge")
        || contains_str(v.as_slice(), "rad_user_info") || contains_str(v.as_slice(), "srun_bx1")
        || contains_str(v.as_slice(), "ac_id")
}

/// A reply shaped like the portal's jQuery JSONP callback.
pub open spec fn response_is_jsonp_spec(text: Seq<char>) -> bool {
    let t = trim(text);
    occurs_at(t, "jQuery"@, 0) && contains(t, "("@) && t.len() > 0 && t.last() == ')'
}

/// Whether a reply is shaped like the portal's jQuery JSONP callback.
pub fn response_is_jsonp(text: &str) -> (res: bool)
    ensures
        res == response_is_jsonp_spec(text@),
{
    let t = trim_str(text);
    let prefix = chars_of("jQuery");
    matches_at(t.as_slice(), prefix.as_slice(), 0) && contains_str(t.as_slice(), "(") && t.len()
        > 0 && t[t.len() - 1] == ')'
}

/// The JSONP callback name for a request made at `timestamp` milliseconds.
pub open spec fn callback_name_spec(timestamp: nat) -> Seq<char> {
    "jQuery1124_"@ + decimal(timestamp)
}

/// The JSONP callback name for a request made at `timestamp` milliseconds.
pub fn callback_name(timestamp: u128) -> (res: String)
    ensures
        res@ == callback_name_spec(timestamp as nat),
{
    let mut v = chars_of("jQuery1124_");
    let d = decimal_chars(timestamp);
    append_chars(&mut v, d.as_slice());
    string_from(v.as_slice())
}

/// Where the digits of an `ac_id=` or `/index_` match at `s` start: the
/// marker must be followed by a decimal digit (in Unicode's sense, as `\d`
/// matches).
pub open spec fn acid_digits_at(t: Seq<char>, s: int) -> Option<int> {
    if occurs_at(t, "ac_id="@, s) && s + 6 < t.len() && is_decimal_digit(t[s + 6]) {
        Some(s + 6)
    } else if occurs_at(t, "/index_"@, s) && s + 7 < t.len() && is_decimal_digit(t[s + 7]) {
        Some(s + 7)
    } else {
        None
    }
}

/// The digits of the leftmost `ac_id=` or `/index_` match at or after `s`.
pub open spec fn first_acid(t: Seq<char>, s: int) -> Option<int>
    decreases t.len() + 1 - s,
{
    if s < 0 || s > t.len() {
        None
    } else {
        match acid_digits_at(t, s) {
            Some(d) => Some(d),
            None => first_acid(t, s + 1),
        }
    }
}

/// The `ac_id` page text carries: the run of decimal digits after its first
/// `ac_id=` or `/index_` that is followed by one, read as a number (none
/// when the run holds a non-ASCII digit or does not fit in 32 bits).
pub open spec fn acid_from_text(t: Seq<char>) -> Option<u32> {
    match first_acid(t, 0) {
        Some(d) => u32_of(t.subrange(d, decimal_run_end(t, d))),
        None => None,
    }
}

/// The `ac_id` the page text carries.
pub fn parse_acid_from_text(text: &str) -> (res: Option<u32>)
    ensures
        res == acid_from_text(text@),
{
    let t = chars_of(text);
    let a1 = chars_of("ac_id=");
    let a2 = chars_of("/index_");
    proof {
        reveal_strlit("ac_id=");
        reveal_strlit("/index_");
    }
    let n = t.len();
    let mut s: usize = 0;
    while s < n
        invariant
            s <= n,
            n == t@.len(),
            t@ == text@,
            a1@ == "ac_id="@,
            a2@ == "/index_"@,
            a1@.len() == 6,
            a2@.len() == 7,
            first_acid(t@, s as int) == first_acid(t@, 0),
        decreases n - s,
    {
        let mut found: Option<usize> = None;
        if matches_at(t.as_slice(), a1.as_slice(), s) && s + 6 < n && is_decimal_digit_char(
            t[s + 6],
        ) {
            found = Some(s + 6);
        } else if matches_at(t.as_slice(), a2.as_slice(), s) && s + 7 < n
            && is_decimal_digit_char(t[s + 7]) {
            found = Some(s + 7);
        }
        if let Some(d) = found {
            let e = decimal_run_end_exec(t.as_slice(), d);
            let digits = slice_chars(t.as_slice(), d, e);
            return parse_u32_chars(digits.as_slice());
        }
        s = s + 1;
    }
    assert(acid_digits_at(t@, n as int) is None);
    assert(first_acid(t@, n + 1) is None);
    None
}

/// A character of the address class `[0-9a-fA-F:.]`.
pub open spec fn is_ip_class(c: char) -> bool {
    is_hex(c) || c == ':' || c == '.'
}

/// The first index at or after `i` outside the address class.
pub open spec fn ip_class_end(t: Seq<char>, i: int) -> int
    decreases t.len() - i,
{
    if i < 0 || i >= t.len() {
        t.len() as int
    } else if is_ip_class(t[i]) {
        ip_class_end(t, i + 1)
    } else {
        i
    }
}

/// `key` occurs at `s` and an address-class character follows it.
pub open spec fn key_then_class(t: Seq<char>, key: Seq<char>, s: int) -> bool {
    occurs_at(t, key, s) && s + key.len() < t.len() && is_ip_class(t[s + key.len()])
}

/// Where the address of a `wlanuserip=`, `user_ip=` or `userip=` match at
/// `s` starts.
pub open spec fn user_ip_value_at(t: Seq<char>, s: int) -> Option<int> {
    if key_then_class(t, "wlanuserip="@, s) {
        Some(s + 11)
    } else if key_then_class(t, "user_ip="@, s) {
        Some(s + 8)
    } else if key_then_class(t, "userip="@, s) {
        Some(s + 7)
    } else {
        None
    }
}

/// The address of the leftmost such match at or after `s`.
pub open spec fn first_user_ip(t: Seq<char>, s: int) -> Option<int>
    decreases t.len() + 1 - s,
{
    if s < 0 || s > t.len() {
        None
    } else {
        match user_ip_value_at(t, s) {
            Some(d) => Some(d),
            None => first_user_ip(t, s + 1),
        }
    }
}

/// The user address page text carries: the address-class run after its
/// first `wlanuserip=`, `user_ip=` or `userip=`, read as an address.
pub open spec fn user_ip_from_text(t: Seq<char>) -> Option<IpAddress> {
    match first_user_ip(t, 0) {
        Some(d) => ip_of(t.subrange(d, ip_class_end(t, d))),
        None => None,
    }
}

/// Whether `c` is in the address class.
fn is_ip_class_char(c: char) -> (res: bool)
    ensures
        res == is_ip_class(c),
{
    ('0' <= c && c <= '9') || ('a' <= c && c <= 'f') || ('A' <= c && c <= 'F') || c == ':' || c
        == '.'
}

/// Whether `key` occurs at `s` followed by an address-class character.
fn key_then_class_exec(t: &[char], key: &[char], s: usize) -> (res: bool)
    ensures
        res == key_then_class(t@, key@, s as int),
{
    matches_at(t, key, s) && s + key.len() < t.len() && is_ip_class_char(t[s + key.len()])
}

/// The user address the page text carries.
pub fn parse_user_ip_from_text(text: &str) -> (res: Option<IpAddress>)
    ensures
        res == user_ip_from_text(text@),
{
    let t = chars_of(text);
    let k1 = chars_of("wlanuserip=");
    let k2 = chars_of("user_ip=");
    let k3 = chars_of("userip=");
    proof {
        reveal_strlit("wlanuserip=");
        reveal_strlit("user_ip=");
        reveal_strlit("userip=");
    }
    let n = t.len();
    let mut s: usize = 0;
    while s < n
        invariant
            s <= n,
            n == t@.len(),
            t@ == text@,
            k1@ == "wlanuserip="@,
            k2@ == "user_ip="@,
            k3@ == "userip="@,
            k1@.len() == 11,
            k2@.len() == 8,
            k3@.len() == 7,
            first_user_ip(t@, s as int) == first_user_ip(t@, 0),
        decreases n - s,
    {
        let mut found: Option<usize> = None;
        if key_then_class_exec(t.as_slice(), k1.as_slice(), s) {
            found = Some(s + 11);
        } else if key_then_class_exec(t.as_slice(), k2.as_slice(), s) {
            found = Some(s + 8);
        } else if key_then_class_exec(t.as_slice(), k3.as_slice(), s) {
            found = Some(s + 7);
        }
        if let Some(d) = found {
            let mut e = d;
            while e < n && is_ip_class_char(t[e])
                invariant
                    d <= e <= n,
                    n == t@.len(),
                    ip_class_end(t@, e as int) == ip_class_end(t@, d as int),
                decreases n - e,
            {
                e = e + 1;
            }
            let run = slice_chars(t.as_slice(), d, e);
            return parse_ip_chars(run.as_slice());
        }
        s = s + 1;
    }
    assert(user_ip_value_at(t@, n as int) is None);
    assert(first_user_ip(t@, n + 1) is None);
    None
}

/// A character that ends a URL in page text: white space, a quote, `<` or `>`.
pub open spec fn ends_url(c: char) -> bool {
    is_ws(c) || c == '\'' || c == '"' || c == '<' || c == '>'
}

/// The first index at or after `i` holding a URL-ending character.
pub open spec fn url_run_end(t: Seq<char>, i: int) -> int
    decreases t.len() - i,
{
    if i < 0 || i >= t.len() {
        t.len() as int
    } else if ends_url(t[i]) {
        i
    } else {
        url_run_end(t, i + 1)
    }
}

/// The length of the `https://` or `http://` at `s` (zero if neither).
pub open spec fn scheme_len_at(t: Seq<char>, s: int) -> int {
    if occurs_at(t, "https://"@, s) {
        8
    } else if occurs_at(t, "http://"@, s) {
        7
    } else {
        0
    }
}

/// `word` occurs at `j` and ends by `end`.
pub open spec fn word_within(t: Seq<char>, word: Seq<char>, j: int, end: int) -> bool {
    occurs_at(t, word, j) && j + word.len() <= end
}

/// A portal endpoint name at `j` within the run ending at `end`:
/// `srun_portal` (which `srun_portal_success` begins with), `cgi-bin`,
/// `get_challenge`, `rad_user_info`, or `index_` and a decimal digit.
pub open spec fn endpoint_at(t: Seq<char>, j: int, end: int) -> bool {
    word_within(t, "srun_portal"@, j, end) || word_within(t, "cgi-bin"@, j, end) || word_within(
        t,
        "get_challenge"@,
        j,
        end,
    ) || word_within(t, "rad_user_info"@, j, end) || (word_within(t, "index_"@, j, end) && j + 6
        < end && is_decimal_digit(t[j + 6]))
}

/// A portal query key at `j` within the run ending at `end`: `?ac_id=`,
/// `&ac_id=`, `?wlanuserip=` or `&wlanuserip=`.
pub open spec fn query_key_at(t: Seq<char>, j: int, end: int) -> bool {
    word_within(t, "?ac_id="@, j, end) || word_within(t, "&ac_id="@, j, end) || word_within(
        t,
        "?wlanuserip="@,
        j,
        end,
    ) || word_within(t, "&wlanuserip="@, j, end)
}

/// A marker of the chosen kind at `j` in the run ending at `end`.
pub open spec fn marker(t: Seq<char>, j: int, end: int, query: bool) -> bool {
    if query {
        query_key_at(t, j, end)
    } else {
        endpoint_at(t, j, end)
    }
}

/// The end of the URL starting at `s` if the text after its `://` has, past
/// its first character, a marker (`query` picks which kind).
pub open spec fn url_match_at(t: Seq<char>, s: int, query: bool) -> Option<int> {
    let k = scheme_len_at(t, s);
    if k == 0 {
        None
    } else {
        let rs = s + k;
        let re = url_run_end(t, rs);
        if exists|j: int| rs + 1 <= j < re && #[trigger] marker(t, j, re, query) {
            Some(re)
        } else {
            None
        }
    }
}

/// The leftmost URL match at or after `s`: its start and end.
pub open spec fn first_url_match(t: Seq<char>, s: int, query: bool) -> Option<(int, int)>
    decreases t.len() + 1 - s,
{
    if s < 0 || s > t.len() {
        None
    } else {
        match url_match_at(t, s, query) {
            Some(e) => Some((s, e)),
            None => first_url_match(t, s + 1, query),
        }
    }
}

/// The portal URL page text carries: the first http(s) URL naming a portal
/// endpoint, else the first naming a portal query key, with `&amp;` decoded.
pub open spec fn portal_url_from_text(t: Seq<char>) -> Option<Seq<char>> {
    match first_url_match(t, 0, false) {
        Some((s, e)) => Some(replace_all(t.subrange(s, e), "&amp;"@, "&"@)),
        None => match first_url_match(t, 0, true) {
            Some((s, e)) => Some(replace_all(t.subrange(s, e), "&amp;"@, "&"@)),
            None => None,
        },
    }
}

/// Whether `word` occurs at `j` ending by `end`.
fn word_within_exec(t: &[char], word: &[char], j: usize, end: usize) -> (res: bool)
    requires
        end <= t@.len(),
    ensures
        res == word_within(t@, word@, j as int, end as int),
{
    matches_at(t, word, j) && j + word.len() <= end
}

/// The literals the URL scanner looks for.
struct UrlWords {
    https: Vec<char>,
    http: Vec<char>,
    srun_portal: Vec<char>,
    cgi_bin: Vec<char>,
    get_challenge: Vec<char>,
    rad_user_info: Vec<char>,
    index: Vec<char>,
    q_ac_id: Vec<char>,
    a_ac_id: Vec<char>,
    q_wlan: Vec<char>,
    a_wlan: Vec<char>,
}

impl UrlWords {
    spec fn ok(&self) -> bool {
        &&& self.https@ == "https://"@ && self.https@.len() == 8
        &&& self.http@ == "http://"@ && self.http@.len() == 7
        &&& self.srun_portal@ == "srun_portal"@
        &&& self.cgi_bin@ == "cgi-bin"@
        &&& self.get_challenge@ == "get_challenge"@
        &&& self.rad_user_info@ == "rad_user_info"@
        &&& self.index@ == "index_"@ && self.index@.len() == 6
        &&& self.q_ac_id@ == "?ac_id="@
        &&& self.a_ac_id@ == "&ac_id="@
        &&& self.q_wlan@ == "?wlanuserip="@
        &&& self.a_wlan@ == "&wlanuserip="@
    }

    fn new() -> (res: Self)
        ensures
            res.ok(),
    {
        proof {
            reveal_strlit("https://");
            reveal_strlit("http://");
            reveal_strlit("index_");
        }
        UrlWords {
            https: chars_of("https://"),
            http: chars_of("http://"),
            srun_portal: chars_of("srun_portal"),
            cgi_bin: chars_of("cgi-bin"),
            get_challenge: chars_of("get_challenge"),
            rad_user_info: chars_of("rad_user_info"),
            index: chars_of("index_"),
            q_ac_id: chars_of("?ac_id="),
            a_ac_id: chars_of("&ac_id="),
            q_wlan: chars_of("?wlanuserip="),
            a_wlan: chars_of("&wlanuserip="),
        }
    }
}

/// Whether a marker of the chosen kind sits at `j` in the run ending at `end`.
fn marker_at(w: &UrlWords, t: &[char], j: usize, end: usize, query: bool) -> (res: bool)
    requires
        w.ok(),
        end <= t@.len(),
    ensures
        res == marker(t@, j as int, end as int, query),
{
    if query {
        word_within_exec(t, w.q_ac_id.as_slice(), j, end) || word_within_exec(
            t,
            w.a_ac_id.as_slice(),
            j,
            end,
        ) || word_within_exec(t, w.q_wlan.as_slice(), j, end) || word_within_exec(
            t,
            w.a_wlan.as_slice(),
            j,
            end,
        )
    } else {
        word_within_exec(t, w.srun_portal.as_slice(), j, end) || word_within_exec(
            t,
            w.cgi_bin.as_slice(),
            j,
            end,
        ) || word_within_exec(t, w.get_challenge.as_slice(), j, end) || word_within_exec(
            t,
            w.rad_user_info.as_slice(),
            j,
            end,
        ) || (word_within_exec(t, w.index.as_slice(), j, end) && j + 6 < end
            && is_decimal_digit_char(t[j + 6]))
    }
}

/// The end of the URL match at `s`, if any.
fn url_match_at_exec(w: &UrlWords, t: &[char], s: usize, query: bool) -> (res: Option<usize>)
    requires
        w.ok(),
        s <= t@.len(),
    ensures
        match res {
            Some(e) => url_match_at(t@, s as int, query) == Some(e as int) && s <= e <= t@.len(),
            None => url_match_at(t@, s as int, query) is None,
        },
{
    let k: usize = if matches_at(t, w.https.as_slice(), s) {
        8
    } else if matches_at(t, w.http.as_slice(), s) {
        7
    } else {
        0
    };
    if k == 0 {
        return None;
    }
    let rs = s + k;
    if rs >= t.len() {
        return None;
    }
    let mut re = rs;
    while re < t.len() && !(is_ws_char(t[re]) || t[re] == '\'' || t[re] == '"' || t[re] == '<'
        || t[re] == '>')
        invariant
            rs <= re <= t@.len(),
            url_run_end(t@, re as int) == url_run_end(t@, rs as int),
        decreases t@.len() - re,
    {
        re = re + 1;
    }
    let mut j = rs + 1;
    while j < re
        invariant
            rs + 1 <= j,
            re <= t@.len(),
            w.ok(),
            re == url_run_end(t@, rs as int),
            rs <= re,
            scheme_len_at(t@, s as int) == k,
            rs == s + k,
            k > 0,
            forall|i: int| rs + 1 <= i < j ==> !#[trigger] marker(t@, i, re as int, query),
        decreases re - j,
    {
        if marker_at(w, t, j, re, query) {
            assert(marker(t@, j as int, re as int, query));
            return Some(re);
        }
        j = j + 1;
    }
    None
}

/// The first URL match at or after `from`: its start and end.
fn first_url_match_exec(w: &UrlWords, t: &[char], query: bool) -> (res: Option<(usize, usize)>)
    requires
        w.ok(),
    ensures
        match res {
            Some((s, e)) => first_url_match(t@, 0, query) == Some((s as int, e as int)) && s <= e
                <= t@.len(),
            None => first_url_match(t@, 0, query) is None,
        },
{
    let n = t.len();
    let mut s: usize = 0;
    while s <= n
        invariant
            s <= n + 1,
            n == t@.len(),
            w.ok(),
            first_url_match(t@, s as int, query) == first_url_match(t@, 0, query),
        decreases n + 1 - s,
    {
        if let Some(e) = url_match_at_exec(w, t, s, query) {
            return Some((s, e));
        }
        if s == n {
            assert(first_url_match(t@, n + 1, query) is None);
            return None;
        }
        s = s + 1;
    }
    None
}

/// The portal URL the page text carries.
pub fn parse_portal_url_from_text(text: &str) -> (res: Option<String>)
    ensures
        match res {
            Some(u) => portal_url_from_text(text@) == Some(u@),
            None => portal_url_from_text(text@) is None,
        },
{
    let t = chars_of(text);
    let w = UrlWords::new();
    let amp = chars_of("&amp;");
    let one = chars_of("&");
    proof {
        reveal_strlit("&amp;");
    }
    let found = match first_url_match_exec(&w, t.as_slice(), false) {
        Some(m) => Some(m),
        None => first_url_match_exec(&w, t.as_slice(), true),
    };
    match found {
        Some((s, e)) => {
            let m = slice_chars(t.as_slice(), s, e);
            let r = replace_chars(m.as_slice(), amp.as_slice(), one.as_slice());
            Some(string_from(r.as_slice()))
        },
        None => None,
    }
}

} // verus!
