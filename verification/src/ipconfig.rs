//! Reading the adapter list out of the text `ipconfig /all` prints, in
//! its English and its Chinese wording.
use vstd::prelude::*;
use crate::ip::{ipv4_of, parse_ipv4_chars};
use crate::netif::ParsedInterface;
use crate::text::{
    chars_of, contains, contains_str, end_kept, find_char, first_index_of, first_kept, is_ws,
    is_ws_char, lemma_end_kept_bounds, lemma_first_index_of, lemma_first_kept_bounds, lower,
    lowercase_chars, slice_chars, string_from, trim, trim_chars, views,
};

verus! {

/// The content of a `ParsedInterface`.
pub struct IfaceView {
    pub alias: Seq<char>,
    pub description: Seq<char>,
    pub ip: Seq<char>,
    pub gateway: Option<Seq<char>>,
    pub dns: Seq<Seq<char>>,
    pub is_up: bool,
}

/// The content of an adapter record.
pub open spec fn iface_view(p: ParsedInterface) -> IfaceView {
    IfaceView {
        alias: p.interface_alias@,
        description: p.interface_description@,
        ip: p.ip@,
        gateway: match p.gateway {
            Some(g) => Some(g@),
            None => None,
        },
        dns: views(p.dns@),
        is_up: p.is_up,
    }
}

/// `s` without trailing white space (`str::trim_end`).
pub open spec fn trim_end(s: Seq<char>) -> Seq<char> {
    s.take(end_kept(s, s.len() as int))
}

/// `s` without any trailing `c` (`str::trim_end_matches` with a char).
pub open spec fn strip_trailing(s: Seq<char>, c: char) -> Seq<char>
    decreases s.len(),
{
    if s.len() > 0 && s.last() == c {
        strip_trailing(s.drop_last(), c)
    } else {
        s
    }
}

/// The part of `s` before the first `c` (all of `s` without one).
pub open spec fn before_first(s: Seq<char>, c: char) -> Seq<char> {
    match first_index_of(s, c) {
        Some(i) => s.take(i),
        None => s,
    }
}

/// A value as `ipconfig` prints it, without a parenthesised remark, white
/// space and trailing dots.
pub open spec fn clean_value(v: Seq<char>) -> Seq<char> {
    strip_trailing(trim(before_first(v, '(')), '.')
}

/// A `key : value` line split at its first colon, both sides trimmed.
pub open spec fn field_of(line: Seq<char>) -> Option<(Seq<char>, Seq<char>)> {
    match first_index_of(line, ':') {
        Some(i) => Some((trim(line.take(i)), trim(line.skip(i + 1)))),
        None => None,
    }
}

/// The first index at or after `i` holding white space (or the length).
pub open spec fn word_end(s: Seq<char>, i: int) -> int
    decreases s.len() - i,
{
    if i < 0 || i >= s.len() {
        s.len() as int
    } else if is_ws(s[i]) {
        i
    } else {
        word_end(s, i + 1)
    }
}

/// The first white-space separated word of `s`.
pub open spec fn first_word(s: Seq<char>) -> Option<Seq<char>> {
    let a = first_kept(s, 0);
    if a >= s.len() {
        None
    } else {
        Some(s.subrange(a, word_end(s, a)))
    }
}

/// The first word of `s` is an IPv4 address.
pub open spec fn looks_like_ipv4_spec(s: Seq<char>) -> bool {
    first_word(s) matches Some(w) && ipv4_of(w) is Some
}

/// The parser state: adapters done, the adapter being read, and whether
/// further DNS server lines are expected.
pub type IpconfigState = (Seq<IfaceView>, Option<IfaceView>, bool);

/// The adapters done, with `cur` added when it has an address.
pub open spec fn flush(done: Seq<IfaceView>, cur: Option<IfaceView>) -> Seq<IfaceView> {
    match cur {
        Some(it) => if it.ip.len() > 0 {
            done.push(it)
        } else {
            done
        },
        None => done,
    }
}

/// The effect of a `key : value` line on the adapter being read, and
/// whether DNS server lines follow.
pub open spec fn apply_field(item: IfaceView, key: Seq<char>, value: Seq<char>) -> (
    IfaceView,
    bool,
) {
    let kl = lower(key);
    let v = clean_value(value);
    if contains(kl, "description"@) || contains(key, "描述"@) {
        (IfaceView { description: value, ..item }, false)
    } else if contains(kl, "ipv4"@) || contains(key, "IPv4"@) {
        (IfaceView { ip: v, ..item }, false)
    } else if contains(kl, "default gateway"@) || contains(key, "默认网关"@) {
        (IfaceView {
            gateway: if v.len() > 0 {
                Some(v)
            } else {
                None
            },
            ..item
        }, false)
    } else if contains(kl, "dns servers"@) || contains(key, "DNS 服务器"@) {
        (IfaceView {
            dns: if v.len() > 0 {
                item.dns.push(v)
            } else {
                item.dns
            },
            ..item
        }, true)
    } else if contains(kl, "media state"@) && (contains(lower(value), "disconnected"@) || contains(
        value,
        "已断开"@,
    ) || contains(value, "断开"@)) {
        (IfaceView { is_up: false, ..item }, false)
    } else {
        (item, false)
    }
}

/// The effect of one line: a blank line does nothing; an unindented line
/// ending in `:` starts a new adapter; a field line sets a field of the
/// adapter being read; an address line after the DNS servers adds one more.
pub open spec fn ipconfig_step(st: IpconfigState, raw: Seq<char>) -> IpconfigState {
    let line = trim_end(raw);
    let t = trim(line);
    if t.len() == 0 {
        st
    } else if line[0] != ' ' && t.last() == ':' {
        (
            flush(st.0, st.1),
            Some(
                IfaceView {
                    alias: strip_trailing(t, ':'),
                    description: Seq::empty(),
                    ip: Seq::empty(),
                    gateway: None,
                    dns: Seq::empty(),
                    is_up: true,
                },
            ),
            false,
        )
    } else {
        match st.1 {
            None => st,
            Some(item) => match field_of(t) {
                Some((k, v)) => {
                    let (it, d) = apply_field(item, k, v);
                    (st.0, Some(it), d)
                },
                None => if st.2 && looks_like_ipv4_spec(t) {
                    (st.0, Some(IfaceView { dns: item.dns.push(clean_value(t)), ..item }), st.2)
                } else {
                    st
                },
            },
        }
    }
}

/// The state after the lines of `s` (split at `\n`).
pub open spec fn ipconfig_run(st: IpconfigState, s: Seq<char>) -> IpconfigState
    decreases s.len(),
{
    match first_index_of(s, '\n') {
        Some(i) => if 0 <= i < s.len() {
            ipconfig_run(ipconfig_step(st, s.take(i)), s.skip(i + 1))
        } else {
            st
        },
        None => ipconfig_step(st, s),
    }
}

/// The adapters listed in an `ipconfig /all` text, those without an IPv4
/// address left out.
pub open spec fn ipconfig_adapters(text: Seq<char>) -> Seq<IfaceView> {
    let st = ipconfig_run((Seq::empty(), None, false), text);
    flush(st.0, st.1)
}


/// Every adapter listed has an address.
pub open spec fn all_addressed(s: Seq<IfaceView>) -> bool {
    forall|k: int| 0 <= k < s.len() ==> (#[trigger] s[k]).ip.len() > 0
}

/// Adding the current adapter keeps every listed adapter addressed.
proof fn lemma_flush_addressed(done: Seq<IfaceView>, cur: Option<IfaceView>)
    requires
        all_addressed(done),
    ensures
        all_addressed(flush(done, cur)),
{
    if let Some(it) = cur {
        if it.ip.len() > 0 {
            let r = done.push(it);
            assert forall|k: int| 0 <= k < r.len() implies (#[trigger] r[k]).ip.len() > 0 by {
                if k < done.len() {
                    assert(r[k] == done[k]);
                }
            }
        }
    }
}

/// The lines of a text keep every listed adapter addressed.
proof fn lemma_run_addressed(st: IpconfigState, s: Seq<char>)
    requires
        all_addressed(st.0),
    ensures
        all_addressed(ipconfig_run(st, s).0),
    decreases s.len(),
{
    lemma_flush_addressed(st.0, st.1);
    match first_index_of(s, '\n') {
        Some(i) => if 0 <= i < s.len() {
            lemma_run_addressed(ipconfig_step(st, s.take(i)), s.skip(i + 1));
        },
        None => {},
    }
}

/// Only adapters with an address are listed.
pub proof fn lemma_ipconfig_adapters_have_address(text: Seq<char>)
    ensures
        forall|k: int|
            0 <= k < ipconfig_adapters(text).len() ==> (#[trigger] ipconfig_adapters(text)[k]).ip.len()
                > 0,
{
    let init: IpconfigState = (Seq::empty(), None, false);
    lemma_run_addressed(init, text);
    let st = ipconfig_run(init, text);
    lemma_flush_addressed(st.0, st.1);
}

/// `v` without trailing white space.
pub fn trim_end_chars(v: &[char]) -> (res: Vec<char>)
    ensures
        res@ == trim_end(v@),
{
    let n = v.len();
    let mut b: usize = n;
    while b > 0 && is_ws_char(v[b - 1])
        invariant
            b <= n,
            n == v@.len(),
            end_kept(v@, b as int) == end_kept(v@, n as int),
        decreases b,
    {
        b = b - 1;
    }
    let r = slice_chars(v, 0, b);
    assert(r@ =~= trim_end(v@));
    r
}

/// `v` without any trailing `c`.
pub fn strip_trailing_chars(v: &[char], c: char) -> (res: Vec<char>)
    ensures
        res@ == strip_trailing(v@, c),
{
    let mut b: usize = v.len();
    assert(v@.take(b as int) =~= v@);
    while b > 0 && v[b - 1] == c
        invariant
            b <= v@.len(),
            strip_trailing(v@, c) == strip_trailing(v@.take(b as int), c),
        decreases b,
    {
        assert(v@.take(b as int).drop_last() =~= v@.take(b - 1));
        b = b - 1;
    }
    slice_chars(v, 0, b)
}

/// The part of `v` before the first `c`.
pub fn before_first_chars(v: &[char], c: char) -> (res: Vec<char>)
    ensures
        res@ == before_first(v@, c),
{
    proof {
        lemma_first_index_of(v@, c);
    }
    match find_char(v, c) {
        Some(i) => slice_chars(v, 0, i),
        None => slice_chars(v, 0, v.len()),
    }
}

/// A value as `ipconfig` prints it, cleaned.
fn clean_chars(v: &[char]) -> (res: Vec<char>)
    ensures
        res@ == clean_value(v@),
{
    let a = before_first_chars(v, '(');
    let t = trim_chars(a.as_slice());
    strip_trailing_chars(t.as_slice(), '.')
}

/// Cleans a value as `ipconfig` prints it: drops a parenthesised remark,
/// white space and trailing dots.
pub fn clean_ipconfig_value(value: &str) -> (res: String)
    ensures
        res@ == clean_value(value@),
{
    let v = chars_of(value);
    let c = clean_chars(v.as_slice());
    string_from(c.as_slice())
}

/// Splits a `key : value` line at its first colon.
fn field_chars(line: &[char]) -> (res: Option<(Vec<char>, Vec<char>)>)
    ensures
        match res {
            Some((k, v)) => field_of(line@) == Some((k@, v@)),
            None => field_of(line@) is None,
        },
{
    proof {
        lemma_first_index_of(line@, ':');
    }
    match find_char(line, ':') {
        Some(i) => {
            assert(first_index_of(line@, ':') == Some(i as int));
            assert(i < line@.len());
            assert(i < line.len());
            let k = slice_chars(line, 0, i);
            let v = slice_chars(line, i + 1, line.len());
            assert(k@ =~= line@.take(i as int));
            assert(v@ =~= line@.skip(i + 1));
            Some((trim_chars(k.as_slice()), trim_chars(v.as_slice())))
        },
        None => None,
    }
}

/// Splits a `key : value` line at its first colon, both sides trimmed.
pub fn split_ipconfig_field(line: &str) -> (res: Option<(String, String)>)
    ensures
        match res {
            Some((k, v)) => field_of(line@) == Some((k@, v@)),
            None => field_of(line@) is None,
        },
{
    let l = chars_of(line);
    match field_chars(l.as_slice()) {
        Some((k, v)) => Some((string_from(k.as_slice()), string_from(v.as_slice()))),
        None => None,
    }
}

/// Whether the first word of `v` is an IPv4 address.
fn looks_like_ipv4_chars(v: &[char]) -> (res: bool)
    ensures
        res == looks_like_ipv4_spec(v@),
{
    let n = v.len();
    let mut a: usize = 0;
    while a < n && is_ws_char(v[a])
        invariant
            a <= n,
            n == v@.len(),
            first_kept(v@, a as int) == first_kept(v@, 0),
        decreases n - a,
    {
        a = a + 1;
    }
    if a >= n {
        return false;
    }
    let mut b: usize = a;
    while b < n && !is_ws_char(v[b])
        invariant
            a <= b <= n,
            n == v@.len(),
            word_end(v@, b as int) == word_end(v@, a as int),
        decreases n - b,
    {
        b = b + 1;
    }
    let w = slice_chars(v, a, b);
    parse_ipv4_chars(w.as_slice()).is_some()
}

/// Whether the first word of `value` is an IPv4 address.
pub fn looks_like_ipv4(value: &str) -> (res: bool)
    ensures
        res == looks_like_ipv4_spec(value@),
{
    let v = chars_of(value);
    looks_like_ipv4_chars(v.as_slice())
}


/// The contents of a list of adapter records.
pub open spec fn iface_views(s: Seq<ParsedInterface>) -> Seq<IfaceView> {
    s.map_values(|p: ParsedInterface| iface_view(p))
}

/// The parser state held in the exec variables.
pub open spec fn state_of(
    list: Seq<ParsedInterface>,
    cur: ParsedInterface,
    has_cur: bool,
    dns: bool,
) -> IpconfigState {
    (iface_views(list), if has_cur {
        Some(iface_view(cur))
    } else {
        None
    }, dns)
}

/// A trimmed text is no longer than the text.
proof fn lemma_trim_len(s: Seq<char>)
    ensures
        trim(s).len() <= s.len(),
{
    lemma_first_kept_bounds(s, 0);
    lemma_end_kept_bounds(s, s.len() as int);
}

/// Applies a `key : value` line to the adapter being read.
fn apply_field_exec(cur: &mut ParsedInterface, dns: &mut bool, key: &Vec<char>, value: &Vec<char>)
    ensures
        (iface_view(*final(cur)), *final(dns)) == apply_field(iface_view(*old(cur)), key@, value@),
{
    let kl = lowercase_chars(key.as_slice());
    let v = clean_chars(value.as_slice());
    *dns = false;
    if contains_str(kl.as_slice(), "description") || contains_str(key.as_slice(), "描述") {
        cur.interface_description = string_from(value.as_slice());
    } else if contains_str(kl.as_slice(), "ipv4") || contains_str(key.as_slice(), "IPv4") {
        cur.ip = string_from(v.as_slice());
    } else if contains_str(kl.as_slice(), "default gateway") || contains_str(
        key.as_slice(),
        "默认网关",
    ) {
        cur.gateway = if v.len() > 0 {
            Some(string_from(v.as_slice()))
        } else {
            None
        };
    } else if contains_str(kl.as_slice(), "dns servers") || contains_str(
        key.as_slice(),
        "DNS 服务器",
    ) {
        if v.len() > 0 {
            cur.dns.push(string_from(v.as_slice()));
            assert(views(cur.dns@) =~= views(old(cur).dns@).push(v@));
        }
        *dns = true;
    } else if contains_str(kl.as_slice(), "media state") {
        let lv = lowercase_chars(value.as_slice());
        if contains_str(lv.as_slice(), "disconnected") || contains_str(value.as_slice(), "已断开")
            || contains_str(value.as_slice(), "断开") {
            cur.is_up = false;
        }
    }
}

/// Applies one line of `ipconfig` output to the parser state.
fn ipconfig_line(
    list: &mut Vec<ParsedInterface>,
    cur: &mut ParsedInterface,
    has_cur: &mut bool,
    dns: &mut bool,
    raw: &[char],
)
    ensures
        state_of(final(list)@, *final(cur), *final(has_cur), *final(dns)) == ipconfig_step(
            state_of(old(list)@, *old(cur), *old(has_cur), *old(dns)),
            raw@,
        ),
{
    let line = trim_end_chars(raw);
    let t = trim_chars(line.as_slice());
    proof {
        lemma_trim_len(line@);
    }
    if t.len() == 0 {
        return;
    }
    if line[0] != ' ' && t[t.len() - 1] == ':' {
        let alias = strip_trailing_chars(t.as_slice(), ':');
        let mut fresh = ParsedInterface {
            interface_alias: string_from(alias.as_slice()),
            interface_description: String::new(),
            ip: String::new(),
            gateway: None,
            dns: Vec::new(),
            is_up: true,
        };
        proof {
            assert(views(fresh.dns@) =~= Seq::<Seq<char>>::empty());
        }
        let ghost old_cur = *cur;
        std::mem::swap(cur, &mut fresh);
        if *has_cur {
            let ipc = chars_of(fresh.ip.as_str());
            if ipc.len() > 0 {
                list.push(fresh);
                assert(iface_views(list@) =~= iface_views(old(list)@).push(iface_view(old_cur)));
            }
        }
        *has_cur = true;
        *dns = false;
        return;
    }
    if !*has_cur {
        return;
    }
    match field_chars(t.as_slice()) {
        Some((k, v)) => {
            apply_field_exec(cur, dns, &k, &v);
        },
        None => {
            if *dns && looks_like_ipv4_chars(t.as_slice()) {
                let c = clean_chars(t.as_slice());
                cur.dns.push(string_from(c.as_slice()));
                assert(views(cur.dns@) =~= views(old(cur).dns@).push(clean_value(t@)));
            }
        },
    }
}

/// Reads the adapters out of `ipconfig /all` output: each unindented line
/// ending in `:` starts an adapter, its field lines fill it in, and the
/// adapters without an IPv4 address are left out.
pub fn parse_ipconfig_interfaces(text: &str) -> (res: Vec<ParsedInterface>)
    ensures
        iface_views(res@) == ipconfig_adapters(text@),
{
    let mut list: Vec<ParsedInterface> = Vec::new();
    let mut cur = ParsedInterface {
        interface_alias: String::new(),
        interface_description: String::new(),
        ip: String::new(),
        gateway: None,
        dns: Vec::new(),
        is_up: false,
    };
    let mut has_cur = false;
    let mut dns = false;
    let mut rest = chars_of(text);
    let mut done = false;
    let ghost init: IpconfigState = (Seq::empty(), None, false);
    assert(state_of(list@, cur, has_cur, dns) == init) by {
        assert(iface_views(list@) =~= Seq::<IfaceView>::empty());
    }
    while !done
        invariant
            !done ==> ipconfig_run(init, text@) == ipconfig_run(
                state_of(list@, cur, has_cur, dns),
                rest@,
            ),
            done ==> ipconfig_run(init, text@) == state_of(list@, cur, has_cur, dns),
        decreases rest@.len() + if done {
            0int
        } else {
            1int
        },
    {
        proof {
            lemma_first_index_of(rest@, '\n');
        }
        match find_char(rest.as_slice(), '\n') {
            Some(i) => {
                assert(i < rest.len());
                let line = slice_chars(rest.as_slice(), 0, i);
                assert(line@ =~= rest@.take(i as int));
                ipconfig_line(&mut list, &mut cur, &mut has_cur, &mut dns, line.as_slice());
                let next = slice_chars(rest.as_slice(), i + 1, rest.len());
                assert(next@ =~= rest@.skip(i + 1));
                rest = next;
            },
            None => {
                ipconfig_line(&mut list, &mut cur, &mut has_cur, &mut dns, rest.as_slice());
                done = true;
            },
        }
    }
    let ghost before = list@;
    let ghost last = cur;
    if has_cur {
        let ipc = chars_of(cur.ip.as_str());
        if ipc.len() > 0 {
            list.push(cur);
            assert(iface_views(list@) =~= iface_views(before).push(iface_view(last)));
        }
    }
    list
}


/// The text `encoding_rs` decodes from `bytes` with `GBK.decode`: GBK
/// (the Windows code page 936 family), unless a byte-order mark names
/// another encoding; malformed sequences become U+FFFD.
pub uninterp spec fn gbk_decode(bytes: Seq<u8>) -> Seq<char>;

/// Decodes `bytes` with `encoding_rs::GBK.decode` (which also removes a
/// byte-order mark and follows it); the result is named `gbk_decode`.
#[verifier::external_body]
fn decode_gbk(bytes: &[u8]) -> (res: String)
    ensures
        res@ == gbk_decode(bytes@),
{
    let (text, _, _) = encoding_rs::GBK.decode(bytes);
    text.into_owned()
}

/// Reads `bytes` as UTF-8 (`std::str::from_utf8`): the text when the bytes
/// are valid UTF-8, else nothing.
#[verifier::external_body]
fn utf8_text(bytes: &[u8]) -> (res: Option<String>)
    ensures
        res is Some <==> vstd::utf8::valid_utf8(bytes@),
        res matches Some(t) ==> t@ == vstd::utf8::decode_utf8(bytes@),
{
    match std::str::from_utf8(bytes) {
        Ok(text) => Some(text.to_string()),
        Err(_) => None,
    }
}

/// What a Windows command printed, as text: UTF-8 when the bytes are valid
/// UTF-8 without replacement characters, else GBK.
pub open spec fn command_output_text(bytes: Seq<u8>) -> Seq<char> {
    if vstd::utf8::valid_utf8(bytes) && !vstd::utf8::decode_utf8(bytes).contains('\u{fffd}') {
        vstd::utf8::decode_utf8(bytes)
    } else {
        gbk_decode(bytes)
    }
}

/// Decodes what a Windows command printed.
pub fn decode_windows_command_output(bytes: &[u8]) -> (res: String)
    ensures
        res@ == command_output_text(bytes@),
{
    match utf8_text(bytes) {
        Some(text) => {
            let v = chars_of(text.as_str());
            match find_char(v.as_slice(), '\u{fffd}') {
                None => {
                    proof {
                        lemma_first_index_of(v@, '\u{fffd}');
                        assert(!v@.contains('\u{fffd}'));
                    }
                    text
                },
                Some(i) => {
                    proof {
                        lemma_first_index_of(v@, '\u{fffd}');
                        assert(v@[i as int] == '\u{fffd}');
                    }
                    decode_gbk(bytes)
                },
            }
        },
        None => decode_gbk(bytes),
    }
}

} // verus!
