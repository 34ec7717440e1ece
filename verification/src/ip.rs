//! IP addresses: the textual forms the client reads and writes, and the
//! address ranges its rules single out.
use vstd::prelude::*;
use crate::ipv6::{ipv6_chars, ipv6_of, ipv6_text, parse_ipv6_chars};
use crate::text::{append_chars, chars_of, decimal, decimal_chars, string_from};

verus! {

/// An IPv4 address (four octets) or an IPv6 address (eight segments).
#[derive(Clone, Copy, Debug, PartialEq, Eq, Structural)]
pub enum IpAddress {
    V4(u8, u8, u8, u8),
    V6(u16, u16, u16, u16, u16, u16, u16, u16),
}

/// An ASCII decimal digit.
pub open spec fn is_digit(c: char) -> bool {
    '0' <= c && c <= '9'
}

/// The numeric value of a digit character.
pub open spec fn digit_value(c: char) -> nat {
    ((c as u32) - ('0' as u32)) as nat
}

/// The value of a string of decimal digits.
pub open spec fn digits_value(d: Seq<char>) -> nat
    decreases d.len(),
{
    if d.len() == 0 {
        0
    } else {
        digits_value(d.drop_last()) * 10 + digit_value(d.last())
    }
}

/// The first index at or after `i` that is not an ASCII digit (or the length).
pub open spec fn digit_run_end(s: Seq<char>, i: int) -> int
    decreases s.len() - i,
{
    if i < 0 || i >= s.len() {
        s.len() as int
    } else if is_digit(s[i]) {
        digit_run_end(s, i + 1)
    } else {
        i
    }
}

/// The octet written at `i`: one to three digits, no leading zero, at most 255.
pub open spec fn octet_at(s: Seq<char>, i: int) -> Option<u8> {
    let j = digit_run_end(s, i);
    let len = j - i;
    if 1 <= len <= 3 && (len == 1 || s[i] != '0') && digits_value(s.subrange(i, j)) <= 255 {
        Some(digits_value(s.subrange(i, j)) as u8)
    } else {
        None
    }
}

/// The index just past the octet at `i`.
pub open spec fn octet_end(s: Seq<char>, i: int) -> int {
    digit_run_end(s, i)
}

/// A dotted-decimal IPv4 address written at `i` (possibly followed by more
/// text), with the index just past it.
pub open spec fn ipv4_prefix_at(s: Seq<char>, i: int) -> Option<(IpAddress, int)> {
    let e0 = octet_end(s, i);
    let e1 = octet_end(s, e0 + 1);
    let e2 = octet_end(s, e1 + 1);
    let e3 = octet_end(s, e2 + 1);
    if 0 <= i <= s.len() && octet_at(s, i) is Some && e0 < s.len() && s[e0] == '.' && octet_at(
        s,
        e0 + 1,
    ) is Some && e1 < s.len() && s[e1] == '.' && octet_at(s, e1 + 1) is Some && e2 < s.len()
        && s[e2] == '.' && octet_at(s, e2 + 1) is Some {
        Some(
            (
                IpAddress::V4(
                    octet_at(s, i)->0,
                    octet_at(s, e0 + 1)->0,
                    octet_at(s, e1 + 1)->0,
                    octet_at(s, e2 + 1)->0,
                ),
                e3,
            ),
        )
    } else {
        None
    }
}

/// The IPv4 address that `s` writes in dotted-decimal form
/// (`Ipv4Addr::from_str`), if it is one.
pub open spec fn ipv4_of(s: Seq<char>) -> Option<IpAddress> {
    match ipv4_prefix_at(s, 0) {
        Some((ip, e)) => if e == s.len() {
            Some(ip)
        } else {
            None
        },
        None => None,
    }
}

/// The address `s` writes (`IpAddr::from_str`): dotted-decimal IPv4, else IPv6.
pub open spec fn ip_of(s: Seq<char>) -> Option<IpAddress> {
    if ipv4_of(s) is Some {
        ipv4_of(s)
    } else {
        match ipv6_of(s) {
            Some(g) => Some(IpAddress::V6(g[0], g[1], g[2], g[3], g[4], g[5], g[6], g[7])),
            None => None,
        }
    }
}

/// The segments of an IPv6 address.
pub open spec fn v6_segments(ip: IpAddress) -> Seq<u16> {
    match ip {
        IpAddress::V6(a, b, c, d, e, f, g, h) => seq![a, b, c, d, e, f, g, h],
        _ => Seq::empty(),
    }
}

/// The dotted-decimal text of an IPv4 address.
pub open spec fn ipv4_text(a: u8, b: u8, c: u8, d: u8) -> Seq<char> {
    decimal(a as nat) + seq!['.'] + decimal(b as nat) + seq!['.'] + decimal(c as nat) + seq!['.']
        + decimal(d as nat)
}

/// The text of an address (`IpAddr`'s `Display`).
pub open spec fn ip_text(ip: IpAddress) -> Seq<char> {
    match ip {
        IpAddress::V4(a, b, c, d) => ipv4_text(a, b, c, d),
        IpAddress::V6(..) => ipv6_text(v6_segments(ip)),
    }
}

pub proof fn lemma_digit_run_end_bounds(s: Seq<char>, i: int)
    requires
        0 <= i <= s.len(),
    ensures
        i <= digit_run_end(s, i) <= s.len(),
        forall|k: int| i <= k < digit_run_end(s, i) ==> is_digit(s[k]),
        digit_run_end(s, i) < s.len() ==> !is_digit(s[digit_run_end(s, i)]),
    decreases s.len() - i,
{
    if i < s.len() && is_digit(s[i]) {
        lemma_digit_run_end_bounds(s, i + 1);
    }
}

/// `u` lies in the ten code points from `start` on.
pub open spec fn in_block(u: u32, start: u32) -> bool {
    start <= u && u < start + 10
}

/// A decimal digit in Unicode's sense (general category Nd, Unicode 15),
/// which is what `\d` matches in the `regex` crate's default mode: the
/// blocks of ten digits of the scripts that have them, and the
/// mathematical digits U+1D7CE..U+1D7FF.
pub open spec fn is_decimal_digit(c: char) -> bool {
    let u = c as u32;
    in_block(u, 0x30)
        || in_block(u, 0x660)
        || in_block(u, 0x6F0)
        || in_block(u, 0x7C0)
        || in_block(u, 0x966)
        || in_block(u, 0x9E6)
        || in_block(u, 0xA66)
        || in_block(u, 0xAE6)
        || in_block(u, 0xB66)
        || in_block(u, 0xBE6)
        || in_block(u, 0xC66)
        || in_block(u, 0xCE6)
        || in_block(u, 0xD66)
        || in_block(u, 0xDE6)
        || in_block(u, 0xE50)
        || in_block(u, 0xED0)
        || in_block(u, 0xF20)
        || in_block(u, 0x1040)
        || in_block(u, 0x1090)
        || in_block(u, 0x17E0)
        || in_block(u, 0x1810)
        || in_block(u, 0x1946)
        || in_block(u, 0x19D0)
        || in_block(u, 0x1A80)
        || in_block(u, 0x1A90)
        || in_block(u, 0x1B50)
        || in_block(u, 0x1BB0)
        || in_block(u, 0x1C40)
        || in_block(u, 0x1C50)
        || in_block(u, 0xA620)
        || in_block(u, 0xA8D0)
        || in_block(u, 0xA900)
        || in_block(u, 0xA9D0)
        || in_block(u, 0xA9F0)
        || in_block(u, 0xAA50)
        || in_block(u, 0xABF0)
        || in_block(u, 0xFF10)
        || in_block(u, 0x104A0)
        || in_block(u, 0x10D30)
        || in_block(u, 0x11066)
        || in_block(u, 0x110F0)
        || in_block(u, 0x11136)
        || in_block(u, 0x111D0)
        || in_block(u, 0x112F0)
        || in_block(u, 0x11450)
        || in_block(u, 0x114D0)
        || in_block(u, 0x11650)
        || in_block(u, 0x116C0)
        || in_block(u, 0x11730)
        || in_block(u, 0x118E0)
        || in_block(u, 0x11950)
        || in_block(u, 0x11C50)
        || in_block(u, 0x11D50)
        || in_block(u, 0x11DA0)
        || in_block(u, 0x11F50)
        || in_block(u, 0x16A60)
        || in_block(u, 0x16AC0)
        || in_block(u, 0x16B50)
        || in_block(u, 0x1E140)
        || in_block(u, 0x1E2F0)
        || in_block(u, 0x1E4F0)
        || in_block(u, 0x1E950)
        || in_block(u, 0x1FBF0)
        || (0x1D7CE <= u && u <= 0x1D7FF)
}

fn in_block_exec(u: u32, start: u32) -> (res: bool)
    requires
        start < 0x110000,
    ensures
        res == in_block(u, start),
{
    start <= u && u < start + 10
}

/// Whether `c` is a Unicode decimal digit.
pub fn is_decimal_digit_char(c: char) -> (res: bool)
    ensures
        res == is_decimal_digit(c),
{
    let u = c as u32;
    in_block_exec(u, 0x30)
        || in_block_exec(u, 0x660)
        || in_block_exec(u, 0x6F0)
        || in_block_exec(u, 0x7C0)
        || in_block_exec(u, 0x966)
        || in_block_exec(u, 0x9E6)
        || in_block_exec(u, 0xA66)
        || in_block_exec(u, 0xAE6)
        || in_block_exec(u, 0xB66)
        || in_block_exec(u, 0xBE6)
        || in_block_exec(u, 0xC66)
        || in_block_exec(u, 0xCE6)
        || in_block_exec(u, 0xD66)
        || in_block_exec(u, 0xDE6)
        || in_block_exec(u, 0xE50)
        || in_block_exec(u, 0xED0)
        || in_block_exec(u, 0xF20)
        || in_block_exec(u, 0x1040)
        || in_block_exec(u, 0x1090)
        || in_block_exec(u, 0x17E0)
        || in_block_exec(u, 0x1810)
        || in_block_exec(u, 0x1946)
        || in_block_exec(u, 0x19D0)
        || in_block_exec(u, 0x1A80)
        || in_block_exec(u, 0x1A90)
        || in_block_exec(u, 0x1B50)
        || in_block_exec(u, 0x1BB0)
        || in_block_exec(u, 0x1C40)
        || in_block_exec(u, 0x1C50)
        || in_block_exec(u, 0xA620)
        || in_block_exec(u, 0xA8D0)
        || in_block_exec(u, 0xA900)
        || in_block_exec(u, 0xA9D0)
        || in_block_exec(u, 0xA9F0)
        || in_block_exec(u, 0xAA50)
        || in_block_exec(u, 0xABF0)
        || in_block_exec(u, 0xFF10)
        || in_block_exec(u, 0x104A0)
        || in_block_exec(u, 0x10D30)
        || in_block_exec(u, 0x11066)
        || in_block_exec(u, 0x110F0)
        || in_block_exec(u, 0x11136)
        || in_block_exec(u, 0x111D0)
        || in_block_exec(u, 0x112F0)
        || in_block_exec(u, 0x11450)
        || in_block_exec(u, 0x114D0)
        || in_block_exec(u, 0x11650)
        || in_block_exec(u, 0x116C0)
        || in_block_exec(u, 0x11730)
        || in_block_exec(u, 0x118E0)
        || in_block_exec(u, 0x11950)
        || in_block_exec(u, 0x11C50)
        || in_block_exec(u, 0x11D50)
        || in_block_exec(u, 0x11DA0)
        || in_block_exec(u, 0x11F50)
        || in_block_exec(u, 0x16A60)
        || in_block_exec(u, 0x16AC0)
        || in_block_exec(u, 0x16B50)
        || in_block_exec(u, 0x1E140)
        || in_block_exec(u, 0x1E2F0)
        || in_block_exec(u, 0x1E4F0)
        || in_block_exec(u, 0x1E950)
        || in_block_exec(u, 0x1FBF0)
        || (0x1D7CE <= u && u <= 0x1D7FF)
}

/// The index after the run of Unicode decimal digits starting at `i`.
pub open spec fn decimal_run_end(s: Seq<char>, i: int) -> int
    decreases s.len() - i,
{
    if i < 0 || i >= s.len() {
        s.len() as int
    } else if is_decimal_digit(s[i]) {
        decimal_run_end(s, i + 1)
    } else {
        i
    }
}

/// The bounds of a run of Unicode decimal digits.
pub proof fn lemma_decimal_run_end_bounds(s: Seq<char>, i: int)
    requires
        0 <= i <= s.len(),
    ensures
        i <= decimal_run_end(s, i) <= s.len(),
    decreases s.len() - i,
{
    if i < s.len() && is_decimal_digit(s[i]) {
        lemma_decimal_run_end_bounds(s, i + 1);
    }
}

/// The index after the run of Unicode decimal digits starting at `i`.
pub fn decimal_run_end_exec(v: &[char], i: usize) -> (res: usize)
    requires
        i <= v@.len(),
    ensures
        res == decimal_run_end(v@, i as int),
        i <= res <= v@.len(),
{
    let mut j = i;
    while j < v.len() && is_decimal_digit_char(v[j])
        invariant
            i <= j <= v@.len(),
            decimal_run_end(v@, j as int) == decimal_run_end(v@, i as int),
        decreases v@.len() - j,
    {
        j = j + 1;
    }
    j
}

/// Reads the octet at `i`: its value (if valid) and the index after its digits.
fn read_octet(s: &[char], i: usize) -> (res: (Option<u8>, usize))
    requires
        i <= s@.len(),
    ensures
        res.0 == octet_at(s@, i as int),
        res.1 == octet_end(s@, i as int),
{
    let mut j = i;
    let mut value: u32 = 0;
    while j < s.len() && '0' <= s[j] && s[j] <= '9'
        invariant
            i <= j <= s@.len(),
            digit_run_end(s@, j as int) == digit_run_end(s@, i as int),
            forall|k: int| i <= k < j ==> is_digit(s@[k]),
            j - i <= 3 ==> value == digits_value(s@.subrange(i as int, j as int)),
            j - i == 0 ==> value == 0,
            j - i == 1 ==> value < 10,
            j - i == 2 ==> value < 100,
            j - i == 3 ==> value < 1000,
        decreases s@.len() - j,
    {
        if j - i < 3 {
            assert(s@.subrange(i as int, j + 1).drop_last() =~= s@.subrange(i as int, j as int));
            value = value * 10 + ((s[j] as u32) - 48);
        }
        j = j + 1;
    }
    proof {
        lemma_digit_run_end_bounds(s@, i as int);
    }
    let len = j - i;
    if 1 <= len && len <= 3 && (len == 1 || s[i] != '0') && value <= 255 {
        (Some(value as u8), j)
    } else {
        (None, j)
    }
}

/// Reads a dotted-decimal IPv4 address at `i`.
pub fn read_ipv4_prefix(s: &[char], i: usize) -> (res: Option<(IpAddress, usize)>)
    requires
        i <= s@.len(),
    ensures
        match res {
            Some((ip, e)) => ipv4_prefix_at(s@, i as int) == Some((ip, e as int)) && e <= s@.len(),
            None => ipv4_prefix_at(s@, i as int) is None,
        },
{
    let n = s.len();
    let (o0, e0) = read_octet(s, i);
    proof { lemma_digit_run_end_bounds(s@, i as int); }
    if o0.is_none() || e0 >= n || s[e0] != '.' {
        return None;
    }
    let (o1, e1) = read_octet(s, e0 + 1);
    proof { lemma_digit_run_end_bounds(s@, e0 + 1); }
    if o1.is_none() || e1 >= n || s[e1] != '.' {
        return None;
    }
    let (o2, e2) = read_octet(s, e1 + 1);
    proof { lemma_digit_run_end_bounds(s@, e1 + 1); }
    if o2.is_none() || e2 >= n || s[e2] != '.' {
        return None;
    }
    let (o3, e3) = read_octet(s, e2 + 1);
    proof { lemma_digit_run_end_bounds(s@, e2 + 1); }
    if o3.is_none() {
        return None;
    }
    Some((IpAddress::V4(o0.unwrap(), o1.unwrap(), o2.unwrap(), o3.unwrap()), e3))
}

/// The IPv4 address written in `s`, if it is one.
pub fn parse_ipv4_chars(s: &[char]) -> (res: Option<IpAddress>)
    ensures
        res == ipv4_of(s@),
{
    match read_ipv4_prefix(s, 0) {
        Some((ip, e)) => if e == s.len() {
            Some(ip)
        } else {
            None
        },
        None => None,
    }
}

/// The address written in the characters `v` (`IpAddr::from_str`).
pub fn parse_ip_chars(v: &[char]) -> (res: Option<IpAddress>)
    ensures
        res == ip_of(v@),
{
    match parse_ipv4_chars(v) {
        Some(ip) => Some(ip),
        None => match parse_ipv6_chars(v) {
            Some(g) => Some(IpAddress::V6(g[0], g[1], g[2], g[3], g[4], g[5], g[6], g[7])),
            None => None,
        },
    }
}

/// The address written in `text` (`IpAddr::from_str`).
pub fn parse_ip(text: &str) -> (res: Option<IpAddress>)
    ensures
        res == ip_of(text@),
{
    let v = chars_of(text);
    parse_ip_chars(v.as_slice())
}

/// The dotted-decimal text of `a.b.c.d`.
pub fn ipv4_chars(a: u8, b: u8, c: u8, d: u8) -> (res: Vec<char>)
    ensures
        res@ == ipv4_text(a, b, c, d),
{
    let mut v = decimal_chars(a as u128);
    v.push('.');
    let x = decimal_chars(b as u128);
    append_chars(&mut v, x.as_slice());
    v.push('.');
    let x = decimal_chars(c as u128);
    append_chars(&mut v, x.as_slice());
    v.push('.');
    let x = decimal_chars(d as u128);
    append_chars(&mut v, x.as_slice());
    v
}

/// The text of `ip`.
pub fn ip_to_chars(ip: IpAddress) -> (res: Vec<char>)
    ensures
        res@ == ip_text(ip),
{
    match ip {
        IpAddress::V4(a, b, c, d) => ipv4_chars(a, b, c, d),
        IpAddress::V6(a, b, c, d, e, f, g, h) => {
            let arr = [a, b, c, d, e, f, g, h];
            assert(arr@ =~= v6_segments(ip));
            ipv6_chars(arr)
        },
    }
}

/// The text of `ip` as a string.
pub fn ip_to_string(ip: IpAddress) -> (res: String)
    ensures
        res@ == ip_text(ip),
{
    let v = ip_to_chars(ip);
    string_from(v.as_slice())
}

/// Private IPv4 ranges: 10/8, 172.16/12 and 192.168/16.
pub open spec fn is_private_spec(ip: IpAddress) -> bool {
    match ip {
        IpAddress::V4(a, b, _, _) => a == 10 || (a == 172 && 16 <= b <= 31) || (a == 192 && b
            == 168),
        IpAddress::V6(..) => false,
    }
}

/// Whether `ip` is a private IPv4 address.
pub fn is_private_ip(ip: IpAddress) -> (res: bool)
    ensures
        res == is_private_spec(ip),
{
    match ip {
        IpAddress::V4(a, b, _, _) => a == 10 || (a == 172 && 16 <= b && b <= 31) || (a == 192
            && b == 168),
        IpAddress::V6(..) => false,
    }
}

/// 198.18/15, the range proxy tools hand out to their TUN devices.
pub open spec fn is_proxy_reserved_spec(ip: IpAddress) -> bool {
    match ip {
        IpAddress::V4(a, b, _, _) => a == 198 && (b == 18 || b == 19),
        IpAddress::V6(..) => false,
    }
}

/// Whether `ip` lies in 198.18/15.
pub fn is_proxy_reserved_ip(ip: IpAddress) -> (res: bool)
    ensures
        res == is_proxy_reserved_spec(ip),
{
    match ip {
        IpAddress::V4(a, b, _, _) => a == 198 && (b == 18 || b == 19),
        IpAddress::V6(..) => false,
    }
}

/// 2.0.1/24, the range the EasyConnect VPN adapter uses.
pub open spec fn is_easyconnect_spec(ip: IpAddress) -> bool {
    match ip {
        IpAddress::V4(a, b, c, _) => a == 2 && b == 0 && c == 1,
        IpAddress::V6(..) => false,
    }
}

/// Whether `ip` lies in 2.0.1/24.
pub fn is_easyconnect_ip(ip: IpAddress) -> (res: bool)
    ensures
        res == is_easyconnect_spec(ip),
{
    match ip {
        IpAddress::V4(a, b, c, _) => a == 2 && b == 0 && c == 1,
        IpAddress::V6(..) => false,
    }
}

/// A private IPv4 address usable as a campus login address: private and not
/// loopback, link-local or the proxy range.
pub open spec fn is_usable_private_spec(a: u8, b: u8) -> bool {
    !(a == 127 || (a == 169 && b == 254) || (a == 198 && (b == 18 || b == 19))) && (a == 10 || (a
        == 172 && 16 <= b <= 31) || (a == 192 && b == 168))
}

/// Whether the IPv4 address `a.b.c.d` is a usable private address.
pub fn is_usable_private_ipv4(a: u8, b: u8, c: u8, d: u8) -> (res: bool)
    ensures
        res == is_usable_private_spec(a, b),
{
    if a == 127 || a == 169 && b == 254 || a == 198 && (b == 18 || b == 19) {
        return false;
    }
    a == 10 || a == 172 && (16 <= b && b <= 31) || a == 192 && b == 168
}

} // verus!
