//! The campus address the client logs in from, as `ipconfig` shows it:
//! the IPv4 fields are scanned, and a usable private address is chosen,
//! one in 10/8 first.
use vstd::prelude::*;
use crate::ip::{
    decimal_run_end, decimal_run_end_exec, ipv4_of, is_usable_private_ipv4,
    is_usable_private_spec, lemma_decimal_run_end_bounds, parse_ipv4_chars, IpAddress,
};
use crate::text::{chars_of, first_kept, is_ws_char, lemma_first_kept_bounds, lower, slice_chars};

verus! {

/// The first index at or after `j` holding `:`, `\r` or `\n` (or the length).
pub open spec fn field_stop(s: Seq<char>, j: int) -> int
    decreases s.len() - j,
{
    if j < 0 || j >= s.len() {
        s.len() as int
    } else if s[j] == ':' || s[j] == '\r' || s[j] == '\n' {
        j
    } else {
        field_stop(s, j + 1)
    }
}

/// After a run of decimal digits (in Unicode's sense, as `\d` matches) at
/// `k`: the index past it, when it is not empty.
pub open spec fn digits_from(s: Seq<char>, k: int) -> Option<int> {
    let e = decimal_run_end(s, k);
    if e > k {
        Some(e)
    } else {
        None
    }
}

/// An address written as four dot-separated digit runs at `k`: the index
/// past it.
pub open spec fn dotted_quad_end(s: Seq<char>, k: int) -> Option<int> {
    match digits_from(s, k) {
        Some(a) => if a < s.len() && s[a] == '.' {
            match digits_from(s, a + 1) {
                Some(b) => if b < s.len() && s[b] == '.' {
                    match digits_from(s, b + 1) {
                        Some(c) => if c < s.len() && s[c] == '.' {
                            digits_from(s, c + 1)
                        } else {
                            None
                        },
                        None => None,
                    }
                } else {
                    None
                },
                None => None,
            }
        } else {
            None
        },
        None => None,
    }
}

/// An IPv4 field starting at `i`: `IPv4` in any case, anything but a colon
/// or line break, a colon, white space, then a dotted quad; the span of
/// the quad.
pub open spec fn ipv4_field_at(s: Seq<char>, i: int) -> Option<(int, int)> {
    if 0 <= i && i + 4 <= s.len() && lower(s.subrange(i, i + 4)) == "ipv4"@ {
        let j = field_stop(s, i + 4);
        if j < s.len() && s[j] == ':' {
            let k = first_kept(s, j + 1);
            match dotted_quad_end(s, k) {
                Some(e) => Some((k, e)),
                None => None,
            }
        } else {
            None
        }
    } else {
        None
    }
}

/// The quads of the IPv4 fields at or after `pos`, left to right, each
/// search going on after the last field found.
pub open spec fn ipv4_fields(s: Seq<char>, pos: int) -> Seq<Seq<char>>
    decreases s.len() - pos,
{
    if pos < 0 || pos >= s.len() {
        Seq::empty()
    } else {
        match ipv4_field_at(s, pos) {
            Some((k, e)) => if pos < e <= s.len() {
                seq![s.subrange(k, e)] + ipv4_fields(s, e)
            } else {
                Seq::empty()
            },
            None => ipv4_fields(s, pos + 1),
        }
    }
}

/// The usable private addresses among the quads, in order.
pub open spec fn usable_addresses(quads: Seq<Seq<char>>) -> Seq<IpAddress>
    decreases quads.len(),
{
    if quads.len() == 0 {
        Seq::empty()
    } else {
        let rest = usable_addresses(quads.drop_first());
        match ipv4_of(quads[0]) {
            Some(IpAddress::V4(a, b, c, d)) => if is_usable_private_spec(a, b) {
                seq![IpAddress::V4(a, b, c, d)] + rest
            } else {
                rest
            },
            _ => rest,
        }
    }
}

/// An address in 10/8.
pub open spec fn is_ten(ip: IpAddress) -> bool {
    ip matches IpAddress::V4(a, _, _, _) && a == 10
}

/// The first address in 10/8.
pub open spec fn first_ten(addrs: Seq<IpAddress>) -> Option<IpAddress>
    decreases addrs.len(),
{
    if addrs.len() == 0 {
        None
    } else if is_ten(addrs[0]) {
        Some(addrs[0])
    } else {
        first_ten(addrs.drop_first())
    }
}

/// The first address in 10/8, else the first address.
pub open spec fn preferred_address(addrs: Seq<IpAddress>) -> Option<IpAddress> {
    match first_ten(addrs) {
        Some(ip) => Some(ip),
        None => if addrs.len() > 0 {
            Some(addrs[0])
        } else {
            None
        },
    }
}

/// The address `ipconfig` output `text` offers for logging in.
pub open spec fn campus_address(text: Seq<char>) -> Option<IpAddress> {
    preferred_address(usable_addresses(ipv4_fields(text, 0)))
}


/// The first index at or after `j` holding `:`, `\r` or `\n`.
fn field_stop_exec(s: &[char], j: usize) -> (res: usize)
    requires
        j <= s@.len(),
    ensures
        res == field_stop(s@, j as int),
        j <= res <= s@.len(),
{
    let mut k = j;
    while k < s.len() && s[k] != ':' && s[k] != '\r' && s[k] != '\n'
        invariant
            j <= k <= s@.len(),
            field_stop(s@, k as int) == field_stop(s@, j as int),
        decreases s@.len() - k,
    {
        k = k + 1;
    }
    k
}

/// The index past the digit run at `k`, when it is not empty.
fn digits_from_exec(s: &[char], k: usize) -> (res: Option<usize>)
    requires
        k <= s@.len(),
    ensures
        match res {
            Some(e) => digits_from(s@, k as int) == Some(e as int) && e <= s@.len(),
            None => digits_from(s@, k as int) is None,
        },
{
    let e = decimal_run_end_exec(s, k);
    if e > k {
        Some(e)
    } else {
        None
    }
}

/// The index past a dotted quad at `k`.
fn dotted_quad_end_exec(s: &[char], k: usize) -> (res: Option<usize>)
    requires
        k <= s@.len(),
    ensures
        match res {
            Some(e) => dotted_quad_end(s@, k as int) == Some(e as int) && e <= s@.len(),
            None => dotted_quad_end(s@, k as int) is None,
        },
{
    let a = match digits_from_exec(s, k) {
        Some(a) => a,
        None => return None,
    };
    if !(a < s.len() && s[a] == '.') {
        return None;
    }
    let b = match digits_from_exec(s, a + 1) {
        Some(b) => b,
        None => return None,
    };
    if !(b < s.len() && s[b] == '.') {
        return None;
    }
    let c = match digits_from_exec(s, b + 1) {
        Some(c) => c,
        None => return None,
    };
    if !(c < s.len() && s[c] == '.') {
        return None;
    }
    digits_from_exec(s, c + 1)
}

/// The span of the quad of an IPv4 field at `i`.
fn ipv4_field_at_exec(s: &[char], i: usize) -> (res: Option<(usize, usize)>)
    requires
        i <= s@.len(),
    ensures
        match res {
            Some((k, e)) => ipv4_field_at(s@, i as int) == Some((k as int, e as int)) && k <= e
                <= s@.len(),
            None => ipv4_field_at(s@, i as int) is None,
        },
{
    if s.len() < 4 || i > s.len() - 4 {
        return None;
    }
    let head = slice_chars(s, i, i + 4);
    let lh = crate::text::lowercase_chars(head.as_slice());
    if !crate::netif::same_chars(lh.as_slice(), chars_of("ipv4").as_slice()) {
        return None;
    }
    let j = field_stop_exec(s, i + 4);
    if !(j < s.len() && s[j] == ':') {
        return None;
    }
    proof {
        lemma_first_kept_bounds(s@, j + 1);
    }
    let mut k = j + 1;
    while k < s.len() && is_ws_char(s[k])
        invariant
            j + 1 <= k <= s@.len(),
            first_kept(s@, k as int) == first_kept(s@, j + 1),
        decreases s@.len() - k,
    {
        k = k + 1;
    }
    match dotted_quad_end_exec(s, k) {
        Some(e) => {
            proof {
                lemma_decimal_run_end_bounds(s@, k as int);
            }
            Some((k, e))
        },
        None => None,
    }
}

/// The address `ipconfig` output offers for logging in: among the usable
/// private addresses of its IPv4 fields, the first in 10/8, else the first.
pub fn private_ipv4_from_ipconfig(text: &str) -> (res: Option<IpAddress>)
    ensures
        res == campus_address(text@),
{
    let s = chars_of(text);
    let mut addrs: Vec<IpAddress> = Vec::new();
    let mut pos: usize = 0;
    assert(addrs@ + usable_addresses(ipv4_fields(s@, 0)) =~= usable_addresses(ipv4_fields(s@, 0)));
    while pos < s.len()
        invariant
            pos <= s@.len(),
            usable_addresses(ipv4_fields(s@, 0)) == addrs@ + usable_addresses(
                ipv4_fields(s@, pos as int),
            ),
        decreases s@.len() - pos,
    {
        match ipv4_field_at_exec(s.as_slice(), pos) {
            Some((k, e)) => {
                if e > pos {
                    let quad = slice_chars(s.as_slice(), k, e);
                    let ghost q = quad@;
                    let ghost rest = ipv4_fields(s@, e as int);
                    let ghost before = addrs@;
                    assert(ipv4_fields(s@, pos as int) == seq![q] + rest);
                    assert((seq![q] + rest).drop_first() =~= rest);
                    assert((seq![q] + rest)[0] == q);
                    match parse_ipv4_chars(quad.as_slice()) {
                        Some(IpAddress::V4(a, b, c, d)) => {
                            if is_usable_private_ipv4(a, b, c, d) {
                                addrs.push(IpAddress::V4(a, b, c, d));
                                assert(addrs@ + usable_addresses(rest) =~= before + (seq![
                                    IpAddress::V4(a, b, c, d),
                                ] + usable_addresses(rest)));
                            }
                        },
                        _ => {},
                    }
                    pos = e;
                } else {
                    pos = s.len();
                }
            },
            None => {
                pos = pos + 1;
            },
        }
    }
    assert(addrs@ + usable_addresses(ipv4_fields(s@, pos as int)) =~= addrs@);
    assert(addrs@.skip(0) =~= addrs@);
    let mut i: usize = 0;
    while i < addrs.len()
        invariant
            i <= addrs@.len(),
            first_ten(addrs@) == first_ten(addrs@.skip(i as int)),
            s@ == text@,
            usable_addresses(ipv4_fields(s@, 0)) == addrs@,
        decreases addrs@.len() - i,
    {
        assert(addrs@.skip(i as int)[0] == addrs@[i as int]);
        if let IpAddress::V4(10, _, _, _) = addrs[i] {
            assert(is_ten(addrs@[i as int]));
            return Some(addrs[i]);
        }
        assert(addrs@.skip(i as int).drop_first() =~= addrs@.skip(i + 1));
        i = i + 1;
    }
    if addrs.len() > 0 {
        Some(addrs[0])
    } else {
        None
    }
}

} // verus!
