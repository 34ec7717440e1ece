//! The textual form of IPv6 addresses: the grammar `Ipv6Addr::from_str`
//! accepts and the text `Ipv6Addr`'s `Display` writes.
use vstd::prelude::*;
use crate::ip::{ipv4_prefix_at, read_ipv4_prefix, is_digit, IpAddress, ipv4_text, ipv4_chars};
use crate::text::{append_chars, digit_char};

verus! {

/// An ASCII hexadecimal digit.
pub open spec fn is_hex(c: char) -> bool {
    is_digit(c) || ('a' <= c && c <= 'f') || ('A' <= c && c <= 'F')
}

/// The value of a hexadecimal digit.
pub open spec fn hex_value(c: char) -> nat {
    if is_digit(c) {
        ((c as u32) - ('0' as u32)) as nat
    } else if 'a' <= c && c <= 'f' {
        ((c as u32) - ('a' as u32) + 10) as nat
    } else {
        ((c as u32) - ('A' as u32) + 10) as nat
    }
}

/// The value of a string of hexadecimal digits.
pub open spec fn hex_digits_value(d: Seq<char>) -> nat
    decreases d.len(),
{
    if d.len() == 0 {
        0
    } else {
        hex_digits_value(d.drop_last()) * 16 + hex_value(d.last())
    }
}

/// The first index at or after `i` that is not a hexadecimal digit.
pub open spec fn hex_run_end(s: Seq<char>, i: int) -> int
    decreases s.len() - i,
{
    if i < 0 || i >= s.len() {
        s.len() as int
    } else if is_hex(s[i]) {
        hex_run_end(s, i + 1)
    } else {
        i
    }
}

/// A group of one to four hexadecimal digits at `i`, with the index after it.
pub open spec fn hex_group_at(s: Seq<char>, i: int) -> Option<(u16, int)> {
    let j = hex_run_end(s, i);
    if 0 <= i && 1 <= j - i <= 4 {
        Some((hex_digits_value(s.subrange(i, j)) as u16, j))
    } else {
        None
    }
}

/// Where the `idx`-th group starts when reading from `i`: after a `:`
/// unless it is the first group.
pub open spec fn group_start(s: Seq<char>, i: int, idx: nat) -> Option<int> {
    if idx == 0 {
        Some(i)
    } else if 0 <= i < s.len() && s[i] == ':' {
        Some(i + 1)
    } else {
        None
    }
}

/// The two groups an embedded IPv4 address stands for.
pub open spec fn v4_groups(ip: IpAddress) -> Seq<u16> {
    match ip {
        IpAddress::V4(a, b, c, d) => seq![(a * 256 + b) as u16, (c * 256 + d) as u16],
        _ => Seq::empty(),
    }
}

/// Reads groups `idx..limit` from `i`: the groups read, the index reached,
/// and whether the last two came from an embedded IPv4 address.
pub open spec fn read_groups(s: Seq<char>, i: int, idx: nat, limit: nat) -> (Seq<u16>, int, bool)
    decreases limit - idx,
{
    if idx >= limit {
        (Seq::empty(), i, false)
    } else {
        let v4 = if idx + 1 < limit {
            match group_start(s, i, idx) {
                Some(k) => ipv4_prefix_at(s, k),
                None => None,
            }
        } else {
            None
        };
        match v4 {
            Some((ip, e)) => (v4_groups(ip), e, true),
            None => match group_start(s, i, idx) {
                Some(k) => match hex_group_at(s, k) {
                    Some((g, e)) => {
                        let (rest, pos, v) = read_groups(s, e, idx + 1, limit);
                        (seq![g] + rest, pos, v)
                    },
                    None => (Seq::empty(), i, false),
                },
                None => (Seq::empty(), i, false),
            },
        }
    }
}

/// The eight segments of the IPv6 address `s` writes, if it writes one
/// (the grammar of `Ipv6Addr::from_str`).
pub open spec fn ipv6_of(s: Seq<char>) -> Option<Seq<u16>> {
    let (head, p, v4) = read_groups(s, 0, 0, 8);
    if head.len() == 8 {
        if p == s.len() {
            Some(head)
        } else {
            None
        }
    } else if v4 {
        None
    } else if 0 <= p && p + 1 < s.len() && s[p] == ':' && s[p + 1] == ':' {
        let limit = (8 - (head.len() + 1)) as nat;
        let (tail, q, _) = read_groups(s, p + 2, 0, limit);
        if q == s.len() {
            Some(head + Seq::new((8 - head.len() - tail.len()) as nat, |k: int| 0u16) + tail)
        } else {
            None
        }
    } else {
        None
    }
}

proof fn lemma_hex_run_end_bounds(s: Seq<char>, i: int)
    requires
        0 <= i <= s.len(),
    ensures
        i <= hex_run_end(s, i) <= s.len(),
        forall|k: int| i <= k < hex_run_end(s, i) ==> is_hex(s[k]),
    decreases s.len() - i,
{
    if i < s.len() && is_hex(s[i]) {
        lemma_hex_run_end_bounds(s, i + 1);
    }
}

/// Reads a group of hexadecimal digits at `i`.
fn read_hex_group(s: &[char], i: usize) -> (res: Option<(u16, usize)>)
    requires
        i <= s@.len(),
    ensures
        match res {
            Some((g, e)) => hex_group_at(s@, i as int) == Some((g, e as int)) && e <= s@.len(),
            None => hex_group_at(s@, i as int) is None,
        },
{
    let mut j = i;
    let mut value: u32 = 0;
    while j < s.len() && (('0' <= s[j] && s[j] <= '9') || ('a' <= s[j] && s[j] <= 'f') || ('A'
        <= s[j] && s[j] <= 'F'))
        invariant
            i <= j <= s@.len(),
            hex_run_end(s@, j as int) == hex_run_end(s@, i as int),
            j - i <= 4 ==> value == hex_digits_value(s@.subrange(i as int, j as int)),
            j - i == 0 ==> value == 0,
            j - i == 1 ==> value < 16,
            j - i == 2 ==> value < 256,
            j - i == 3 ==> value < 4096,
            j - i == 4 ==> value < 65536,
        decreases s@.len() - j,
    {
        if j - i < 4 {
            assert(s@.subrange(i as int, j + 1).drop_last() =~= s@.subrange(i as int, j as int));
            let c = s[j];
            let d: u32 = if '0' <= c && c <= '9' {
                (c as u32) - 48
            } else if 'a' <= c && c <= 'f' {
                (c as u32) - 87
            } else {
                (c as u32) - 55
            };
            value = value * 16 + d;
        }
        j = j + 1;
    }
    proof {
        lemma_hex_run_end_bounds(s@, i as int);
    }
    if 1 <= j - i && j - i <= 4 {
        Some((value as u16, j))
    } else {
        None
    }
}

/// Reads groups `idx..limit` from `i` (see `read_groups`).
fn read_groups_exec(s: &[char], i: usize, idx: usize, limit: usize) -> (res: (Vec<u16>, usize, bool))
    requires
        i <= s@.len(),
        limit <= 8,
    ensures
        read_groups(s@, i as int, idx as nat, limit as nat) == (res.0@, res.1 as int, res.2),
        res.1 <= s@.len(),
        idx <= limit ==> res.0@.len() <= limit - idx,
    decreases limit - idx,
{
    if idx >= limit {
        return (Vec::new(), i, false);
    }
    let start: Option<usize> = if idx == 0 {
        Some(i)
    } else if i < s.len() && s[i] == ':' {
        Some(i + 1)
    } else {
        None
    };
    if idx + 1 < limit {
        if let Some(k) = start {
            if let Some((ip, e)) = read_ipv4_prefix(s, k) {
                let mut v: Vec<u16> = Vec::new();
                match ip {
                    IpAddress::V4(a, b, c, d) => {
                        v.push((a as u16) * 256 + (b as u16));
                        v.push((c as u16) * 256 + (d as u16));
                    },
                    _ => {},
                }
                proof {
                    assert(v@ =~= v4_groups(ip));
                }
                return (v, e, true);
            }
        }
    }
    match start {
        Some(k) => match read_hex_group(s, k) {
            Some((g, e)) => {
                let (rest, pos, v4) = read_groups_exec(s, e, idx + 1, limit);
                let mut v: Vec<u16> = Vec::new();
                v.push(g);
                let mut j: usize = 0;
                while j < rest.len()
                    invariant
                        j <= rest@.len(),
                        v@ == seq![g] + rest@.take(j as int),
                    decreases rest@.len() - j,
                {
                    v.push(rest[j]);
                    j = j + 1;
                    assert(v@ =~= seq![g] + rest@.take(j as int));
                }
                assert(rest@.take(rest@.len() as int) =~= rest@);
                (v, pos, v4)
            },
            None => (Vec::new(), i, false),
        },
        None => (Vec::new(), i, false),
    }
}

/// The eight segments of the IPv6 address written in `s`, if it writes one.
pub fn parse_ipv6_chars(s: &[char]) -> (res: Option<[u16; 8]>)
    ensures
        ipv6_of(s@) == (match res {
            Some(a) => Some(a@),
            None => None,
        }),
{
    let (head, p, v4) = read_groups_exec(s, 0, 0, 8);
    let n = s.len();
    if head.len() == 8 {
        if p == n {
            let a = [head[0], head[1], head[2], head[3], head[4], head[5], head[6], head[7]];
            assert(a@ =~= head@);
            return Some(a);
        }
        return None;
    }
    if v4 {
        return None;
    }
    if p < n && n - p > 1 && s[p] == ':' && s[p + 1] == ':' {
        let limit = 8 - (head.len() + 1);
        let (tail, q, _) = read_groups_exec(s, p + 2, 0, limit);
        if q != n {
            return None;
        }
        let mut a: [u16; 8] = [0u16; 8];
        let hl = head.len();
        let tl = tail.len();
        let mut k: usize = 0;
        while k < hl
            invariant
                k <= hl,
                hl == head@.len(),
                hl < 8,
                a@.len() == 8,
                forall|j: int| 0 <= j < k ==> a@[j] == head@[j],
                forall|j: int| k <= j < 8 ==> a@[j] == 0,
            decreases hl - k,
        {
            a[k] = head[k];
            k = k + 1;
        }
        let mut k: usize = 0;
        while k < tl
            invariant
                k <= tl,
                tl == tail@.len(),
                hl + tl <= 7,
                hl == head@.len(),
                a@.len() == 8,
                forall|j: int| 0 <= j < hl ==> a@[j] == head@[j],
                forall|j: int| hl <= j < 8 - tl ==> a@[j] == 0,
                forall|j: int| 0 <= j < k ==> a@[8 - tl + j] == tail@[j],
                forall|j: int| 8 - tl + k <= j < 8 ==> a@[j] == 0,
            decreases tl - k,
        {
            a[8 - tl + k] = tail[k];
            k = k + 1;
        }
        assert(a@ =~= head@ + Seq::new((8 - hl - tl) as nat, |k: int| 0u16) + tail@);
        return Some(a);
    }
    None
}

/// A hexadecimal digit character (lower case) for `d` below 16.
pub open spec fn hex_char(d: int) -> char {
    if d < 10 {
        digit_char(d)
    } else {
        (('a' as u32) + d - 10) as char
    }
}

/// `n` in lower-case hexadecimal without leading zeros.
pub open spec fn hex_text(n: nat) -> Seq<char>
    decreases n,
{
    if n < 16 {
        seq![hex_char(n as int)]
    } else {
        hex_text(n / 16).push(hex_char((n % 16) as int))
    }
}

/// Groups written in hexadecimal and separated by `:`.
pub open spec fn join_hex(g: Seq<u16>) -> Seq<char>
    decreases g.len(),
{
    if g.len() == 0 {
        Seq::empty()
    } else if g.len() == 1 {
        hex_text(g[0] as nat)
    } else {
        join_hex(g.drop_last()) + seq![':'] + hex_text(g.last() as nat)
    }
}

/// Scans for the first longest run of zero segments: (start, length).
pub open spec fn zero_scan(g: Seq<u16>, i: int, cs: int, cl: int, bs: int, bl: int) -> (int, int)
    decreases g.len() - i,
{
    if i < 0 || i >= g.len() {
        (bs, bl)
    } else if g[i] == 0 {
        let ncs = if cl == 0 {
            i
        } else {
            cs
        };
        let ncl = cl + 1;
        if ncl > bl {
            zero_scan(g, i + 1, ncs, ncl, ncs, ncl)
        } else {
            zero_scan(g, i + 1, ncs, ncl, bs, bl)
        }
    } else {
        zero_scan(g, i + 1, 0, 0, bs, bl)
    }
}

/// Whether the segments are an IPv4-mapped address `::ffff:a.b.c.d`.
pub open spec fn is_v4_mapped(g: Seq<u16>) -> bool {
    g.len() == 8 && g[0] == 0 && g[1] == 0 && g[2] == 0 && g[3] == 0 && g[4] == 0 && g[5]
        == 0xffff
}

/// The text `Ipv6Addr`'s `Display` writes: IPv4-mapped addresses as
/// `::ffff:a.b.c.d`, else lower-case groups with the first longest run of
/// two or more zero groups written as `::`.
pub open spec fn ipv6_text(g: Seq<u16>) -> Seq<char> {
    if is_v4_mapped(g) {
        seq![':', ':', 'f', 'f', 'f', 'f', ':'] + ipv4_text(
            (g[6] / 256) as u8,
            (g[6] % 256) as u8,
            (g[7] / 256) as u8,
            (g[7] % 256) as u8,
        )
    } else {
        let (st, ln) = zero_scan(g, 0, 0, 0, 0, 0);
        if ln > 1 {
            join_hex(g.take(st)) + seq![':', ':'] + join_hex(g.skip(st + ln))
        } else {
            join_hex(g)
        }
    }
}

/// `n` in lower-case hexadecimal.
fn hex_chars(n: u16) -> (res: Vec<char>)
    ensures
        res@ == hex_text(n as nat),
    decreases n,
{
    let d = (n % 16) as u8;
    let c = if d < 10 {
        (d + 48u8) as char
    } else {
        (d + 87u8) as char
    };
    assert(c == hex_char((n % 16) as int));
    if n < 16 {
        let mut v: Vec<char> = Vec::new();
        v.push(c);
        assert(v@ =~= seq![hex_char(n as int)]);
        v
    } else {
        let mut v = hex_chars(n / 16);
        v.push(c);
        v
    }
}

/// Appends the groups `g[from..to]` joined by `:`.
fn push_joined(out: &mut Vec<char>, g: &[u16; 8], from: usize, to: usize)
    requires
        from <= to <= 8,
    ensures
        final(out)@ == old(out)@ + join_hex(g@.subrange(from as int, to as int)),
{
    let ghost start = out@;
    let mut i = from;
    while i < to
        invariant
            from <= i <= to,
            to <= 8,
            g@.len() == 8,
            out@ == start + join_hex(g@.subrange(from as int, i as int)),
        decreases to - i,
    {
        let ghost before = out@;
        if i > from {
            out.push(':');
        }
        let h = hex_chars(g[i]);
        append_chars(out, h.as_slice());
        assert(g@.subrange(from as int, i + 1).drop_last() =~= g@.subrange(from as int, i as int));
        i = i + 1;
        assert(out@ =~= start + join_hex(g@.subrange(from as int, i as int)));
    }
}

/// The text of the IPv6 address with segments `g`.
pub fn ipv6_chars(g: [u16; 8]) -> (res: Vec<char>)
    ensures
        res@ == ipv6_text(g@),
{
    if g[0] == 0 && g[1] == 0 && g[2] == 0 && g[3] == 0 && g[4] == 0 && g[5] == 0xffff {
        let mut v: Vec<char> = Vec::new();
        v.push(':');
        v.push(':');
        v.push('f');
        v.push('f');
        v.push('f');
        v.push('f');
        v.push(':');
        let t = ipv4_chars((g[6] / 256) as u8, (g[6] % 256) as u8, (g[7] / 256) as u8, (g[7] % 256) as u8);
        append_chars(&mut v, t.as_slice());
        assert(v@ =~= ipv6_text(g@));
        return v;
    }
    let mut cs: usize = 0;
    let mut cl: usize = 0;
    let mut bs: usize = 0;
    let mut bl: usize = 0;
    let mut i: usize = 0;
    while i < 8
        invariant
            i <= 8,
            g@.len() == 8,
            cl <= i,
            bl <= i,
            bs + bl <= i,
            cl > 0 ==> cs + cl == i,
            zero_scan(g@, i as int, cs as int, cl as int, bs as int, bl as int) == zero_scan(
                g@,
                0,
                0,
                0,
                0,
                0,
            ),
        decreases 8 - i,
    {
        if g[i] == 0 {
            if cl == 0 {
                cs = i;
            }
            cl = cl + 1;
            if cl > bl {
                bs = cs;
                bl = cl;
            }
        } else {
            cs = 0;
            cl = 0;
        }
        i = i + 1;
    }
    let mut v: Vec<char> = Vec::new();
    if bl > 1 {
        push_joined(&mut v, &g, 0, bs);
        v.push(':');
        v.push(':');
        push_joined(&mut v, &g, bs + bl, 8);
        assert(g@.subrange(0, bs as int) =~= g@.take(bs as int));
        assert(g@.subrange((bs + bl) as int, 8) =~= g@.skip((bs + bl) as int));
    } else {
        push_joined(&mut v, &g, 0, 8);
        assert(g@.subrange(0, 8) =~= g@);
    }
    v
}

} // verus!
