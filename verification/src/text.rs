//! Character-level text helpers: conversions between strings and character
//! vectors, whitespace trimming, ASCII case folding, substring search and
//! decimal numbers.
use vstd::prelude::*;
use crate::ip::{digit_value, digits_value, is_digit};

verus! {

/// The characters of `s`.
pub fn chars_of(s: &str) -> (res: Vec<char>)
    ensures
        res@ == s@,
{
    let mut res: Vec<char> = Vec::new();
    for c in iter: s.chars()
        invariant
            res@ == iter.seq().take(iter.index() as int),
    {
        res.push(c);
    }
    proof {
        broadcast use vstd::string::axiom_spec_iter;

    }
    assert(res@ =~= s@);
    res
}

/// Appends one character to a string (std `String::push`).
#[verifier::external_body]
pub(crate) fn push_char(s: &mut String, c: char)
    ensures
        final(s)@ == old(s)@.push(c),
{
    s.push(c);
}

/// The string holding exactly the characters `v`.
pub fn string_from(v: &[char]) -> (res: String)
    ensures
        res@ == v@,
{
    let mut res = String::new();
    let mut i: usize = 0;
    while i < v.len()
        invariant
            i <= v@.len(),
            res@ == v@.take(i as int),
        decreases v@.len() - i,
    {
        push_char(&mut res, v[i]);
        i = i + 1;
        assert(res@ =~= v@.take(i as int));
    }
    assert(v@.take(v@.len() as int) =~= v@);
    res
}

/// A string holding the characters of `s` (`str::to_string`).
pub fn string_of(s: &str) -> (res: String)
    ensures
        res@ == s@,
{
    let v = chars_of(s);
    string_from(v.as_slice())
}

/// `prefix` followed by `rest`.
pub fn prefixed(prefix: &str, rest: &str) -> (res: String)
    ensures
        res@ == prefix@ + rest@,
{
    let mut v = chars_of(prefix);
    append_str(&mut v, rest);
    string_from(v.as_slice())
}

/// Appends the characters of `src` to `dst`.
pub fn append_chars(dst: &mut Vec<char>, src: &[char])
    ensures
        final(dst)@ == old(dst)@ + src@,
{
    let ghost start = dst@;
    let mut i: usize = 0;
    while i < src.len()
        invariant
            i <= src@.len(),
            dst@ == start + src@.take(i as int),
        decreases src@.len() - i,
    {
        dst.push(src[i]);
        i = i + 1;
        assert(dst@ =~= start + src@.take(i as int));
    }
    assert(src@.take(src@.len() as int) =~= src@);
}

/// Appends the characters of `src` to `dst`.
pub fn append_str(dst: &mut Vec<char>, src: &str)
    ensures
        final(dst)@ == old(dst)@ + src@,
{
    let v = chars_of(src);
    append_chars(dst, v.as_slice());
}

/// White space as `char::is_whitespace` defines it (the Unicode
/// `White_Space` property).
pub open spec fn is_ws(c: char) -> bool {
    let u = c as u32;
    (0x9 <= u <= 0xd) || u == 0x20 || u == 0x85 || u == 0xa0 || u == 0x1680 || (0x2000 <= u
        <= 0x200a) || u == 0x2028 || u == 0x2029 || u == 0x202f || u == 0x205f || u == 0x3000
}

/// Whether `c` is white space.
pub fn is_ws_char(c: char) -> (res: bool)
    ensures
        res == is_ws(c),
{
    let u = c as u32;
    (0x9 <= u && u <= 0xd) || u == 0x20 || u == 0x85 || u == 0xa0 || u == 0x1680 || (0x2000 <= u
        && u <= 0x200a) || u == 0x2028 || u == 0x2029 || u == 0x202f || u == 0x205f || u == 0x3000
}

/// Index of the first non-white-space character at or after `i` (or the length).
pub open spec fn first_kept(s: Seq<char>, i: int) -> int
    decreases s.len() - i,
{
    if i >= s.len() || i < 0 {
        s.len() as int
    } else if is_ws(s[i]) {
        first_kept(s, i + 1)
    } else {
        i
    }
}

/// One past the last non-white-space character before `j` (or zero).
pub open spec fn end_kept(s: Seq<char>, j: int) -> int
    decreases j,
{
    if j <= 0 || j > s.len() {
        0
    } else if is_ws(s[j - 1]) {
        end_kept(s, j - 1)
    } else {
        j
    }
}

/// `s` without leading and trailing white space (`str::trim`).
pub open spec fn trim(s: Seq<char>) -> Seq<char> {
    let a = first_kept(s, 0);
    let b = end_kept(s, s.len() as int);
    if a < b {
        s.subrange(a, b)
    } else {
        Seq::empty()
    }
}

pub proof fn lemma_first_kept_bounds(s: Seq<char>, i: int)
    requires
        0 <= i <= s.len(),
    ensures
        i <= first_kept(s, i) <= s.len(),
        forall|k: int| i <= k < first_kept(s, i) ==> is_ws(s[k]),
        first_kept(s, i) < s.len() ==> !is_ws(s[first_kept(s, i)]),
    decreases s.len() - i,
{
    if i < s.len() && is_ws(s[i]) {
        lemma_first_kept_bounds(s, i + 1);
    }
}

pub proof fn lemma_end_kept_bounds(s: Seq<char>, j: int)
    requires
        0 <= j <= s.len(),
    ensures
        0 <= end_kept(s, j) <= j,
        forall|k: int| end_kept(s, j) <= k < j ==> is_ws(s[k]),
        end_kept(s, j) > 0 ==> !is_ws(s[end_kept(s, j) - 1]),
    decreases j,
{
    if j > 0 && is_ws(s[j - 1]) {
        lemma_end_kept_bounds(s, j - 1);
    }
}

/// A text that neither starts nor ends with white space is its own trim.
pub proof fn lemma_trim_unpadded(s: Seq<char>)
    requires
        s.len() > 0,
        !is_ws(s[0]),
        !is_ws(s[s.len() - 1]),
    ensures
        trim(s) == s,
{
    assert(first_kept(s, 0) == 0);
    assert(end_kept(s, s.len() as int) == s.len());
    assert(s.subrange(0, s.len() as int) =~= s);
}

/// `v` without leading and trailing white space.
pub fn trim_chars(v: &[char]) -> (res: Vec<char>)
    ensures
        res@ == trim(v@),
{
    let n = v.len();
    let mut a: usize = 0;
    while a < n && is_ws_char(v[a])
        invariant
            a <= n,
            n == v@.len(),
            first_kept(v@, a as int) == first_kept(v@, 0),
        decreases n - a,
    {
        a = a + 1;
    }
    let mut b: usize = n;
    while b > 0 && is_ws_char(v[b - 1])
        invariant
            b <= n,
            n == v@.len(),
            end_kept(v@, b as int) == end_kept(v@, n as int),
        decreases b,
    {
        b = b - 1;
    }
    let mut res: Vec<char> = Vec::new();
    if a < b {
        let mut i = a;
        while i < b
            invariant
                a <= i <= b,
                b <= n,
                n == v@.len(),
                res@ == v@.subrange(a as int, i as int),
            decreases b - i,
        {
            res.push(v[i]);
            i = i + 1;
            assert(res@ =~= v@.subrange(a as int, i as int));
        }
    }
    res
}

/// `s` without leading and trailing white space.
pub fn trim_str(s: &str) -> (res: Vec<char>)
    ensures
        res@ == trim(s@),
{
    let v = chars_of(s);
    trim_chars(v.as_slice())
}

/// ASCII upper-case letters folded to lower case, other characters kept.
pub open spec fn lower_char(c: char) -> char {
    if 'A' <= c && c <= 'Z' {
        ((c as u32) + 32) as char
    } else {
        c
    }
}

/// `str::to_ascii_lowercase` on a character sequence.
pub open spec fn lower(s: Seq<char>) -> Seq<char> {
    s.map_values(|c: char| lower_char(c))
}

/// `char::to_ascii_uppercase`.
pub open spec fn upper_char(c: char) -> char {
    if 'a' <= c && c <= 'z' {
        ((c as u32) - 32) as char
    } else {
        c
    }
}

/// `str::to_ascii_uppercase` on a character sequence.
pub open spec fn upper(s: Seq<char>) -> Seq<char> {
    s.map_values(|c: char| upper_char(c))
}

/// Lower-casing an upper-cased character gives the lower-cased character.
pub proof fn lemma_lower_of_upper_char(c: char)
    ensures
        lower_char(upper_char(c)) == lower_char(c),
{
    if 'a' <= c && c <= 'z' {
        let u = ((c as u32) - 32) as char;
        assert(u as u32 == (c as u32) - 32);
        assert('A' <= u && u <= 'Z');
        assert(((u as u32) + 32) as char == c);
    }
}

/// ASCII lower-casing of `v`.
pub fn lowercase_chars(v: &[char]) -> (res: Vec<char>)
    ensures
        res@ == lower(v@),
{
    let mut res: Vec<char> = Vec::new();
    let mut i: usize = 0;
    while i < v.len()
        invariant
            i <= v@.len(),
            res@ == lower(v@.take(i as int)),
        decreases v@.len() - i,
    {
        let c = v[i];
        let l = if 'A' <= c && c <= 'Z' {
            ((c as u8) + 32) as char
        } else {
            c
        };
        res.push(l);
        i = i + 1;
        assert(res@ =~= lower(v@.take(i as int)));
    }
    assert(v@.take(v@.len() as int) =~= v@);
    res
}

/// `needle` occurs in `hay` at index `i`.
pub open spec fn occurs_at(hay: Seq<char>, needle: Seq<char>, i: int) -> bool {
    0 <= i && i + needle.len() <= hay.len() && hay.subrange(i, i + needle.len()) == needle
}

/// `needle` occurs somewhere in `hay` (`str::contains`).
pub open spec fn contains(hay: Seq<char>, needle: Seq<char>) -> bool {
    exists|i: int| occurs_at(hay, needle, i)
}

/// Whether `needle` occurs in `hay` at index `i`.
pub fn matches_at(hay: &[char], needle: &[char], i: usize) -> (res: bool)
    ensures
        res == occurs_at(hay@, needle@, i as int),
        res ==> i + needle@.len() <= hay@.len(),
        res ==> i + needle.len() <= hay.len(),
{
    if i > hay.len() || needle.len() > hay.len() - i {
        return false;
    }
    let mut k: usize = 0;
    while k < needle.len()
        invariant
            i + needle@.len() <= hay@.len(),
            i + needle.len() <= hay.len(),
            k <= needle@.len(),
            forall|j: int| 0 <= j < k ==> hay@[i + j] == needle@[j],
        decreases needle@.len() - k,
    {
        if hay[i + k] != needle[k] {
            assert(hay@.subrange(i as int, i + needle@.len())[k as int] != needle@[k as int]);
            return false;
        }
        k = k + 1;
    }
    assert(hay@.subrange(i as int, i + needle@.len()) =~= needle@);
    true
}

/// The first index at or after `from` where `needle` occurs in `hay`.
pub fn find_from(hay: &[char], needle: &[char], from: usize) -> (res: Option<usize>)
    ensures
        match res {
            Some(i) => from <= i && occurs_at(hay@, needle@, i as int) && forall|j: int|
                from <= j < i ==> !occurs_at(hay@, needle@, j),
            None => forall|j: int| from <= j ==> !occurs_at(hay@, needle@, j),
        },
{
    if from > hay.len() {
        return None;
    }
    let mut i = from;
    while i < hay.len()
        invariant
            from <= i <= hay@.len(),
            forall|j: int| from <= j < i ==> !occurs_at(hay@, needle@, j),
        decreases hay@.len() - i,
    {
        if matches_at(hay, needle, i) {
            return Some(i);
        }
        i = i + 1;
    }
    if matches_at(hay, needle, i) {
        return Some(i);
    }
    None
}

/// Whether `needle` occurs in `hay`.
pub fn contains_chars(hay: &[char], needle: &[char]) -> (res: bool)
    ensures
        res == contains(hay@, needle@),
{
    match find_from(hay, needle, 0) {
        Some(i) => true,
        None => false,
    }
}

/// Whether the string literal `needle` occurs in `hay`.
pub fn contains_str(hay: &[char], needle: &str) -> (res: bool)
    ensures
        res == contains(hay@, needle@),
{
    let n = chars_of(needle);
    contains_chars(hay, n.as_slice())
}

/// The decimal digit character for `d` (0 to 9).
pub open spec fn digit_char(d: int) -> char {
    (('0' as u32) + d) as char
}

/// `n` written in decimal, without leading zeros.
pub open spec fn decimal(n: nat) -> Seq<char>
    decreases n,
{
    if n < 10 {
        seq![digit_char(n as int)]
    } else {
        decimal(n / 10).push(digit_char((n % 10) as int))
    }
}

/// `n` written in decimal.
pub fn decimal_chars(n: u128) -> (res: Vec<char>)
    ensures
        res@ == decimal(n as nat),
    decreases n,
{
    let d = (n % 10) as u8;
    let c = ((d + 48u8) as char);
    assert(c == digit_char((n % 10) as int));
    if n < 10 {
        let mut v: Vec<char> = Vec::new();
        v.push(c);
        assert(v@ =~= seq![digit_char(n as int)]);
        v
    } else {
        let mut v = decimal_chars(n / 10);
        v.push(c);
        v
    }
}

/// The string of `n` in decimal.
pub fn decimal_string(n: u128) -> (res: String)
    ensures
        res@ == decimal(n as nat),
{
    let v = decimal_chars(n);
    string_from(v.as_slice())
}

/// Every character is an ASCII digit.
pub open spec fn all_digits(d: Seq<char>) -> bool {
    forall|i: int| 0 <= i < d.len() ==> is_digit(#[trigger] d[i])
}

/// The text after an optional leading `+`.
pub open spec fn unsigned_digits(s: Seq<char>) -> Seq<char> {
    if s.len() > 0 && s[0] == '+' {
        s.drop_first()
    } else {
        s
    }
}

/// The number a text writes as `u32::from_str` reads it: an optional `+`
/// and one or more ASCII digits whose value fits in 32 bits.
pub open spec fn u32_of(s: Seq<char>) -> Option<u32> {
    let d = unsigned_digits(s);
    if s.len() > 0 && d.len() > 0 && all_digits(d) && digits_value(d) <= u32::MAX {
        Some(digits_value(d) as u32)
    } else {
        None
    }
}

/// Reads a `u32` from `s` (`u32::from_str`).
pub fn parse_u32_chars(s: &[char]) -> (res: Option<u32>)
    ensures
        res == u32_of(s@),
{
    let n = s.len();
    if n == 0 {
        return None;
    }
    let start: usize = if s[0] == '+' {
        1
    } else {
        0
    };
    if start == n {
        return None;
    }
    let ghost d = s@.subrange(start as int, n as int);
    assert(d =~= unsigned_digits(s@));
    let mut value: u64 = 0;
    let mut overflow = false;
    let mut i = start;
    while i < n
        invariant
            start <= i <= n,
            n == s@.len(),
            d == s@.subrange(start as int, n as int),
            d == unsigned_digits(s@),
            n > 0,
            forall|k: int| 0 <= k < i - start ==> is_digit(#[trigger] d[k]),
            !overflow ==> value == digits_value(d.take(i - start)),
            !overflow ==> value <= u32::MAX,
            overflow ==> digits_value(d.take(i - start)) > u32::MAX,
        decreases n - i,
    {
        let c = s[i];
        if !('0' <= c && c <= '9') {
            assert(d[i - start] == c);
            assert(!is_digit(d[i - start]));
            return None;
        }
        let ghost prev = d.take(i - start);
        assert(d.take(i - start + 1).drop_last() =~= prev);
        assert(d.take(i - start + 1).last() == c);
        let digit = (c as u64) - 48;
        assert(digit == digit_value(c));
        if !overflow {
            let next = value * 10 + digit;
            if next > 0xFFFF_FFFF {
                overflow = true;
            } else {
                value = next;
            }
        }
        i = i + 1;
    }
    assert(d.take(n - start) =~= d);
    if overflow {
        None
    } else {
        Some(value as u32)
    }
}

/// Index of the first `c` in `s`.
pub open spec fn first_index_of(s: Seq<char>, c: char) -> Option<int>
    decreases s.len(),
{
    if s.len() == 0 {
        None
    } else if s[0] == c {
        Some(0)
    } else {
        match first_index_of(s.drop_first(), c) {
            Some(i) => Some(i + 1),
            None => None,
        }
    }
}

/// Where the first `c` stands, if anywhere.
pub proof fn lemma_first_index_of(s: Seq<char>, c: char)
    ensures
        match first_index_of(s, c) {
            Some(i) => 0 <= i < s.len() && s[i] == c && forall|k: int| 0 <= k < i ==> s[k] != c,
            None => forall|k: int| 0 <= k < s.len() ==> s[k] != c,
        },
    decreases s.len(),
{
    if s.len() > 0 && s[0] != c {
        lemma_first_index_of(s.drop_first(), c);
        match first_index_of(s.drop_first(), c) {
            Some(i) => {
                assert forall|k: int| 0 <= k < i + 1 implies s[k] != c by {
                    if k > 0 {
                        assert(s[k] == s.drop_first()[k - 1]);
                    }
                }
            },
            None => {
                assert forall|k: int| 0 <= k < s.len() implies s[k] != c by {
                    if k > 0 {
                        assert(s[k] == s.drop_first()[k - 1]);
                    }
                }
            },
        }
    }
}

/// Index of the last `c` in `s`.
pub open spec fn last_index_of(s: Seq<char>, c: char) -> Option<int>
    decreases s.len(),
{
    if s.len() == 0 {
        None
    } else if s.last() == c {
        Some(s.len() - 1)
    } else {
        last_index_of(s.drop_last(), c)
    }
}

/// The index of the first `c` in `v`.
pub fn find_char(v: &[char], c: char) -> (res: Option<usize>)
    ensures
        match res {
            Some(i) => first_index_of(v@, c) == Some(i as int),
            None => first_index_of(v@, c) is None,
        },
{
    let mut i: usize = 0;
    assert(v@.skip(0) =~= v@);
    while i < v.len()
        invariant
            i <= v@.len(),
            first_index_of(v@, c) == (match first_index_of(v@.skip(i as int), c) {
                Some(k) => Some(k + i),
                None => None,
            }),
        decreases v@.len() - i,
    {
        assert(v@.skip(i as int).drop_first() =~= v@.skip(i + 1));
        if v[i] == c {
            return Some(i);
        }
        i = i + 1;
    }
    None
}

/// The index of the last `c` in `v`.
pub fn rfind_char(v: &[char], c: char) -> (res: Option<usize>)
    ensures
        match res {
            Some(i) => last_index_of(v@, c) == Some(i as int) && i < v@.len(),
            None => last_index_of(v@, c) is None,
        },
{
    let mut j: usize = v.len();
    assert(v@.take(j as int) =~= v@);
    while j > 0
        invariant
            j <= v@.len(),
            last_index_of(v@, c) == last_index_of(v@.take(j as int), c),
        decreases j,
    {
        assert(v@.take(j as int).drop_last() =~= v@.take(j - 1));
        if v[j - 1] == c {
            return Some(j - 1);
        }
        j = j - 1;
    }
    None
}

/// The characters `v[from..to]`.
pub fn slice_chars(v: &[char], from: usize, to: usize) -> (res: Vec<char>)
    requires
        from <= to <= v@.len(),
    ensures
        res@ == v@.subrange(from as int, to as int),
{
    let mut res: Vec<char> = Vec::new();
    let mut i = from;
    while i < to
        invariant
            from <= i <= to,
            to <= v@.len(),
            res@ == v@.subrange(from as int, i as int),
        decreases to - i,
    {
        res.push(v[i]);
        i = i + 1;
        assert(res@ =~= v@.subrange(from as int, i as int));
    }
    res
}

/// `s` with every non-overlapping occurrence of `pat`, left to right,
/// replaced by `rep` (`str::replace` with a non-empty pattern).
pub open spec fn replace_all(s: Seq<char>, pat: Seq<char>, rep: Seq<char>) -> Seq<char>
    decreases s.len(),
{
    if s.len() == 0 || pat.len() == 0 {
        s
    } else if occurs_at(s, pat, 0) {
        rep + replace_all(s.skip(pat.len() as int), pat, rep)
    } else {
        seq![s[0]] + replace_all(s.drop_first(), pat, rep)
    }
}

/// `v` with `pat` replaced by `rep` throughout.
pub fn replace_chars(v: &[char], pat: &[char], rep: &[char]) -> (res: Vec<char>)
    requires
        pat@.len() > 0,
    ensures
        res@ == replace_all(v@, pat@, rep@),
{
    let mut out: Vec<char> = Vec::new();
    let mut i: usize = 0;
    assert(v@.skip(0) =~= v@);
    assert(out@ + replace_all(v@, pat@, rep@) =~= replace_all(v@, pat@, rep@));
    while i < v.len()
        invariant
            i <= v@.len(),
            pat@.len() > 0,
            out@ + replace_all(v@.skip(i as int), pat@, rep@) == replace_all(v@, pat@, rep@),
        decreases v@.len() - i,
    {
        let ghost rest = v@.skip(i as int);
        if matches_at(v, pat, i) {
            assert(rest.subrange(0, pat@.len() as int) =~= v@.subrange(
                i as int,
                i + pat@.len(),
            ));
            assert(occurs_at(rest, pat@, 0));
            assert(rest.skip(pat@.len() as int) =~= v@.skip(i + pat@.len()));
            append_chars(&mut out, rep);
            i = i + pat.len();
        } else {
            proof {
                if occurs_at(rest, pat@, 0) {
                    assert(rest.subrange(0, pat@.len() as int) =~= v@.subrange(
                        i as int,
                        i + pat@.len(),
                    ));
                }
            }
            assert(rest.drop_first() =~= v@.skip(i + 1));
            out.push(v[i]);
            i = i + 1;
        }
    }
    assert(v@.skip(i as int) =~= Seq::<char>::empty());
    out
}

/// `text` cut to `max` characters, with `...` appended when it was longer.
pub open spec fn shorten_spec(text: Seq<char>, max: nat) -> Seq<char> {
    if text.len() > max {
        text.take(max as int) + "..."@
    } else {
        text
    }
}

/// Cuts `text` to `max_chars` characters, marking the cut with `...`.
pub fn shorten(text: &str, max_chars: usize) -> (res: String)
    ensures
        res@ == shorten_spec(text@, max_chars as nat),
{
    let v = chars_of(text);
    if v.len() > max_chars {
        let mut out = slice_chars(v.as_slice(), 0, max_chars);
        append_str(&mut out, "...");
        string_from(out.as_slice())
    } else {
        string_from(v.as_slice())
    }
}


/// The views of a list of strings.
pub open spec fn views(v: Seq<String>) -> Seq<Seq<char>> {
    v.map_values(|s: String| s@)
}

/// The parts joined with `sep` between them (`[&str]::join`).
pub open spec fn join(parts: Seq<Seq<char>>, sep: Seq<char>) -> Seq<char>
    decreases parts.len(),
{
    if parts.len() == 0 {
        Seq::empty()
    } else if parts.len() == 1 {
        parts[0]
    } else {
        join(parts.drop_last(), sep) + sep + parts.last()
    }
}

/// Joins strings with `sep` between them.
pub fn join_strings(parts: &Vec<String>, sep: &str) -> (res: String)
    ensures
        res@ == join(views(parts@), sep@),
{
    let mut out: Vec<char> = Vec::new();
    let mut i: usize = 0;
    while i < parts.len()
        invariant
            i <= parts@.len(),
            out@ == join(views(parts@.take(i as int)), sep@),
        decreases parts@.len() - i,
    {
        if i > 0 {
            append_str(&mut out, sep);
        }
        append_str(&mut out, parts[i].as_str());
        proof {
            let t = views(parts@.take(i + 1));
            assert(t.drop_last() =~= views(parts@.take(i as int)));
            if i == 0 {
                assert(out@ =~= t[0]);
            }
        }
        i = i + 1;
    }
    assert(parts@.take(parts@.len() as int) =~= parts@);
    string_from(out.as_slice())
}

} // verus!
