//! Writing a flat JSON object of strings, as `serde_json` writes it.
use vstd::prelude::*;

verus! {

/// A lower-case hexadecimal digit for a value below 16.
pub open spec fn hex_lc(n: int) -> char {
    if n < 10 {
        (('0' as u32) + n) as char
    } else {
        (('a' as u32) + n - 10) as char
    }
}

/// How `serde_json` writes one character inside a string: `"` and `\`
/// escaped with a backslash, the control characters below U+0020 as `\b`,
/// `\t`, `\n`, `\f`, `\r` or `\u00XX` (lower-case hex), others as they are.
pub open spec fn escape_char(c: char) -> Seq<char> {
    let u = c as u32;
    if c == '"' {
        seq!['\\', '"']
    } else if c == '\\' {
        seq!['\\', '\\']
    } else if u == 8 {
        seq!['\\', 'b']
    } else if u == 9 {
        seq!['\\', 't']
    } else if u == 10 {
        seq!['\\', 'n']
    } else if u == 12 {
        seq!['\\', 'f']
    } else if u == 13 {
        seq!['\\', 'r']
    } else if u < 0x20 {
        seq!['\\', 'u', '0', '0', hex_lc((u / 16) as int), hex_lc((u % 16) as int)]
    } else {
        seq![c]
    }
}

/// A text with every character escaped.
pub open spec fn escape(s: Seq<char>) -> Seq<char>
    decreases s.len(),
{
    if s.len() == 0 {
        Seq::empty()
    } else {
        escape(s.drop_last()) + escape_char(s.last())
    }
}

/// A JSON string literal.
pub open spec fn json_string(s: Seq<char>) -> Seq<char> {
    seq!['"'] + escape(s) + seq!['"']
}

/// The members `"key":"value"` joined by commas.
pub open spec fn json_members(pairs: Seq<(Seq<char>, Seq<char>)>) -> Seq<char>
    decreases pairs.len(),
{
    if pairs.len() == 0 {
        Seq::empty()
    } else if pairs.len() == 1 {
        json_string(pairs[0].0) + seq![':'] + json_string(pairs[0].1)
    } else {
        json_members(pairs.drop_last()) + seq![','] + json_string(pairs.last().0) + seq![':']
            + json_string(pairs.last().1)
    }
}

/// The compact JSON text of an object with the given string members.
pub open spec fn json_object_text(pairs: Seq<(Seq<char>, Seq<char>)>) -> Seq<char> {
    seq!['{'] + json_members(pairs) + seq!['}']
}

/// `a` sorts strictly before `b` in code-point (and so UTF-8 byte) order.
pub open spec fn chars_lt(a: Seq<char>, b: Seq<char>) -> bool
    decreases a.len(),
{
    if b.len() == 0 {
        false
    } else if a.len() == 0 {
        true
    } else if a[0] != b[0] {
        (a[0] as u32) < (b[0] as u32)
    } else {
        chars_lt(a.drop_first(), b.drop_first())
    }
}

/// No text sorts before itself.
pub proof fn lemma_chars_lt_irreflexive(a: Seq<char>)
    ensures
        !chars_lt(a, a),
    decreases a.len(),
{
    if a.len() > 0 {
        lemma_chars_lt_irreflexive(a.drop_first());
    }
}

/// The code-point order on texts is transitive.
pub proof fn lemma_chars_lt_transitive(a: Seq<char>, b: Seq<char>, c: Seq<char>)
    requires
        chars_lt(a, b),
        chars_lt(b, c),
    ensures
        chars_lt(a, c),
    decreases a.len(),
{
    if a.len() > 0 && b.len() > 0 && c.len() > 0 && a[0] == b[0] && b[0] == c[0] {
        lemma_chars_lt_transitive(a.drop_first(), b.drop_first(), c.drop_first());
    }
}

/// Of two different texts, one sorts before the other.
pub proof fn lemma_chars_lt_total(a: Seq<char>, b: Seq<char>)
    requires
        a != b,
    ensures
        chars_lt(a, b) || chars_lt(b, a),
    decreases a.len(),
{
    if a.len() == 0 && b.len() == 0 {
        assert(a =~= b);
    } else if a.len() > 0 && b.len() > 0 && a[0] == b[0] {
        if a.drop_first() == b.drop_first() {
            assert(a =~= seq![a[0]] + a.drop_first());
            assert(b =~= seq![b[0]] + b.drop_first());
        } else {
            lemma_chars_lt_total(a.drop_first(), b.drop_first());
        }
    } else if a.len() > 0 && b.len() > 0 {
        let (x, y) = (a[0], b[0]);
        if (x as u32) == (y as u32) {
            vstd::utf8::char_u32_cast(x, x as u32);
            vstd::utf8::char_u32_cast(y, y as u32);
        }
    }
}

/// The keys are in strictly increasing order.
pub open spec fn keys_sorted(pairs: Seq<(Seq<char>, Seq<char>)>) -> bool {
    forall|i: int, j: int| 0 <= i < j < pairs.len() ==> chars_lt(pairs[i].0, pairs[j].0)
}

/// The views of a list of string pairs.
pub open spec fn pair_views(v: Seq<(String, String)>) -> Seq<(Seq<char>, Seq<char>)> {
    v.map_values(|p: (String, String)| (p.0@, p.1@))
}

/// Writes an object of string members with `serde_json`: the members go
/// into a `Map` (ordered by key) and `Value::to_string` writes the compact
/// text. With keys already strictly increasing, the members keep their order.
#[verifier::external_body]
pub(crate) fn json_string_object(pairs: &Vec<(String, String)>) -> (res: String)
    requires
        keys_sorted(pair_views(pairs@)),
    ensures
        res@ == json_object_text(pair_views(pairs@)),
{
    let mut map = serde_json::Map::new();
    for (key, value) in pairs {
        map.insert(key.clone(), serde_json::Value::String(value.clone()));
    }
    serde_json::Value::Object(map).to_string()
}

} // verus!
