//! Start-up entries: whether a Run registry value or a start-up script
//! launches this program.
use vstd::prelude::*;
use crate::error::SrunError;
use crate::ipconfig::{before_first, before_first_chars, first_word, word_end};
use crate::netif::same_chars;
use crate::text::{
    append_str, chars_of, contains, contains_chars, first_kept, is_ws_char, lower,
    lowercase_chars, replace_all, replace_chars, slice_chars, string_from, string_of, trim,
    trim_chars, trim_str,
};

verus! {

/// The program a start-up command line names: the quoted path when it
/// starts with a quote (up to the closing quote, or to the end), else its
/// first word.
pub open spec fn command_program(value: Seq<char>) -> Seq<char> {
    let command = trim(value);
    if command.len() > 0 && command[0] == '"' {
        before_first(command.drop_first(), '"')
    } else {
        match first_word(command) {
            Some(w) => w,
            None => Seq::empty(),
        }
    }
}

/// The first word of `v`, or nothing.
fn first_word_chars(v: &[char]) -> (res: Vec<char>)
    ensures
        res@ == (match first_word(v@) {
            Some(w) => w,
            None => Seq::empty(),
        }),
{
    let n = v.len();
    let mut a: usize = 0;
    while a < n && is_ws_char(v[a])
        invariant
            a <= n,
            n == v@.len(),
            first_kept(v@, a as int) == first_kept(v@, 0),
        decreases n - a,
    {
        a = a + 1;
    }
    if a >= n {
        return Vec::new();
    }
    let mut b: usize = a;
    while b < n && !is_ws_char(v[b])
        invariant
            a <= b <= n,
            n == v@.len(),
            word_end(v@, b as int) == word_end(v@, a as int),
        decreases n - b,
    {
        b = b + 1;
    }
    slice_chars(v, a, b)
}

/// Whether the Run value `value` launches the program at `exe`: the
/// program it names equals the path, ignoring ASCII case.
pub fn startup_value_matches_executable(value: &str, exe: &str) -> (res: bool)
    ensures
        res == (lower(command_program(value@)) == lower(trim(exe@))),
{
    let command = trim_str(value);
    let program = if command.len() > 0 && command[0] == '"' {
        let rest = slice_chars(command.as_slice(), 1, command.len());
        assert(rest@ =~= command@.drop_first());
        before_first_chars(rest.as_slice(), '"')
    } else {
        first_word_chars(command.as_slice())
    };
    let p = lowercase_chars(program.as_slice());
    let e = trim_str(exe);
    let le = lowercase_chars(e.as_slice());
    same_chars(p.as_slice(), le.as_slice())
}

/// Whether the start-up script `script` mentions the program at `exe`,
/// ignoring ASCII case.
pub fn startup_script_matches_executable(script: &str, exe: &str) -> (res: bool)
    ensures
        res == contains(lower(script@), lower(trim(exe@))),
{
    let s = chars_of(script);
    let ls = lowercase_chars(s.as_slice());
    let e = trim_str(exe);
    let le = lowercase_chars(e.as_slice());
    contains_chars(ls.as_slice(), le.as_slice())
}


/// The Run registry value that launches the program at `exe`: its path in
/// double quotes.
pub fn startup_command_value(exe: &str) -> (res: String)
    ensures
        res@ == "\""@ + exe@ + "\""@,
{
    let mut v = chars_of("\"");
    append_str(&mut v, exe);
    append_str(&mut v, "\"");
    string_from(v.as_slice())
}

/// The start-up script that launches the program at `exe` with no window
/// (double quotes in the path doubled, as VBScript wants).
pub open spec fn startup_script_spec(exe: Seq<char>) -> Seq<char> {
    "Dim shell\r\nSet shell = CreateObject(\"WScript.Shell\")\r\nshell.Run \""@ + replace_all(
        exe,
        "\""@,
        "\"\""@,
    ) + "\", 0, False\r\n"@
}

/// Writes the start-up script that launches the program at `exe`.
pub fn startup_script_text(exe: &str) -> (res: String)
    ensures
        res@ == startup_script_spec(exe@),
{
    let e = chars_of(exe);
    let quote = chars_of("\"");
    let doubled = chars_of("\"\"");
    proof {
        reveal_strlit("\"");
    }
    let escaped = replace_chars(e.as_slice(), quote.as_slice(), doubled.as_slice());
    let mut v = chars_of("Dim shell\r\nSet shell = CreateObject(\"WScript.Shell\")\r\nshell.Run \"");
    let s = string_from(escaped.as_slice());
    append_str(&mut v, s.as_str());
    append_str(&mut v, "\", 0, False\r\n");
    string_from(v.as_slice())
}

/// The UTF-16 code units of a character.
pub open spec fn utf16_units(c: char) -> Seq<u16> {
    let u = c as u32;
    if u < 0x10000 {
        seq![u as u16]
    } else {
        seq![(0xD800 + (u - 0x10000) / 0x400) as u16, (0xDC00 + (u - 0x10000) % 0x400) as u16]
    }
}

/// The bytes of a code unit, low byte first.
pub open spec fn unit_bytes(w: u16) -> Seq<u8> {
    seq![(w % 256) as u8, (w / 256) as u8]
}

/// A character as UTF-16 little-endian bytes.
pub open spec fn char_utf16le(c: char) -> Seq<u8> {
    let units = utf16_units(c);
    if units.len() == 1 {
        unit_bytes(units[0])
    } else {
        unit_bytes(units[0]) + unit_bytes(units[1])
    }
}

/// A text as UTF-16 little-endian bytes.
pub open spec fn utf16le(s: Seq<char>) -> Seq<u8>
    decreases s.len(),
{
    if s.len() == 0 {
        Seq::empty()
    } else {
        utf16le(s.drop_last()) + char_utf16le(s.last())
    }
}

/// Appends a code unit, low byte first.
fn push_unit(out: &mut Vec<u8>, w: u16)
    ensures
        final(out)@ == old(out)@ + unit_bytes(w),
{
    out.push((w % 256) as u8);
    out.push((w / 256) as u8);
    assert(out@ =~= old(out)@ + unit_bytes(w));
}

/// A text as UTF-16 little-endian bytes after the byte-order mark
/// `FF FE`, as the start-up script is written.
pub fn utf16le_with_bom(text: &str) -> (res: Vec<u8>)
    ensures
        res@ == seq![0xFFu8, 0xFEu8] + utf16le(text@),
{
    let chars = chars_of(text);
    let mut out: Vec<u8> = Vec::new();
    out.push(0xFF);
    out.push(0xFE);
    let mut i: usize = 0;
    while i < chars.len()
        invariant
            i <= chars@.len(),
            out@ == seq![0xFFu8, 0xFEu8] + utf16le(chars@.take(i as int)),
        decreases chars@.len() - i,
    {
        let c = chars[i];
        let u = c as u32;
        let ghost before = out@;
        proof {
            let t = chars@.take(i + 1);
            assert(t.drop_last() =~= chars@.take(i as int));
            assert(t.last() == c);
        }
        if u < 0x10000 {
            push_unit(&mut out, u as u16);

        } else {
            let v = u - 0x10000;
            let hi = (0xD800 + v / 0x400) as u16;
            let lo = (0xDC00 + v % 0x400) as u16;
            push_unit(&mut out, hi);
            push_unit(&mut out, lo);

        }
        assert(out@ =~= seq![0xFFu8, 0xFEu8] + utf16le(chars@.take(i + 1)));
        i = i + 1;
    }
    assert(chars@.take(chars@.len() as int) =~= chars@);
    out
}


/// The text `String::from_utf16_lossy` makes of UTF-16 code units: a unit
/// outside the surrogate range is its own character, a high surrogate
/// followed by a low one is the character they encode, and any other
/// surrogate becomes U+FFFD.
pub open spec fn utf16_lossy(units: Seq<u16>) -> Seq<char>
    decreases units.len(),
{
    if units.len() == 0 {
        Seq::empty()
    } else if units[0] < 0xD800 || units[0] > 0xDFFF {
        seq![(units[0] as u32) as char] + utf16_lossy(units.drop_first())
    } else if units[0] <= 0xDBFF && units.len() > 1 && 0xDC00 <= units[1] && units[1] <= 0xDFFF {
        seq![
            ((0x10000 + (units[0] - 0xD800) * 0x400 + (units[1] - 0xDC00)) as u32) as char,
        ] + utf16_lossy(units.subrange(2, units.len() as int))
    } else {
        seq!['\u{FFFD}'] + utf16_lossy(units.drop_first())
    }
}

/// The text `String::from_utf8_lossy` makes of bytes (malformed sequences
/// become U+FFFD).
pub uninterp spec fn utf8_lossy(bytes: Seq<u8>) -> Seq<char>;

/// Decodes UTF-16 with `String::from_utf16_lossy`, whose documented
/// behaviour `utf16_lossy` writes out.
#[verifier::external_body]
fn decode_utf16_lossy(units: &[u16]) -> (res: String)
    ensures
        res@ == utf16_lossy(units@),
{
    String::from_utf16_lossy(units)
}

/// Decodes UTF-8 with `String::from_utf8_lossy`.
#[verifier::external_body]
fn decode_utf8_lossy(bytes: &[u8]) -> (res: String)
    ensures
        res@ == utf8_lossy(bytes@),
{
    String::from_utf8_lossy(bytes).into_owned()
}

/// The little-endian code units in `bytes` from `from` on, a trailing odd
/// byte left out.
pub open spec fn le_units(bytes: Seq<u8>, from: int) -> Seq<u16>
    decreases bytes.len() - from,
{
    if from < 0 || from + 2 > bytes.len() {
        Seq::empty()
    } else {
        seq![(bytes[from] + bytes[from + 1] * 256) as u16] + le_units(bytes, from + 2)
    }
}

/// The code units up to the first NUL.
pub open spec fn before_nul(units: Seq<u16>) -> Seq<u16>
    decreases units.len(),
{
    if units.len() == 0 || units[0] == 0 {
        Seq::empty()
    } else {
        seq![units[0]] + before_nul(units.drop_first())
    }
}

/// The code units in `bytes` from `from` on.
fn le_units_exec(bytes: &[u8], from: usize) -> (res: Vec<u16>)
    ensures
        res@ == le_units(bytes@, from as int),
{
    let mut out: Vec<u16> = Vec::new();
    let mut i = from;
    if i > bytes.len() {
        return out;
    }
    while bytes.len() - i >= 2
        invariant
            from <= i <= bytes@.len(),
            (i - from) % 2 == 0,
            le_units(bytes@, from as int) == out@ + le_units(bytes@, i as int),
        decreases bytes@.len() - i,
    {
        let w = (bytes[i] as u16) + (bytes[i + 1] as u16) * 256;
        out.push(w);
        i = i + 2;
    }
    assert(le_units(bytes@, i as int) =~= Seq::<u16>::empty());
    assert(out@ + Seq::<u16>::empty() =~= out@);
    out
}

/// What a start-up script file holds, as text: UTF-16 after a `FF FE`
/// byte-order mark, else UTF-8 (lossy either way).
pub open spec fn startup_script_file_text(bytes: Seq<u8>) -> Seq<char> {
    if bytes.len() >= 2 && bytes[0] == 0xFF && bytes[1] == 0xFE {
        utf16_lossy(le_units(bytes, 2))
    } else {
        utf8_lossy(bytes)
    }
}

/// Reads a start-up script file's bytes as text.
pub fn startup_script_from_bytes(bytes: &[u8]) -> (res: String)
    ensures
        res@ == startup_script_file_text(bytes@),
{
    if bytes.len() >= 2 && bytes[0] == 0xFF && bytes[1] == 0xFE {
        let units = le_units_exec(bytes, 2);
        decode_utf16_lossy(units.as_slice())
    } else {
        decode_utf8_lossy(bytes)
    }
}

/// Reads a Run registry value's bytes (UTF-16, up to the first NUL); an
/// odd number of bytes is not UTF-16.
pub fn registry_string_from_bytes(bytes: &[u8]) -> (res: Result<String, SrunError>)
    ensures
        match res {
            Ok(t) => bytes@.len() % 2 == 0 && t@ == utf16_lossy(before_nul(le_units(bytes@, 0))),
            Err(e) => bytes@.len() % 2 == 1 && e == SrunError::StartupValueEncoding,
        },
{
    if bytes.len() % 2 == 1 {
        return Err(SrunError::StartupValueEncoding);
    }
    let units = le_units_exec(bytes, 0);
    let mut n: usize = 0;
    assert(units@.skip(0) =~= units@);
    assert(units@.take(0) + units@ =~= units@);
    while n < units.len() && units[n] != 0
        invariant
            n <= units@.len(),
            before_nul(units@) == units@.take(n as int) + before_nul(units@.skip(n as int)),
        decreases units@.len() - n,
    {
        proof {
            let r = units@.skip(n as int);
            assert(r.drop_first() =~= units@.skip(n + 1));
            assert(units@.take(n + 1) =~= units@.take(n as int) + seq![r[0]]);
        }
        n = n + 1;
    }
    proof {
        assert(before_nul(units@.skip(n as int)) =~= Seq::<u16>::empty());
    }
    let mut head: Vec<u16> = Vec::new();
    let mut k: usize = 0;
    while k < n
        invariant
            k <= n <= units@.len(),
            head@ == units@.take(k as int),
        decreases n - k,
    {
        head.push(units[k]);
        k = k + 1;
        assert(head@ =~= units@.take(k as int));
    }
    assert(head@ + Seq::<u16>::empty() =~= head@);
    Ok(decode_utf16_lossy(head.as_slice()))
}


/// The failure reported when neither start-up entry could be confirmed:
/// why the registry entry and why the script failed (or that checking
/// them failed).
pub fn startup_unverified_text(registry_error: Option<&str>, script_error: Option<&str>) -> (res:
    String)
    ensures
        res@ == "startup entry could not be verified ("@ + (match registry_error {
            Some(e) => "注册表："@ + e@,
            None => "注册表校验失败"@,
        }) + "; "@ + (match script_error {
            Some(e) => "启动文件夹："@ + e@,
            None => "启动文件夹校验失败"@,
        }) + ")"@,
{
    let mut v = chars_of("startup entry could not be verified (");
    match registry_error {
        Some(e) => {
            append_str(&mut v, "注册表：");
            append_str(&mut v, e);
        },
        None => append_str(&mut v, "注册表校验失败"),
    }
    append_str(&mut v, "; ");
    match script_error {
        Some(e) => {
            append_str(&mut v, "启动文件夹：");
            append_str(&mut v, e);
        },
        None => append_str(&mut v, "启动文件夹校验失败"),
    }
    append_str(&mut v, ")");
    string_from(v.as_slice())
}

/// What to do at start about the start-up entry: reinstall it when the
/// settings want it, else record it in the settings when one is present.
pub fn startup_restore_plan(saved_enabled: bool, entry_present: bool) -> (res: (bool, bool))
    ensures
        res == (saved_enabled, !saved_enabled && entry_present),
{
    if saved_enabled {
        (true, false)
    } else {
        (false, entry_present)
    }
}

} // verus!
