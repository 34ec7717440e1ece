//! The digests and encodings of the login request: HMAC-MD5 and SHA-1 in
//! lower-case hex, and base64 over the portal's own alphabet.
use vstd::prelude::*;
use crate::error::SrunError;

verus! {

/// The HMAC-MD5 tag of `message` under `key` (RFC 2104 over MD5).
pub uninterp spec fn hmac_md5(key: Seq<u8>, message: Seq<u8>) -> Seq<u8>;

/// The SHA-1 digest of `data` (FIPS 180-4).
pub uninterp spec fn sha1(data: Seq<u8>) -> Seq<u8>;

/// Computes HMAC-MD5 with the `hmac` and `md-5` crates.
///
/// HMAC accepts a key of any length, so `new_from_slice` never fails; the
/// tag is 16 bytes.
#[verifier::external_body]
fn hmac_md5_bytes(key: &[u8], message: &[u8]) -> (res: Option<Vec<u8>>)
    ensures
        res is Some,
        res matches Some(t) ==> t@ == hmac_md5(key@, message@) && t@.len() == 16,
{
    let mut mac = match <hmac::Hmac<md5::Md5> as hmac::Mac>::new_from_slice(key) {
        Ok(m) => m,
        Err(_) => return None,
    };
    hmac::Mac::update(&mut mac, message);
    Some(hmac::Mac::finalize(mac).into_bytes().to_vec())
}

/// Computes SHA-1 with the `sha1` crate; the digest is 20 bytes.
#[verifier::external_body]
fn sha1_bytes(data: &[u8]) -> (res: Vec<u8>)
    ensures
        res@ == sha1(data@),
        res@.len() == 20,
{
    <sha1::Sha1 as sha1::Digest>::digest(data).to_vec()
}

/// A lower-case hexadecimal digit for a value below 16.
pub open spec fn hex_digit(n: int) -> char {
    if n < 10 {
        (('0' as u32) + n) as char
    } else {
        (('a' as u32) + n - 10) as char
    }
}

/// `bytes` as lower-case hex, two digits per byte (`{:x}` on a digest).
pub open spec fn hex_lower(bytes: Seq<u8>) -> Seq<char>
    decreases bytes.len(),
{
    if bytes.len() == 0 {
        Seq::empty()
    } else {
        hex_lower(bytes.drop_last()) + seq![
            hex_digit((bytes.last() / 16) as int),
            hex_digit((bytes.last() % 16) as int),
        ]
    }
}

/// A lower-case hexadecimal digit.
pub open spec fn is_lower_hex_digit(c: char) -> bool {
    ('0' <= c && c <= '9') || ('a' <= c && c <= 'f')
}

/// Hex text has two lower-case hex digits per byte.
pub proof fn lemma_hex_lower_shape(bytes: Seq<u8>)
    ensures
        hex_lower(bytes).len() == 2 * bytes.len(),
        forall|i: int| 0 <= i < hex_lower(bytes).len() ==> is_lower_hex_digit(
            #[trigger] hex_lower(bytes)[i],
        ),
    decreases bytes.len(),
{
    if bytes.len() > 0 {
        lemma_hex_lower_shape(bytes.drop_last());
        let hi = (bytes.last() / 16) as int;
        let lo = (bytes.last() % 16) as int;
        assert(is_lower_hex_digit(hex_digit(hi)));
        assert(is_lower_hex_digit(hex_digit(lo)));
    }
}

/// The lower-case hex digit for `n` below 16.
fn hex_digit_char(n: u8) -> (res: char)
    requires
        n < 16,
    ensures
        res == hex_digit(n as int),
{
    if n < 10 {
        (n + 48) as char
    } else {
        (n + 87) as char
    }
}

/// `bytes` as lower-case hex.
pub fn to_hex_lower(bytes: &[u8]) -> (res: String)
    ensures
        res@ == hex_lower(bytes@),
{
    let mut out: Vec<char> = Vec::new();
    let mut i: usize = 0;
    while i < bytes.len()
        invariant
            i <= bytes@.len(),
            out@ == hex_lower(bytes@.take(i as int)),
        decreases bytes@.len() - i,
    {
        let b = bytes[i];
        out.push(hex_digit_char(b / 16));
        out.push(hex_digit_char(b % 16));
        assert(bytes@.take(i + 1).drop_last() =~= bytes@.take(i as int));
        i = i + 1;
        assert(out@ =~= hex_lower(bytes@.take(i as int)));
    }
    assert(bytes@.take(bytes@.len() as int) =~= bytes@);
    crate::text::string_from(out.as_slice())
}

/// The HMAC-MD5 of the password keyed by the challenge token, in hex.
pub fn hmac_md5_hex(password: &str, token: &str) -> (res: Result<String, SrunError>)
    ensures
        res matches Ok(h) && h@ == hex_lower(
            hmac_md5(vstd::utf8::encode_utf8(token@), vstd::utf8::encode_utf8(password@)),
        ),
        res matches Ok(h) ==> h@.len() == 32 && forall|i: int|
            0 <= i < 32 ==> is_lower_hex_digit(#[trigger] h@[i]),
{
    match hmac_md5_bytes(token.as_bytes(), password.as_bytes()) {
        Some(tag) => {
            proof {
                lemma_hex_lower_shape(tag@);
            }
            Ok(to_hex_lower(tag.as_slice()))
        },
        None => Err(SrunError::HmacKey),
    }
}

/// The SHA-1 of the UTF-8 bytes of `input`, in hex.
pub fn sha1_hex(input: &str) -> (res: String)
    ensures
        res@ == hex_lower(sha1(vstd::utf8::encode_utf8(input@))),
        res@.len() == 40,
        forall|i: int| 0 <= i < 40 ==> is_lower_hex_digit(#[trigger] res@[i]),
{
    let d = sha1_bytes(input.as_bytes());
    proof {
        lemma_hex_lower_shape(d@);
    }
    to_hex_lower(d.as_slice())
}

/// A base64 alphabet the `base64` crate accepts: 64 distinct printable
/// ASCII characters other than the padding `=`.
pub open spec fn alphabet_ok(a: Seq<char>) -> bool {
    &&& a.len() == 64
    &&& forall|i: int| 0 <= i < 64 ==> 32 <= #[trigger] (a[i] as u32) <= 126 && a[i] != '='
    &&& forall|i: int, j: int| 0 <= i < j < 64 ==> #[trigger] a[i] != #[trigger] a[j]
}

/// Padded base64 (RFC 4648) of `data` over the alphabet `a`.
pub open spec fn base64_encode(a: Seq<char>, data: Seq<u8>) -> Seq<char>
    decreases data.len(),
{
    if data.len() == 0 {
        Seq::empty()
    } else {
        let b0 = data[0] as int;
        let b1 = if data.len() > 1 {
            data[1] as int
        } else {
            0
        };
        let b2 = if data.len() > 2 {
            data[2] as int
        } else {
            0
        };
        let c0 = a[b0 / 4];
        let c1 = a[(b0 % 4) * 16 + b1 / 16];
        let c2 = if data.len() > 1 {
            a[(b1 % 16) * 4 + b2 / 64]
        } else {
            '='
        };
        let c3 = if data.len() > 2 {
            a[b2 % 64]
        } else {
            '='
        };
        if data.len() <= 3 {
            seq![c0, c1, c2, c3]
        } else {
            seq![c0, c1, c2, c3] + base64_encode(a, data.skip(3))
        }
    }
}

/// Encodes with the `base64` crate's general-purpose engine (padding on)
/// over a custom alphabet; `None` when `Alphabet::new` refuses the alphabet.
#[verifier::external_body]
fn encode_base64_with(alphabet: &str, payload: &[u8]) -> (res: Option<String>)
    requires
        payload@.len() <= usize::MAX / 2,
    ensures
        res is Some <==> alphabet_ok(alphabet@),
        res matches Some(t) ==> t@ == base64_encode(alphabet@, payload@),
{
    let alphabet = match base64::alphabet::Alphabet::new(alphabet) {
        Ok(a) => a,
        Err(_) => return None,
    };
    let config = base64::engine::GeneralPurposeConfig::new();
    let engine = base64::engine::GeneralPurpose::new(&alphabet, config);
    Some(base64::Engine::encode(&engine, payload))
}

/// The portal's base64 alphabet.
pub open spec fn portal_alphabet() -> Seq<char> {
    "LVoJPiCN2R8G90yg+hmFHuacZ1OWMnrsSTXkYpUq/3dlbfKwv6xztjI7DeBE45QA"@
}

/// Base64 of `payload` over the portal's alphabet.
pub fn fkbase64(payload: Vec<u8>) -> (res: String)
    requires
        payload@.len() <= usize::MAX / 2,
    ensures
        res@ == base64_encode(portal_alphabet(), payload@),
{
    let alphabet = "LVoJPiCN2R8G90yg+hmFHuacZ1OWMnrsSTXkYpUq/3dlbfKwv6xztjI7DeBE45QA";
    proof {
        reveal_strlit("LVoJPiCN2R8G90yg+hmFHuacZ1OWMnrsSTXkYpUq/3dlbfKwv6xztjI7DeBE45QA");
        assert(alphabet_ok(alphabet@));
    }
    match encode_base64_with(alphabet, payload.as_slice()) {
        Some(t) => t,
        None => String::new(),
    }
}

} // verus!
