//! The SRUN "xencode" block cipher (an XXTEA variant) and the word packing
//! it runs on.
use vstd::prelude::*;

verus! {

/// The constant added to the round accumulator once per round.
pub const DELTA: u32 = 0x9e37_79b9;

/// Byte `i` of `bytes`, or zero past the end (the zero padding of the last word).
pub open spec fn byte_or_zero(bytes: Seq<u8>, i: int) -> u8 {
    if 0 <= i < bytes.len() {
        bytes[i]
    } else {
        0
    }
}

/// Little-endian word `w` of `bytes`, the last word padded with zeros.
pub open spec fn le_word(bytes: Seq<u8>, w: int) -> u32 {
    (byte_or_zero(bytes, 4 * w) + 256 * byte_or_zero(bytes, 4 * w + 1) + 65536 * byte_or_zero(
        bytes,
        4 * w + 2,
    ) + 16777216 * byte_or_zero(bytes, 4 * w + 3)) as u32
}

/// Number of 4-byte words needed for `n` bytes.
pub open spec fn word_count(n: int) -> int {
    (n + 3) / 4
}

/// `bytes` packed into little-endian words, optionally followed by the
/// byte length (truncated to 32 bits).
pub open spec fn mix_spec(bytes: Seq<u8>, append_size: bool) -> Seq<u32> {
    let words = Seq::new(word_count(bytes.len() as int) as nat, |w: int| le_word(bytes, w));
    if append_size {
        words.push(bytes.len() as u32)
    } else {
        words
    }
}

/// Byte `k` (0 = least significant) of the word `w`.
pub open spec fn word_byte(w: u32, k: int) -> u8 {
    if k == 0 {
        (w % 256) as u8
    } else if k == 1 {
        ((w / 256) % 256) as u8
    } else if k == 2 {
        ((w / 65536) % 256) as u8
    } else {
        (w / 16777216) as u8
    }
}

/// All words written out little-endian, four bytes each.
pub open spec fn words_to_bytes(words: Seq<u32>) -> Seq<u8> {
    Seq::new(4 * words.len(), |i: int| word_byte(words[i / 4], i % 4))
}

/// The byte capacity recorded for all words but the last (truncated to 32 bits).
pub open spec fn recorded_capacity(words: Seq<u32>) -> u32 {
    ((words.len() - 1) * 4) as u32
}

/// The last word, read as a byte length, is plausible for the words before it.
pub open spec fn size_record_fits(words: Seq<u32>) -> bool {
    let size = recorded_capacity(words);
    let low: u32 = if size >= 3 { (size - 3) as u32 } else { 0 };
    low <= words.last() && words.last() <= size
}

/// Words back to bytes; with `include_size`, the last word is a length that
/// must be plausible (else the result is empty) and the bytes are cut to it.
pub open spec fn split_spec(words: Seq<u32>, include_size: bool) -> Seq<u8> {
    if include_size {
        if !size_record_fits(words) {
            Seq::empty()
        } else {
            let all = words_to_bytes(words);
            let keep = words.last() as int;
            if keep < all.len() {
                all.take(keep)
            } else {
                all
            }
        }
    } else {
        words_to_bytes(words)
    }
}

/// The mixing function applied to one word.
pub open spec fn mx(right: u32, left: u32, d: u32, k: u32, m: u32) -> u32 {
    vstd::wrapping::u32_specs::wrapping_add(
        vstd::wrapping::u32_specs::wrapping_add(
            vstd::wrapping::u32_specs::wrapping_add(
                (right >> 5u32) ^ (left << 2u32),
                ((left >> 3u32) ^ (right << 4u32)) ^ (d ^ left),
            ),
            k ^ right,
        ),
        m,
    )
}

/// The key word used at position `p` with round selector `e`.
pub open spec fn key_slot(p: usize, e: u32) -> int {
    ((p & 3usize) ^ (e as usize)) as int
}

/// One pass over the words from position `p` on; returns the words and the
/// last value written.
pub open spec fn pass(v: Seq<u32>, key: Seq<u32>, d: u32, e: u32, p: nat, right: u32) -> (Seq<
    u32,
>, u32)
    decreases v.len() - p,
{
    if p >= v.len() {
        (v, right)
    } else {
        let left = v[((p + 1) % v.len()) as int];
        let r = mx(right, left, d, key[key_slot(p as usize, e)], v[p as int]);
        pass(v.update(p as int, r), key, d, e, p + 1, r)
    }
}

/// The round accumulator after one more round.
pub open spec fn next_d(d: u32) -> u32 {
    vstd::wrapping::u32_specs::wrapping_add(d, DELTA)
}

/// The round selector derived from the accumulator.
pub open spec fn selector(d: u32) -> u32 {
    (d >> 2u32) & 3u32
}

/// `remaining` more rounds over the words.
pub open spec fn run_rounds(v: Seq<u32>, key: Seq<u32>, d: u32, right: u32, remaining: nat) -> Seq<
    u32,
>
    decreases remaining,
{
    if remaining == 0 {
        v
    } else {
        let d2 = next_d(d);
        let (v2, r2) = pass(v, key, d2, selector(d2), 0, right);
        run_rounds(v2, key, d2, r2, (remaining - 1) as nat)
    }
}

/// Number of rounds for `len` words.
pub open spec fn round_count(len: int) -> int {
    6 + 52int / len
}

/// The enciphered words of a non-empty message.
pub open spec fn xencode_words(msg: Seq<u8>, key: Seq<u8>) -> Seq<u32> {
    let v = mix_spec(msg, true);
    run_rounds(v, mix_spec(key, false), 0, v.last(), round_count(v.len() as int) as nat)
}

/// The enciphered bytes: empty for an empty message.
pub open spec fn xencode_spec(msg: Seq<u8>, key: Seq<u8>) -> Seq<u8> {
    if msg.len() == 0 {
        Seq::empty()
    } else {
        split_spec(xencode_words(msg, key), false)
    }
}

/// Packs `buffer` into little-endian words, optionally followed by its length.
pub fn mix(buffer: &[u8], append_size: bool) -> (res: Vec<u32>)
    ensures
        res@ == mix_spec(buffer@, append_size),
{
    let n = buffer.len();
    let count: usize = if n % 4 == 0 {
        n / 4
    } else {
        n / 4 + 1
    };
    let mut res: Vec<u32> = Vec::new();
    let mut w: usize = 0;
    while w < count
        invariant
            n == buffer@.len(),
            count == word_count(n as int),
            w <= count,
            res@.len() == w,
            forall|j: int| 0 <= j < w ==> res@[j] == le_word(buffer@, j),
        decreases count - w,
    {
        let base = 4 * w;
        let b0: u32 = buffer[base] as u32;
        let b1: u32 = if 1 < n - base {
            buffer[base + 1] as u32
        } else {
            0
        };
        let b2: u32 = if 2 < n - base {
            buffer[base + 2] as u32
        } else {
            0
        };
        let b3: u32 = if 3 < n - base {
            buffer[base + 3] as u32
        } else {
            0
        };
        let word = b0 + b1 * 256 + b2 * 65536 + b3 * 16777216;
        res.push(word);
        w = w + 1;
    }
    if append_size {
        res.push(n as u32);
    }
    proof {
        let words = Seq::new(word_count(n as int) as nat, |j: int| le_word(buffer@, j));
        if append_size {
            assert(res@.drop_last() =~= words);
        } else {
            assert(res@ =~= words);
        }
    }
    res
}

/// Unpacks words into bytes; with `include_size`, the last word is the byte
/// length to keep, and an implausible length gives an empty result.
pub fn split(buffer: Vec<u32>, include_size: bool) -> (res: Vec<u8>)
    requires
        buffer@.len() >= 1,
        include_size ==> (buffer@.len() - 1) * 4 <= usize::MAX,
    ensures
        res@ == split_spec(buffer@, include_size),
{
    let len = buffer.len();
    let size_record = buffer[len - 1];
    if include_size {
        let size = ((len - 1) * 4) as u32;
        if size_record < size.saturating_sub(3) || size_record > size {
            return Vec::new();
        }
    }
    let mut bytes: Vec<u8> = Vec::new();
    let mut i: usize = 0;
    while i < len
        invariant
            len == buffer@.len(),
            i <= len,
            bytes@.len() == 4 * i,
            forall|j: int| 0 <= j < 4 * i ==> bytes@[j] == word_byte(buffer@[j / 4], j % 4),
        decreases len - i,
    {
        let w = buffer[i];
        bytes.push((w % 256) as u8);
        bytes.push(((w / 256) % 256) as u8);
        bytes.push(((w / 65536) % 256) as u8);
        bytes.push((w / 16777216) as u8);
        i = i + 1;
    }
    assert(bytes@ =~= words_to_bytes(buffer@));
    if include_size {
        bytes.truncate(size_record as usize);
        proof {
            let all = words_to_bytes(buffer@);
            if (size_record as int) < all.len() {
                assert(bytes@ =~= all.take(size_record as int));
            }
        }
    }
    bytes
}

/// The bytes of a little-endian word read back out of it.
proof fn lemma_word_bytes(b0: u8, b1: u8, b2: u8, b3: u8)
    ensures
        ({
            let w = (b0 + 256 * b1 + 65536 * b2 + 16777216 * b3) as u32;
            &&& word_byte(w, 0) == b0
            &&& word_byte(w, 1) == b1
            &&& word_byte(w, 2) == b2
            &&& word_byte(w, 3) == b3
        }),
{
    let w = (b0 + 256 * b1 + 65536 * b2 + 16777216 * b3) as u32;
    assert(w == b0 + 256 * b1 + 65536 * b2 + 16777216 * b3);
    assert(w % 256 == b0 && (w / 256) % 256 == b1 && (w / 65536) % 256 == b2 && w / 16777216 == b3)
        by (nonlinear_arith)
        requires
            w == b0 + 256 * b1 + 65536 * b2 + 16777216 * b3,
            b0 < 256,
            b1 < 256,
            b2 < 256,
            b3 < 256,
    ;
}

/// Byte `i` of the packed words is byte `i` of the input (zero past its end).
proof fn lemma_packed_byte(b: Seq<u8>, append_size: bool, i: int)
    requires
        0 <= i < 4 * word_count(b.len() as int),
    ensures
        word_byte(mix_spec(b, append_size)[i / 4], i % 4) == byte_or_zero(b, i),
{
    let w = i / 4;
    lemma_word_bytes(
        byte_or_zero(b, 4 * w),
        byte_or_zero(b, 4 * w + 1),
        byte_or_zero(b, 4 * w + 2),
        byte_or_zero(b, 4 * w + 3),
    );
    assert(mix_spec(b, append_size)[w] == le_word(b, w));
}

/// Unpacking words packed with their length gives back the input bytes, for
/// every input whose length and padded length fit the 32-bit size word.
pub proof fn lemma_split_mix_roundtrip(b: Seq<u8>)
    requires
        b.len() <= 0xFFFF_FFFC,
    ensures
        split_spec(mix_spec(b, true), true) == b,
{
    let words = mix_spec(b, true);
    let n = word_count(b.len() as int);
    assert(words.len() == n + 1);
    assert(recorded_capacity(words) == 4 * n);
    assert(words.last() == b.len());
    assert(size_record_fits(words));
    let all = words_to_bytes(words);
    assert forall|i: int| 0 <= i < b.len() implies all.take(b.len() as int)[i] == b[i] by {
        lemma_packed_byte(b, true, i);
    }
    assert(all.take(b.len() as int) =~= b);
}

/// Unpacking words packed without their length gives the input bytes
/// followed by the zero padding of the last word.
pub proof fn lemma_split_mix_padded(b: Seq<u8>)
    ensures
        split_spec(mix_spec(b, false), false).len() == 4 * word_count(b.len() as int),
        split_spec(mix_spec(b, false), false).take(b.len() as int) == b,
        forall|i: int|
            b.len() <= i < 4 * word_count(b.len() as int) ==> #[trigger] split_spec(
                mix_spec(b, false),
                false,
            )[i] == 0,
{
    let out = split_spec(mix_spec(b, false), false);
    assert forall|i: int| 0 <= i < 4 * word_count(b.len() as int) implies #[trigger] out[i]
        == byte_or_zero(b, i) by {
        lemma_packed_byte(b, false, i);
    }
    assert(out.take(b.len() as int) =~= b);
}

/// A pass rewrites words in place: their number is unchanged.
proof fn lemma_pass_len(v: Seq<u32>, key: Seq<u32>, d: u32, e: u32, p: nat, right: u32)
    ensures
        pass(v, key, d, e, p, right).0.len() == v.len(),
    decreases v.len() - p,
{
    if p < v.len() {
        let left = v[((p + 1) % v.len()) as int];
        let r = mx(right, left, d, key[key_slot(p as usize, e)], v[p as int]);
        lemma_pass_len(v.update(p as int, r), key, d, e, p + 1, r);
    }
}

/// Rounds keep the number of words.
proof fn lemma_rounds_len(v: Seq<u32>, key: Seq<u32>, d: u32, right: u32, remaining: nat)
    ensures
        run_rounds(v, key, d, right, remaining).len() == v.len(),
    decreases remaining,
{
    if remaining > 0 {
        let d2 = next_d(d);
        lemma_pass_len(v, key, d2, selector(d2), 0, right);
        let (v2, r2) = pass(v, key, d2, selector(d2), 0, right);
        lemma_rounds_len(v2, key, d2, r2, (remaining - 1) as nat);
    }
}

/// The ciphertext of a non-empty message holds one word per four message
/// bytes plus the length word, four bytes each.
pub proof fn lemma_xencode_len(msg: Seq<u8>, key: Seq<u8>)
    requires
        msg.len() > 0,
    ensures
        xencode_spec(msg, key).len() == 4 * (word_count(msg.len() as int) + 1),
{
    let v = mix_spec(msg, true);
    lemma_rounds_len(v, mix_spec(key, false), 0, v.last(), round_count(v.len() as int) as nat);
}

/// The key word a position reads is one of the first four.
proof fn lemma_key_slot_small(p: usize, e: u32)
    requires
        e <= 3,
    ensures
        0 <= key_slot(p, e) < 4,
{
    let ev = e as usize;
    assert(ev <= 3);
    assert(((p & 3usize) ^ ev) < 4) by (bit_vector)
        requires
            ev <= 3,
    ;
}

/// A pass reads only the first four key words.
proof fn lemma_pass_first_key_words(
    v: Seq<u32>,
    k1: Seq<u32>,
    k2: Seq<u32>,
    d: u32,
    e: u32,
    p: nat,
    right: u32,
)
    requires
        e <= 3,
        k1.len() >= 4,
        k2.len() >= 4,
        forall|i: int| 0 <= i < 4 ==> k1[i] == k2[i],
    ensures
        pass(v, k1, d, e, p, right) == pass(v, k2, d, e, p, right),
    decreases v.len() - p,
{
    if p < v.len() {
        lemma_key_slot_small(p as usize, e);
        let left = v[((p + 1) % v.len()) as int];
        let r = mx(right, left, d, k1[key_slot(p as usize, e)], v[p as int]);
        lemma_pass_first_key_words(v.update(p as int, r), k1, k2, d, e, p + 1, r);
    }
}

/// Rounds read only the first four key words.
proof fn lemma_rounds_first_key_words(
    v: Seq<u32>,
    k1: Seq<u32>,
    k2: Seq<u32>,
    d: u32,
    right: u32,
    remaining: nat,
)
    requires
        k1.len() >= 4,
        k2.len() >= 4,
        forall|i: int| 0 <= i < 4 ==> k1[i] == k2[i],
    ensures
        run_rounds(v, k1, d, right, remaining) == run_rounds(v, k2, d, right, remaining),
    decreases remaining,
{
    if remaining > 0 {
        let d2 = next_d(d);
        assert(selector(d2) <= 3) by (bit_vector)
            requires
                selector(d2) == (d2 >> 2u32) & 3u32,
        ;
        lemma_pass_first_key_words(v, k1, k2, d2, selector(d2), 0, right);
        let (v2, r2) = pass(v, k1, d2, selector(d2), 0, right);
        lemma_rounds_first_key_words(v2, k1, k2, d2, r2, (remaining - 1) as nat);
    }
}

/// The cipher is keyed by the first 16 bytes of the key alone: for a key of
/// at least 16 bytes (every challenge token is longer), the ciphertext is
/// the one under those 16 bytes, whatever follows them.
pub proof fn lemma_xencode_reads_first_16_key_bytes(msg: Seq<u8>, key: Seq<u8>)
    requires
        key.len() >= 16,
    ensures
        xencode_spec(msg, key) == xencode_spec(msg, key.take(16)),
{
    let k1 = mix_spec(key, false);
    let k2 = mix_spec(key.take(16), false);
    assert(word_count(16) == 4);
    assert(k2.len() == 4);
    assert(k1.len() >= 4);
    assert forall|i: int| 0 <= i < 4 implies k1[i] == k2[i] by {
        assert(k1[i] == le_word(key, i));
        assert(k2[i] == le_word(key.take(16), i));
        assert(byte_or_zero(key, 4 * i) == byte_or_zero(key.take(16), 4 * i));
        assert(byte_or_zero(key, 4 * i + 1) == byte_or_zero(key.take(16), 4 * i + 1));
        assert(byte_or_zero(key, 4 * i + 2) == byte_or_zero(key.take(16), 4 * i + 2));
        assert(byte_or_zero(key, 4 * i + 3) == byte_or_zero(key.take(16), 4 * i + 3));
    }
    if msg.len() > 0 {
        let v = mix_spec(msg, true);
        lemma_rounds_first_key_words(v, k1, k2, 0, v.last(), round_count(v.len() as int) as nat);
    }
}

/// Runs all rounds of the cipher over `msg` with the key words `key`.
fn encipher_words(msg: Vec<u32>, key: &Vec<u32>) -> (res: Vec<u32>)
    requires
        msg@.len() >= 1,
        key@.len() >= 4,
    ensures
        res@ == run_rounds(msg@, key@, 0, msg@.last(), round_count(msg@.len() as int) as nat),
        res@.len() == msg@.len(),
{
    let mut msg = msg;
    let len = msg.len();
    let last = len - 1;
    let mut right = msg[last];
    let mut d: u32 = 0;
    let count = 6 + 52 / len;
    let ghost v0 = msg@;
    let mut r: usize = 0;
    while r < count
        invariant
            len == msg@.len(),
            len >= 1,
            key@.len() >= 4,
            r <= count,
            count == round_count(v0.len() as int),
            run_rounds(msg@, key@, d, right, (count - r) as nat) == run_rounds(
                v0,
                key@,
                0,
                v0.last(),
                count as nat,
            ),
        decreases count - r,
    {
        let ghost d_old = d;
        d = d.wrapping_add(DELTA);
        let e = d >> 2 & 3;
        assert(e <= 3) by (bit_vector)
            requires
                e == (d >> 2u32) & 3u32,
        ;
        let ghost vs = msg@;
        let ghost rs = right;
        let mut p: usize = 0;
        while p < len
            invariant
                len == msg@.len(),
                len >= 1,
                key@.len() >= 4,
                p <= len,
                e <= 3,
                e == selector(d),
                d == next_d(d_old),
                pass(msg@, key@, d, e, p as nat, right) == pass(vs, key@, d, e, 0, rs),
            decreases len - p,
        {
            let left = msg[(p + 1) % len];
            let slot = (p & 3) ^ (e as usize);
            assert(slot < 4) by (bit_vector)
                requires
                    slot == (p & 3usize) ^ (e as usize),
                    e <= 3,
            ;
            assert(slot as int == key_slot(p, e));
            right = ((right >> 5) ^ (left << 2)).wrapping_add((left >> 3 ^ right << 4) ^ (d ^ left)).wrapping_add(
                key[slot] ^ right,
            ).wrapping_add(msg[p]);
            msg.set(p, right);
            p = p + 1;
        }
        r = r + 1;
    }
    msg
}

/// Enciphers the UTF-8 bytes of `msg` under the UTF-8 bytes of `key`.
///
/// The key must pack into at least four words: a shorter key indexes past
/// the key words on the first rounds.
pub fn xencode(msg: &str, key: &str) -> (res: Vec<u8>)
    requires
        vstd::utf8::encode_utf8(msg@).len() == 0 || vstd::utf8::encode_utf8(key@).len() >= 13,
    ensures
        res@ == xencode_spec(vstd::utf8::encode_utf8(msg@), vstd::utf8::encode_utf8(key@)),
{
    let msg_bytes = msg.as_bytes();
    if msg_bytes.len() == 0 {
        return Vec::new();
    }
    let words = mix(msg_bytes, true);
    let key_words = mix(key.as_bytes(), false);
    let out = encipher_words(words, &key_words);
    split(out, false)
}

} // verus!
