//! Base64 and UTF-16 encodings: PowerShell scripts receive and return text
//! as base64 of UTF-16LE, the clipboard holds NUL-terminated UTF-16, and
//! the remote shell helper returns base64 of UTF-8.
use vstd::prelude::*;
use crate::text::{chars_of, string_from_chars};

verus! {

/// The base64 alphabet.
pub open spec fn base64_char(v: nat) -> char {
    if v < 26 {
        ((v + 65) as u8) as char
    } else if v < 52 {
        ((v + 71) as u8) as char
    } else if v < 62 {
        ((v - 4) as u8) as char
    } else if v == 62 {
        '+'
    } else {
        '/'
    }
}

/// The 24-bit group of the bytes `3g .. 3g + 3`, missing bytes as zero.
pub open spec fn base64_group(b: Seq<u8>, g: int) -> nat {
    let b0 = b[3 * g] as nat;
    let b1 = if 3 * g + 1 < b.len() {
        b[3 * g + 1] as nat
    } else {
        0
    };
    let b2 = if 3 * g + 2 < b.len() {
        b[3 * g + 2] as nat
    } else {
        0
    };
    b0 * 65536 + b1 * 256 + b2
}

/// Character `j` of the base64 encoding of `b`: four characters per group
/// of three bytes, each six bits of the group, with `=` where the group
/// has no byte.
pub open spec fn base64_encoded_char(b: Seq<u8>, j: int) -> char {
    let g = j / 4;
    let k = j % 4;
    let t = base64_group(b, g);
    if k == 2 && 3 * g + 1 >= b.len() {
        '='
    } else if k == 3 && 3 * g + 2 >= b.len() {
        '='
    } else if k == 0 {
        base64_char((t / 262144) % 64)
    } else if k == 1 {
        base64_char((t / 4096) % 64)
    } else if k == 2 {
        base64_char((t / 64) % 64)
    } else {
        base64_char(t % 64)
    }
}

/// Base64 (standard alphabet, padded) of `b`.
pub open spec fn spec_encode_base64(b: Seq<u8>) -> Seq<char> {
    Seq::new((4 * ((b.len() + 2) / 3)) as nat, |j: int| base64_encoded_char(b, j))
}

fn base64_char_exec(v: u32) -> (c: char)
    requires
        v < 64,
    ensures
        c == base64_char(v as nat),
{
    if v < 26 {
        ((v + 65) as u8) as char
    } else if v < 52 {
        ((v + 71) as u8) as char
    } else if v < 62 {
        ((v - 4) as u8) as char
    } else if v == 62 {
        '+'
    } else {
        '/'
    }
}

proof fn lemma_sextets(t: u32)
    requires
        t < 0x100_0000,
    ensures
        (t >> 18) & 0x3F == (t / 262144) % 64,
        (t >> 12) & 0x3F == (t / 4096) % 64,
        (t >> 6) & 0x3F == (t / 64) % 64,
        t & 0x3F == t % 64,
{
    assert((t >> 18) & 0x3F == (t / 262144) % 64) by (bit_vector)
        requires
            t < 0x100_0000,
    ;
    assert((t >> 12) & 0x3F == (t / 4096) % 64) by (bit_vector)
        requires
            t < 0x100_0000,
    ;
    assert((t >> 6) & 0x3F == (t / 64) % 64) by (bit_vector)
        requires
            t < 0x100_0000,
    ;
    assert(t & 0x3F == t % 64) by (bit_vector);
}

/// Base64 of `bytes`.
pub fn encode_base64(bytes: &[u8]) -> (r: String)
    ensures
        r@ == spec_encode_base64(bytes@),
{
    let mut out: Vec<char> = Vec::new();
    let n = bytes.len();
    let mut i: usize = 0;
    while i < n
        invariant
            n == bytes.len(),
            i <= n + 2,
            i % 3 == 0,
            i >= n ==> i < n + 3,
            out@.len() == 4 * (i / 3),
            forall|j: int| 0 <= j < out@.len() ==> out@[j] == #[trigger] base64_encoded_char(bytes@, j),
        decreases n + 3 - i,
    {
        let b0 = bytes[i] as u32;
        let b1: u32 = if i + 1 < n {
            bytes[i + 1] as u32
        } else {
            0
        };
        let b2: u32 = if i + 2 < n {
            bytes[i + 2] as u32
        } else {
            0
        };
        let t: u32 = b0 * 65536 + b1 * 256 + b2;
        let ghost g = (i / 3) as int;
        proof {
            lemma_sextets(t);
            assert(3 * g == i);
            assert(t as nat == base64_group(bytes@, g));
        }
        let ghost base = out@.len() as int;
        out.push(base64_char_exec((t >> 18) & 0x3F));
        out.push(base64_char_exec((t >> 12) & 0x3F));
        if i + 1 < n {
            out.push(base64_char_exec((t >> 6) & 0x3F));
        } else {
            out.push('=');
        }
        if i + 2 < n {
            out.push(base64_char_exec(t & 0x3F));
        } else {
            out.push('=');
        }
        proof {
            assert(base == 4 * g);
            assert forall|j: int| 0 <= j < out@.len() implies out@[j]
                == #[trigger] base64_encoded_char(bytes@, j) by {
                if j >= base {
                    assert(j / 4 == g);
                    assert(j % 4 == j - base);
                }
            }
        }
        i = i + 3;
    }
    proof {
        assert(out@.len() == 4 * ((n + 2) / 3));
        assert(out@ == spec_encode_base64(bytes@));
    }
    string_from_chars(&out)
}

/// The value of a base64 alphabet byte.
pub open spec fn spec_base64_value(byte: u8) -> Option<u8> {
    if 65 <= byte <= 90 {
        Some((byte - 65) as u8)
    } else if 97 <= byte <= 122 {
        Some((byte - 71) as u8)
    } else if 48 <= byte <= 57 {
        Some((byte + 4) as u8)
    } else if byte == 43 {
        Some(62)
    } else if byte == 47 {
        Some(63)
    } else {
        None
    }
}

pub fn base64_value(byte: u8) -> (r: Option<u8>)
    ensures
        r == spec_base64_value(byte),
{
    if 65 <= byte && byte <= 90 {
        Some(byte - 65)
    } else if 97 <= byte && byte <= 122 {
        Some(byte - 71)
    } else if 48 <= byte && byte <= 57 {
        Some(byte + 4)
    } else if byte == 43 {
        Some(62)
    } else if byte == 47 {
        Some(63)
    } else {
        None
    }
}

/// The base64 alphabet character of a value reads back as that value.
pub proof fn law_base64_alphabet_round_trip(v: nat)
    requires
        v < 64,
    ensures
        spec_base64_value(base64_char(v) as u8) == Some(v as u8),
{
}

/// ASCII white space: space, tab, line feed, form feed, carriage return.
pub open spec fn is_ascii_whitespace_byte(b: u8) -> bool {
    b == 32 || b == 9 || b == 10 || b == 12 || b == 13
}

/// Why base64 text did not decode.
#[derive(Debug, Clone, Copy, PartialEq, Eq, Structural)]
pub enum Base64Error {
    /// A byte other than `=` after the padding.
    NonPaddingAfterPadding,
    /// A byte outside the alphabet.
    InvalidByte(u8),
}

/// Reading base64 bytes from the front: white space is skipped, `=` starts
/// the padding, after which only `=` may follow; the values of the
/// alphabet bytes before the padding, or the first error met.
pub open spec fn base64_sextets(b: Seq<u8>, padded: bool) -> Result<Seq<nat>, Base64Error>
    decreases b.len(),
{
    if b.len() == 0 {
        Ok(Seq::empty())
    } else if is_ascii_whitespace_byte(b[0]) {
        base64_sextets(b.drop_first(), padded)
    } else if b[0] == 61 {
        base64_sextets(b.drop_first(), true)
    } else if padded {
        Err(Base64Error::NonPaddingAfterPadding)
    } else {
        match spec_base64_value(b[0]) {
            None => Err(Base64Error::InvalidByte(b[0])),
            Some(v) => match base64_sextets(b.drop_first(), false) {
                Ok(rest) => Ok(seq![v as nat] + rest),
                Err(e) => Err(e),
            },
        }
    }
}

/// The number that the 6-bit values `s` spell, most significant first.
pub open spec fn sextet_number(s: Seq<nat>) -> nat
    decreases s.len(),
{
    if s.len() == 0 {
        0
    } else {
        sextet_number(s.drop_last()) * 64 + s.last()
    }
}

/// Byte `j` of the bit string of `s`: bits `8j .. 8j + 8`, read once the
/// first sextets covering them are in.
pub open spec fn decoded_byte(s: Seq<nat>, j: int) -> u8 {
    let m = (8 * (j + 1) + 5) / 6;
    ((sextet_number(s.take(m)) / vstd::arithmetic::power2::pow2((6 * m - 8 * (j + 1)) as nat))
        % 256) as u8
}

/// The bytes that base64 text decodes to, or the first error in it.
pub open spec fn spec_decode_base64(b: Seq<u8>) -> Result<Seq<u8>, Base64Error> {
    match base64_sextets(b, false) {
        Err(e) => Err(e),
        Ok(s) => Ok(Seq::new((6 * s.len() / 8) as nat, |j: int| decoded_byte(s, j))),
    }
}

} // verus!

verus! {

/// `Ok(prefix + rest)` for `Ok(rest)`; an error stays.
pub open spec fn prepend_sextets(prefix: Seq<nat>, r: Result<Seq<nat>, Base64Error>) -> Result<
    Seq<nat>,
    Base64Error,
> {
    match r {
        Ok(rest) => Ok(prefix + rest),
        Err(e) => Err(e),
    }
}

proof fn lemma_add_sextet(x: nat, v: nat, b: nat)
    requires
        v < 64,
        b == 0 || b == 2 || b == 4 || b == 6,
    ensures
        (x % vstd::arithmetic::power2::pow2(b)) * 64 + v == (x * 64 + v)
            % vstd::arithmetic::power2::pow2(b + 6),
{
    vstd::arithmetic::power2::lemma2_to64();
    if b == 0 {
        assert((x % 1) * 64 + v == (x * 64 + v) % 64) by (nonlinear_arith)
            requires
                v < 64,
        ;
    } else if b == 2 {
        assert((x % 4) * 64 + v == (x * 64 + v) % 256) by (nonlinear_arith)
            requires
                v < 64,
        ;
    } else if b == 4 {
        assert((x % 16) * 64 + v == (x * 64 + v) % 1024) by (nonlinear_arith)
            requires
                v < 64,
        ;
    } else {
        assert((x % 64) * 64 + v == (x * 64 + v) % 4096) by (nonlinear_arith)
            requires
                v < 64,
        ;
    }
}

proof fn lemma_take_byte(y: nat, e: nat)
    requires
        e == 0 || e == 2 || e == 4,
    ensures
        (y % vstd::arithmetic::power2::pow2(e + 8)) / vstd::arithmetic::power2::pow2(e) == (y
            / vstd::arithmetic::power2::pow2(e)) % 256,
        (y % vstd::arithmetic::power2::pow2(e + 8)) % vstd::arithmetic::power2::pow2(e) == y
            % vstd::arithmetic::power2::pow2(e),
{
    vstd::arithmetic::power2::lemma2_to64();
    if e == 0 {
        assert((y % 256) / 1 == (y / 1) % 256 && (y % 256) % 1 == y % 1) by (nonlinear_arith);
    } else if e == 2 {
        assert((y % 1024) / 4 == (y / 4) % 256) by (nonlinear_arith);
        assert((y % 1024) % 4 == y % 4) by (nonlinear_arith);
    } else {
        assert((y % 4096) / 16 == (y / 16) % 256) by (nonlinear_arith);
        assert((y % 4096) % 16 == y % 16) by (nonlinear_arith);
    }
}

proof fn lemma_sextets_step(b: Seq<u8>, i: int, padded: bool)
    requires
        0 <= i < b.len(),
    ensures
        b.skip(i)[0] == b[i],
        b.skip(i).drop_first() == b.skip(i + 1),
        base64_sextets(b.skip(i), padded) == (if is_ascii_whitespace_byte(b[i]) {
            base64_sextets(b.skip(i + 1), padded)
        } else if b[i] == 61 {
            base64_sextets(b.skip(i + 1), true)
        } else if padded {
            Err(Base64Error::NonPaddingAfterPadding)
        } else {
            match spec_base64_value(b[i]) {
                None => Err(Base64Error::InvalidByte(b[i])),
                Some(v) => match base64_sextets(b.skip(i + 1), false) {
                    Ok(rest) => Ok(seq![v as nat] + rest),
                    Err(e) => Err(e),
                },
            }
        }),
{
    assert(b.skip(i).drop_first() == b.skip(i + 1));
}

/// Decodes base64 bytes: white space is skipped, `=` ends the data.
pub fn decode_base64_bytes(bytes: &[u8]) -> (r: Result<Vec<u8>, Base64Error>)
    ensures
        match spec_decode_base64(bytes@) {
            Ok(d) => r matches Ok(v) && v@ == d,
            Err(e) => r == Err::<Vec<u8>, Base64Error>(e),
        },
{
    let ghost b = bytes@;
    let mut out: Vec<u8> = Vec::new();
    let mut acc: u32 = 0;
    let mut bits: u32 = 0;
    let mut padding_seen = false;
    let ghost mut s: Seq<nat> = Seq::empty();
    let mut i: usize = 0;
    proof {
        assert(b.skip(0) == b);
        assert(Seq::<nat>::empty() + Seq::<nat>::empty() == Seq::<nat>::empty());
        vstd::arithmetic::power2::lemma2_to64();
        assert forall|r: Seq<nat>| Seq::<nat>::empty() + r == r by {
            assert(Seq::<nat>::empty() + r =~= r);
        }
    }
    while i < bytes.len()
        invariant
            b == bytes@,
            i <= bytes.len(),
            base64_sextets(b, false) == prepend_sextets(s, base64_sextets(b.skip(i as int), padding_seen)),
            bits == 0 || bits == 2 || bits == 4 || bits == 6,
            6 * s.len() == 8 * out@.len() + bits,
            acc as nat == sextet_number(s) % vstd::arithmetic::power2::pow2(bits as nat),
            forall|j: int| 0 <= j < out@.len() ==> out@[j] == #[trigger] decoded_byte(s, j),
        decreases bytes.len() - i,
    {
        let byte = bytes[i];
        proof {
            lemma_sextets_step(b, i as int, padding_seen);
        }
        if byte == 32 || byte == 9 || byte == 10 || byte == 12 || byte == 13 {
            i += 1;
        } else if byte == 61 {
            padding_seen = true;
            i += 1;
        } else if padding_seen {
            return Err(Base64Error::NonPaddingAfterPadding);
        } else {
            let value = match base64_value(byte) {
                None => {
                    return Err(Base64Error::InvalidByte(byte));
                },
                Some(v) => v,
            };
            let ghost old_s = s;
            let ghost old_out = out@;
            proof {
                vstd::arithmetic::power2::lemma2_to64();
                lemma_add_sextet(sextet_number(old_s), value as nat, bits as nat);
                s = old_s.push(value as nat);
                assert(s.drop_last() == old_s);
                assert(sextet_number(s) == sextet_number(old_s) * 64 + value as nat);
                assert forall|r: Seq<nat>| old_s + (seq![value as nat] + r) == s + r by {
                    assert(old_s + (seq![value as nat] + r) =~= s + r);
                }
                assert forall|j: int| 0 <= j < out@.len() implies out@[j] == #[trigger] decoded_byte(
                    s,
                    j,
                ) by {
                    let m = (8 * (j + 1) + 5) / 6;
                    assert(m <= old_s.len());
                    assert(s.take(m) == old_s.take(m));
                    assert(out@[j] == decoded_byte(old_s, j));
                }
            }
            acc = acc * 64 + value as u32;
            bits = bits + 6;
            if bits >= 8 {
                bits = bits - 8;
                let ghost e = bits as nat;
                proof {
                    lemma_take_byte(sextet_number(s), e);
                }
                let p: u32 = if bits == 0 {
                    1
                } else if bits == 2 {
                    4
                } else {
                    16
                };
                let byte_out = (acc / p) as u8;
                let ghost j = out@.len() as int;
                proof {
                    assert(p as nat == vstd::arithmetic::power2::pow2(e));
                    let m = (8 * (j + 1) + 5) / 6;
                    assert(m == s.len());
                    assert(s.take(m) == s);
                    assert(6 * m - 8 * (j + 1) == e);
                    assert(byte_out == decoded_byte(s, j));
                }
                out.push(byte_out);
                acc = acc % p;
            }
            i += 1;
        }
    }
    proof {
        assert(b.skip(i as int).len() == 0);
        assert(s + Seq::<nat>::empty() == s);
        let d = Seq::new((6 * s.len() / 8) as nat, |j: int| decoded_byte(s, j));
        assert(out@ == d);
    }
    Ok(out)
}

} // verus!

verus! {

/// The UTF-16 code units of a character: one below U+10000, else a
/// surrogate pair.
pub open spec fn utf16_units_of_char(c: char) -> Seq<u16> {
    let v = c as u32;
    if v <= 0xFFFF {
        seq![v as u16]
    } else {
        let w = (v - 0x10000) as u32;
        seq![(0xD800 + w / 0x400) as u16, (0xDC00 + w % 0x400) as u16]
    }
}

/// The UTF-16 encoding of `s` (`str::encode_utf16`).
pub open spec fn encode_utf16(s: Seq<char>) -> Seq<u16>
    decreases s.len(),
{
    if s.len() == 0 {
        Seq::empty()
    } else {
        encode_utf16(s.drop_last()) + utf16_units_of_char(s.last())
    }
}

/// The UTF-16 encoding has `utf16_len` units.
pub proof fn lemma_encode_utf16_len(s: Seq<char>)
    ensures
        encode_utf16(s).len() == crate::text::utf16_len(s),
    decreases s.len(),
{
    if s.len() > 0 {
        lemma_encode_utf16_len(s.drop_last());
    }
}

/// The UTF-16 code units of a string.
pub fn utf16_units(text: &str) -> (r: Vec<u16>)
    ensures
        r@ == encode_utf16(text@),
{
    let v = chars_of(text);
    let mut r: Vec<u16> = Vec::new();
    let mut i: usize = 0;
    while i < v.len()
        invariant
            i <= v.len(),
            r@ == encode_utf16(v@.take(i as int)),
        decreases v.len() - i,
    {
        let c = v[i];
        let u = c as u32;
        proof {
            assert(v@.take(i + 1).drop_last() == v@.take(i as int));
            assert(v@.take(i + 1).last() == c);
        }
        if u <= 0xFFFF {
            r.push(u as u16);
        } else {
            proof {
                vstd::utf8::char_is_scalar(c);
            }
            let w = u - 0x10000;
            r.push((0xD800 + w / 0x400) as u16);
            r.push((0xDC00 + w % 0x400) as u16);
        }
        i += 1;
    }
    assert(v@.take(v.len() as int) == v@);
    r
}

/// `text` as UTF-16 followed by a NUL unit, as the clipboard stores it.
pub fn string_to_null_terminated_utf16(text: &str) -> (r: Vec<u16>)
    ensures
        r@ == encode_utf16(text@).push(0),
{
    let mut r = utf16_units(text);
    r.push(0);
    r
}

/// Little-endian bytes of each unit, in order.
pub open spec fn spec_utf16_to_le_bytes(units: Seq<u16>) -> Seq<u8> {
    Seq::new(
        2 * units.len(),
        |k: int|
            if k % 2 == 0 {
                (units[k / 2] % 256) as u8
            } else {
                (units[k / 2] / 256) as u8
            },
    )
}

pub fn utf16_to_le_bytes(input: &[u16]) -> (r: Vec<u8>)
    ensures
        r@ == spec_utf16_to_le_bytes(input@),
{
    let mut r: Vec<u8> = Vec::new();
    let mut i: usize = 0;
    while i < input.len()
        invariant
            i <= input.len(),
            r@.len() == 2 * i,
            forall|k: int|
                0 <= k < r@.len() ==> r@[k] == (if k % 2 == 0 {
                    (input@[k / 2] % 256) as u8
                } else {
                    (input@[k / 2] / 256) as u8
                }),
        decreases input.len() - i,
    {
        let u = input[i];
        r.push((u % 256) as u8);
        r.push((u / 256) as u8);
        i += 1;
    }
    assert(r@ == spec_utf16_to_le_bytes(input@));
    r
}

/// Units read from little-endian byte pairs; a trailing odd byte is
/// ignored (`chunks_exact`).
pub open spec fn spec_le_bytes_to_utf16(bytes: Seq<u8>) -> Seq<u16> {
    Seq::new(
        bytes.len() / 2,
        |k: int| (bytes[2 * k] as nat + 256 * bytes[2 * k + 1] as nat) as u16,
    )
}

pub fn le_bytes_to_utf16(input: &[u8]) -> (r: Vec<u16>)
    ensures
        r@ == spec_le_bytes_to_utf16(input@),
{
    let mut r: Vec<u16> = Vec::new();
    let mut k: usize = 0;
    let n = input.len() / 2;
    while k < n
        invariant
            n == input.len() / 2,
            k <= n,
            r@.len() == k,
            forall|j: int|
                0 <= j < k ==> r@[j] == (input@[2 * j] as nat + 256 * input@[2 * j + 1] as nat) as u16,
        decreases n - k,
    {
        let lo = input[2 * k] as u16;
        let hi = input[2 * k + 1] as u16;
        r.push(lo + 256 * hi);
        k += 1;
    }
    assert(r@ == spec_le_bytes_to_utf16(input@));
    r
}

/// Little-endian bytes read back give the units.
pub proof fn law_le_bytes_round_trip(units: Seq<u16>)
    ensures
        spec_le_bytes_to_utf16(spec_utf16_to_le_bytes(units)) == units,
{
    let b = spec_utf16_to_le_bytes(units);
    let r = spec_le_bytes_to_utf16(b);
    assert(r.len() == units.len());
    assert forall|k: int| 0 <= k < units.len() implies r[k] == units[k] by {
        assert(b[2 * k] == (units[k] % 256) as u8);
        assert(b[2 * k + 1] == (units[k] / 256) as u8);
    }
    assert(r =~= units);
}

/// Strict UTF-16 decoding: a high surrogate must be followed by a low
/// surrogate, and no low surrogate may stand alone.
pub open spec fn decode_utf16(units: Seq<u16>) -> Option<Seq<char>>
    decreases units.len(),
{
    if units.len() == 0 {
        Some(Seq::empty())
    } else {
        let u0 = units[0];
        if u0 < 0xD800 || u0 > 0xDFFF {
            match decode_utf16(units.drop_first()) {
                Some(rest) => Some(seq![(u0 as u32) as char] + rest),
                None => None,
            }
        } else if u0 <= 0xDBFF && units.len() >= 2 && 0xDC00 <= units[1] <= 0xDFFF {
            let c = (0x10000 + (u0 - 0xD800) * 0x400 + (units[1] - 0xDC00)) as u32;
            match decode_utf16(units.subrange(2, units.len() as int)) {
                Some(rest) => Some(seq![c as char] + rest),
                None => None,
            }
        } else {
            None
        }
    }
}

/// Lossy UTF-16 decoding: each unpaired surrogate becomes U+FFFD.
pub open spec fn decode_utf16_lossy(units: Seq<u16>) -> Seq<char>
    decreases units.len(),
{
    if units.len() == 0 {
        Seq::empty()
    } else {
        let u0 = units[0];
        if u0 < 0xD800 || u0 > 0xDFFF {
            seq![(u0 as u32) as char] + decode_utf16_lossy(units.drop_first())
        } else if u0 <= 0xDBFF && units.len() >= 2 && 0xDC00 <= units[1] <= 0xDFFF {
            let c = (0x10000 + (u0 - 0xD800) * 0x400 + (units[1] - 0xDC00)) as u32;
            seq![c as char] + decode_utf16_lossy(units.subrange(2, units.len() as int))
        } else {
            seq!['\u{FFFD}'] + decode_utf16_lossy(units.drop_first())
        }
    }
}

proof fn lemma_encode_utf16_prepend(c: char, rest: Seq<char>)
    ensures
        encode_utf16(seq![c] + rest) == utf16_units_of_char(c) + encode_utf16(rest),
    decreases rest.len(),
{
    let s = seq![c] + rest;
    assert(s.len() > 0);
    assert(encode_utf16(s) == encode_utf16(s.drop_last()) + utf16_units_of_char(s.last()));
    if rest.len() == 0 {
        assert(s == seq![c]);
        assert(s.drop_last() == Seq::<char>::empty());
        assert(encode_utf16(rest) == Seq::<u16>::empty());
        assert(utf16_units_of_char(c) + Seq::<u16>::empty() == utf16_units_of_char(c));
        assert(Seq::<u16>::empty() + utf16_units_of_char(c) == utf16_units_of_char(c));
    } else {
        assert(s.drop_last() == seq![c] + rest.drop_last());
        assert(s.last() == rest.last());
        assert(encode_utf16(rest) == encode_utf16(rest.drop_last()) + utf16_units_of_char(rest.last()));
        lemma_encode_utf16_prepend(c, rest.drop_last());
        assert(utf16_units_of_char(c) + encode_utf16(rest.drop_last()) + utf16_units_of_char(rest.last())
            == utf16_units_of_char(c) + (encode_utf16(rest.drop_last()) + utf16_units_of_char(rest.last())));
    }
}

proof fn lemma_surrogate_pair(v: u32)
    requires
        0x10000 <= v <= 0x10FFFF,
    ensures
        0xD800 <= 0xD800 + (v - 0x10000) / 0x400 <= 0xDBFF,
        0xDC00 <= 0xDC00 + (v - 0x10000) % 0x400 <= 0xDFFF,
        0x10000 + ((v - 0x10000) / 0x400) * 0x400 + (v - 0x10000) % 0x400 == v,
{
    let w = (v - 0x10000) as int;
    assert(0 <= w < 0x100000);
    assert(w / 0x400 < 0x400) by (nonlinear_arith)
        requires
            0 <= w < 0x100000,
    ;
    assert((w / 0x400) * 0x400 + w % 0x400 == w) by (nonlinear_arith);
}

proof fn lemma_decode_char_units(c: char, rest: Seq<u16>)
    ensures
        decode_utf16(utf16_units_of_char(c) + rest) == match decode_utf16(rest) {
            Some(r) => Some(seq![c] + r),
            None => None::<Seq<char>>,
        },
        decode_utf16_lossy(utf16_units_of_char(c) + rest) == seq![c] + decode_utf16_lossy(rest),
{
    let v = c as u32;
    vstd::utf8::char_is_scalar(c);
    let u = utf16_units_of_char(c) + rest;
    if v <= 0xFFFF {
        assert(u[0] == v as u16);
        assert(u.drop_first() == rest);
        assert((v as u16) as u32 == v);
        vstd::utf8::char_u32_cast(c, v);
    } else {
        let w = (v - 0x10000) as u32;
        lemma_surrogate_pair(v);
        let hi = (0xD800 + w / 0x400) as u16;
        let lo = (0xDC00 + w % 0x400) as u16;
        assert(u[0] == hi);
        assert(u[1] == lo);
        assert(u.subrange(2, u.len() as int) == rest);
        let cv = (0x10000 + (hi - 0xD800) * 0x400 + (lo - 0xDC00)) as u32;
        assert(cv == v);
        vstd::utf8::char_u32_cast(c, v);
    }
}

/// Decoding UTF-16 gives back the text it encodes, strictly and lossily.
pub proof fn law_utf16_round_trip(s: Seq<char>)
    ensures
        decode_utf16(encode_utf16(s)) == Some(s),
        decode_utf16_lossy(encode_utf16(s)) == s,
    decreases s.len(),
{
    if s.len() > 0 {
        let rest = s.drop_first();
        assert(s == seq![s[0]] + rest);
        lemma_encode_utf16_prepend(s[0], rest);
        law_utf16_round_trip(rest);
        lemma_decode_char_units(s[0], encode_utf16(rest));
    }
}

proof fn lemma_encode_utf16_no_nul(s: Seq<char>)
    requires
        !s.contains('\0'),
    ensures
        !encode_utf16(s).contains(0u16),
    decreases s.len(),
{
    if s.len() > 0 {
        let t = s.drop_last();
        assert(!t.contains('\0')) by {
            if t.contains('\0') {
                let k = choose|k: int| 0 <= k < t.len() && t[k] == '\0';
                assert(s[k] == '\0');
            }
        }
        lemma_encode_utf16_no_nul(t);
        let c = s.last();
        assert(c != '\0') by {
            assert(s[s.len() - 1] == c);
        }
        let e = encode_utf16(t) + utf16_units_of_char(c);
        vstd::utf8::char_is_scalar(c);
        assert(!utf16_units_of_char(c).contains(0u16)) by {
            if (c as u32) <= 0xFFFF {
                assert((c as u32) != 0) by {
                    if (c as u32) == 0 {
                        vstd::utf8::char_u32_cast(c, 0);
                        vstd::utf8::char_u32_cast('\0', 0);
                    }
                }
            } else {
                lemma_surrogate_pair(c as u32);
            }
        }
        assert(!e.contains(0u16)) by {
            if e.contains(0u16) {
                let k = choose|k: int| 0 <= k < e.len() && e[k] == 0u16;
                if k < encode_utf16(t).len() {
                    assert(encode_utf16(t)[k] == 0u16);
                } else {
                    assert(utf16_units_of_char(c)[k - encode_utf16(t).len()] == 0u16);
                }
            }
        }
    }
}

/// Text without NUL characters written to the clipboard as NUL-terminated
/// UTF-16 reads back unchanged.
pub proof fn law_clipboard_text_round_trip(s: Seq<char>)
    requires
        !s.contains('\0'),
    ensures
        ({
            let w = encode_utf16(s).push(0u16);
            w.contains(0u16) && decode_utf16_lossy(w.take(w.index_of_first(0u16).unwrap())) == s
        }),
{
    let e = encode_utf16(s);
    let w = e.push(0u16);
    lemma_encode_utf16_no_nul(s);
    assert(w[e.len() as int] == 0u16);
    assert(w.contains(0u16));
    w.index_of_first_ensures(0u16);
    let n = w.index_of_first(0u16).unwrap();
    assert(n == e.len()) by {
        if n < e.len() {
            assert(e[n] == 0u16);
        }
    }
    assert(w.take(n) == e);
    law_utf16_round_trip(s);
}

/// Wraps `String::from_utf16`: the text of well-formed UTF-16, else the
/// error's message (whose wording the contract leaves open).
#[verifier::external_body]
fn string_from_utf16(units: &[u16]) -> (r: Result<String, String>)
    ensures
        match decode_utf16(units@) {
            Some(s) => r matches Ok(x) && x@ == s,
            None => r is Err,
        },
{
    String::from_utf16(units).map_err(|error| format!("{error}"))
}

/// Wraps `String::from_utf16_lossy`.
#[verifier::external_body]
fn string_from_utf16_lossy(units: &[u16]) -> (r: String)
    ensures
        r@ == decode_utf16_lossy(units@),
{
    String::from_utf16_lossy(units)
}

/// The text of UTF-16 units, unpaired surrogates replaced.
pub fn utf16_lossy_to_string(units: &[u16]) -> (r: String)
    ensures
        r@ == decode_utf16_lossy(units@),
{
    string_from_utf16_lossy(units)
}

/// The text of NUL-terminated UTF-16 (all of it when there is no NUL),
/// unpaired surrogates replaced.
pub fn utf16_until_nul_to_string(input: &[u16]) -> (r: String)
    ensures
        ({
            let n = if input@.contains(0u16) {
                input@.index_of_first(0u16).unwrap()
            } else {
                input@.len() as int
            };
            r@ == decode_utf16_lossy(input@.take(n))
        }),
{
    let mut len: usize = 0;
    while len < input.len() && input[len] != 0
        invariant
            len <= input.len(),
            forall|j: int| 0 <= j < len ==> input@[j] != 0u16,
        decreases input.len() - len,
    {
        len += 1;
    }
    proof {
        input@.index_of_first_ensures(0u16);
        if len < input.len() {
            assert(input@.contains(0u16));
            let k = input@.index_of_first(0u16).unwrap();
            assert(k == len as int) by {
                if k < len {
                }
                if k > len {
                    assert(input@[len as int] == 0u16);
                }
            }
        } else {
            assert(!input@.contains(0u16)) by {
                if input@.contains(0u16) {
                    let k = choose|k: int| 0 <= k < input@.len() && input@[k] == 0u16;
                    assert(input@[k] != 0u16);
                }
            }
        }
        assert(input@.subrange(0, len as int) == input@.take(len as int));
    }
    string_from_utf16_lossy(&input[0..len])
}

/// The message of a base64 decoding error.
pub open spec fn spec_base64_error_message(e: Base64Error) -> Seq<char> {
    match e {
        Base64Error::NonPaddingAfterPadding => "non-padding base64 byte after padding"@,
        Base64Error::InvalidByte(b) => "invalid base64 byte 0x"@ + seq![
            crate::ids::hex_digit((b / 16) as nat),
            crate::ids::hex_digit((b % 16) as nat),
        ],
    }
}

fn base64_error_message(e: Base64Error) -> (r: String)
    ensures
        r@ == spec_base64_error_message(e),
{
    match e {
        Base64Error::NonPaddingAfterPadding => "non-padding base64 byte after padding".to_owned(),
        Base64Error::InvalidByte(b) => {
            let digits = [crate::ids::hex_digit_char((b / 16) as usize), crate::ids::hex_digit_char((b % 16) as usize)];
            let tail = string_from_chars(&digits);
            crate::text::concat("invalid base64 byte 0x", tail.as_str())
        },
    }
}

/// Decodes base64 text (its UTF-8 bytes).
pub fn decode_base64(value: &str) -> (r: Result<Vec<u8>, String>)
    ensures
        match spec_decode_base64(vstd::utf8::encode_utf8(value@)) {
            Ok(d) => r matches Ok(v) && v@ == d,
            Err(e) => r matches Err(m) && m@ == spec_base64_error_message(e),
        },
{
    match decode_base64_bytes(value.as_bytes()) {
        Ok(v) => Ok(v),
        Err(e) => Err(base64_error_message(e)),
    }
}

/// Base64 of the UTF-16LE bytes of `value`, as PowerShell takes encoded
/// commands and data.
pub fn encode_utf16le_base64(value: &str) -> (r: String)
    ensures
        r@ == spec_encode_base64(spec_utf16_to_le_bytes(encode_utf16(value@))),
{
    let units = utf16_units(value);
    let bytes = utf16_to_le_bytes(units.as_slice());
    encode_base64(bytes.as_slice())
}

/// The text that base64 UTF-16LE data holds, if it is well formed.
pub open spec fn spec_utf16le_base64_text(value: Seq<char>) -> Option<Seq<char>> {
    match spec_decode_base64(vstd::utf8::encode_utf8(value)) {
        Err(_) => None,
        Ok(bytes) => if bytes.len() % 2 != 0 {
            None
        } else {
            decode_utf16(spec_le_bytes_to_utf16(bytes))
        },
    }
}

/// The text of base64 UTF-16LE data: fails on bad base64, an odd number of
/// bytes, or ill-formed UTF-16.
pub fn decode_utf16le_base64(value: &str) -> (r: Result<String, String>)
    ensures
        match spec_utf16le_base64_text(value@) {
            Some(s) => r matches Ok(x) && x@ == s,
            None => r is Err,
        },
        match spec_decode_base64(vstd::utf8::encode_utf8(value@)) {
            Err(e) => r matches Err(m) && m@ == spec_base64_error_message(e),
            Ok(bytes) => if bytes.len() % 2 != 0 {
                r matches Err(m) && m@ == "decoded UTF-16LE byte length is odd"@
            } else {
                match decode_utf16(spec_le_bytes_to_utf16(bytes)) {
                    Some(s) => r matches Ok(x) && x@ == s,
                    None => r matches Err(m) && crate::text::has_prefix(m@, "invalid UTF-16LE text: "@),
                }
            },
        },
{
    let bytes = decode_base64(value)?;
    if bytes.len() % 2 != 0 {
        return Err("decoded UTF-16LE byte length is odd".to_owned());
    }
    let units = le_bytes_to_utf16(bytes.as_slice());
    match string_from_utf16(units.as_slice()) {
        Ok(s) => Ok(s),
        Err(m) => {
            let msg = crate::text::concat("invalid UTF-16LE text: ", m.as_str());
            proof {
                let p = "invalid UTF-16LE text: "@;
                assert(msg@.subrange(0, p.len() as int) == p);
            }
            Err(msg)
        },
    }
}

} // verus!
