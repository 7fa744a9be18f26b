//! Base64 text decodes back to the bytes it encodes, and base64 of
//! UTF-16LE back to the text: the facts behind the scripts' data exchange.
use vstd::prelude::*;
use crate::encoding::{
    base64_char, base64_encoded_char, base64_group, base64_sextets, decoded_byte, encode_utf16,
    is_ascii_whitespace_byte, law_base64_alphabet_round_trip, law_le_bytes_round_trip,
    law_utf16_round_trip, sextet_number, spec_base64_value, spec_decode_base64, spec_encode_base64,
    spec_utf16_to_le_bytes, spec_utf16le_base64_text,
};

verus! {

/// Every character is ASCII.
pub open spec fn all_ascii(s: Seq<char>) -> bool {
    forall|i: int| 0 <= i < s.len() ==> (#[trigger] s[i] as u32) < 0x80
}

proof fn lemma_encode_utf8_ascii(s: Seq<char>)
    requires
        all_ascii(s),
    ensures
        vstd::utf8::encode_utf8(s).len() == s.len(),
        forall|i: int| 0 <= i < s.len() ==> vstd::utf8::encode_utf8(s)[i] == (#[trigger] s[i] as u32) as u8,
    decreases s.len(),
{
    if s.len() > 0 {
        let v = s[0] as u32;
        assert(v < 0x80);
        assert(v & 0x7F == v) by (bit_vector)
            requires
                v < 0x80,
        ;
        let rest = s.drop_first();
        assert(all_ascii(rest)) by {
            assert forall|i: int| 0 <= i < rest.len() implies (#[trigger] rest[i] as u32) < 0x80 by {
                assert(rest[i] == s[i + 1]);
            }
        }
        lemma_encode_utf8_ascii(rest);
        let e = vstd::utf8::encode_utf8(s);
        assert(e == vstd::utf8::encode_scalar(v) + vstd::utf8::encode_utf8(rest));
        assert forall|i: int| 0 <= i < s.len() implies e[i] == (#[trigger] s[i] as u32) as u8 by {
            if i > 0 {
                assert(rest[i - 1] == s[i]);
            }
        }
    }
}

/// Value `j` of the 6-bit values that base64 writes for `b`.
pub open spec fn base64_sextet(b: Seq<u8>, j: int) -> nat {
    let t = base64_group(b, j / 4);
    let k = j % 4;
    if k == 0 {
        (t / 262144) % 64
    } else if k == 1 {
        (t / 4096) % 64
    } else if k == 2 {
        (t / 64) % 64
    } else {
        t % 64
    }
}

/// How many of the base64 characters of `n` bytes are not padding.
pub open spec fn base64_value_count(n: nat) -> nat {
    4 * (n / 3) + if n % 3 == 0 {
        0
    } else {
        n % 3 + 1
    }
}

/// The 6-bit values that base64 writes for `b`.
pub open spec fn base64_sextet_seq(b: Seq<u8>) -> Seq<nat> {
    Seq::new(base64_value_count(b.len()), |j: int| base64_sextet(b, j))
}

proof fn lemma_encoded_char(b: Seq<u8>, j: int)
    requires
        0 <= j < spec_encode_base64(b).len(),
    ensures
        j < base64_value_count(b.len()) ==> base64_sextet(b, j) < 64 && spec_encode_base64(b)[j]
            == base64_char(base64_sextet(b, j)),
        j >= base64_value_count(b.len()) ==> spec_encode_base64(b)[j] == '=',
{
    let n = b.len();
    let g = j / 4;
    let k = j % 4;
    assert(4 * ((n + 2) / 3) == spec_encode_base64(b).len());
    assert(g < (n + 2) / 3);
    assert(3 * g < n);
    assert(spec_encode_base64(b)[j] == base64_encoded_char(b, j));
}

proof fn lemma_base64_char_ascii(v: nat)
    requires
        v < 64,
    ensures
        (base64_char(v) as u32) < 0x80,
        (base64_char(v) as u32) as u8 != 61,
        !is_ascii_whitespace_byte((base64_char(v) as u32) as u8),
        spec_base64_value((base64_char(v) as u32) as u8) == Some(v as u8),
{
    law_base64_alphabet_round_trip(v);
}


/// The bytes of the base64 text of `b`.
pub open spec fn base64_text_bytes(b: Seq<u8>) -> Seq<u8> {
    vstd::utf8::encode_utf8(spec_encode_base64(b))
}

proof fn lemma_text_bytes(b: Seq<u8>)
    ensures
        base64_text_bytes(b).len() == spec_encode_base64(b).len(),
        base64_value_count(b.len()) <= spec_encode_base64(b).len(),
        forall|j: int|
            0 <= j < base64_value_count(b.len()) ==> #[trigger] base64_text_bytes(b)[j] == (base64_char(
                base64_sextet(b, j),
            ) as u32) as u8 && base64_sextet(b, j) < 64,
        forall|j: int|
            base64_value_count(b.len()) <= j < spec_encode_base64(b).len() ==> #[trigger] base64_text_bytes(
                b,
            )[j] == 61,
{
    let e = spec_encode_base64(b);
    assert(all_ascii(e)) by {
        assert forall|i: int| 0 <= i < e.len() implies (#[trigger] e[i] as u32) < 0x80 by {
            lemma_encoded_char(b, i);
            if i < base64_value_count(b.len()) {
                lemma_base64_char_ascii(base64_sextet(b, i));
            }
        }
    }
    lemma_encode_utf8_ascii(e);
    let n = b.len();
    assert(base64_value_count(n) <= 4 * ((n + 2) / 3));
    assert forall|j: int| 0 <= j < base64_value_count(b.len()) implies #[trigger] base64_text_bytes(b)[j]
        == (base64_char(base64_sextet(b, j)) as u32) as u8 && base64_sextet(b, j) < 64 by {
        lemma_encoded_char(b, j);
    }
    assert forall|j: int| base64_value_count(b.len()) <= j < spec_encode_base64(b).len() implies #[trigger] base64_text_bytes(
        b,
    )[j] == 61 by {
        lemma_encoded_char(b, j);
    }
}

proof fn lemma_padding_reads_nothing(t: Seq<u8>)
    requires
        forall|j: int| 0 <= j < t.len() ==> #[trigger] t[j] == 61,
    ensures
        base64_sextets(t, true) == Ok::<Seq<nat>, crate::encoding::Base64Error>(Seq::<nat>::empty()),
    decreases t.len(),
{
    if t.len() > 0 {
        let rest = t.drop_first();
        assert forall|j: int| 0 <= j < rest.len() implies #[trigger] rest[j] == 61 by {
            assert(rest[j] == t[j + 1]);
        }
        lemma_padding_reads_nothing(rest);
        assert(t[0] == 61);
    }
}

proof fn lemma_sextets_from(b: Seq<u8>, k: int)
    requires
        0 <= k <= base64_value_count(b.len()),
    ensures
        base64_sextets(base64_text_bytes(b).subrange(k, base64_text_bytes(b).len() as int), false)
            == Ok::<Seq<nat>, crate::encoding::Base64Error>(
            base64_sextet_seq(b).subrange(k, base64_value_count(b.len()) as int),
        ),
    decreases base64_value_count(b.len()) - k,
{
    lemma_text_bytes(b);
    let bytes = base64_text_bytes(b);
    let len = bytes.len() as int;
    let l = base64_value_count(b.len()) as int;
    let t = bytes.subrange(k, len);
    let sx = base64_sextet_seq(b);
    if k == l {
        let pad = t;
        if pad.len() > 0 {
            assert(pad[0] == 61);
            let rest = pad.drop_first();
            assert forall|j: int| 0 <= j < rest.len() implies #[trigger] rest[j] == 61 by {
                assert(rest[j] == bytes[k + 1 + j]);
            }
            lemma_padding_reads_nothing(rest);
        }
        assert(sx.subrange(k, l) == Seq::<nat>::empty());
    } else {
        let v = base64_sextet(b, k);
        assert(t[0] == bytes[k]);
        assert(bytes[k] == (base64_char(v) as u32) as u8);
        lemma_base64_char_ascii(v);
        assert(t.drop_first() == bytes.subrange(k + 1, len));
        lemma_sextets_from(b, k + 1);
        assert(sx.subrange(k, l) == seq![v] + sx.subrange(k + 1, l));
        assert(((v as u8) as nat) == v);
    }
}

/// Base64 text reads back as the 6-bit values written for the bytes.
proof fn lemma_sextets_of_encoding(b: Seq<u8>)
    ensures
        base64_sextets(base64_text_bytes(b), false) == Ok::<Seq<nat>, crate::encoding::Base64Error>(
            base64_sextet_seq(b),
        ),
{
    lemma_sextets_from(b, 0);
    lemma_text_bytes(b);
    assert(base64_text_bytes(b).subrange(0, base64_text_bytes(b).len() as int) == base64_text_bytes(b));
    assert(base64_sextet_seq(b).subrange(0, base64_value_count(b.len()) as int) == base64_sextet_seq(b));
}


proof fn lemma_group_bound(b: Seq<u8>, g: int)
    requires
        0 <= g,
        3 * g < b.len(),
    ensures
        base64_group(b, g) < 16777216,
        base64_group(b, g) / 65536 == b[3 * g],
        3 * g + 1 < b.len() ==> (base64_group(b, g) / 256) % 256 == b[3 * g + 1],
        3 * g + 2 < b.len() ==> base64_group(b, g) % 256 == b[3 * g + 2],
{
    let b0 = b[3 * g] as int;
    let b1 = if 3 * g + 1 < b.len() {
        b[3 * g + 1] as int
    } else {
        0
    };
    let b2 = if 3 * g + 2 < b.len() {
        b[3 * g + 2] as int
    } else {
        0
    };
    let t = base64_group(b, g) as int;
    assert(t == b0 * 65536 + b1 * 256 + b2);
    assert(0 <= b0 < 256 && 0 <= b1 < 256 && 0 <= b2 < 256);
    assert(t < 16777216);
    assert(t / 65536 == b0);
    assert(t / 256 == b0 * 256 + b1);
    assert((t / 256) % 256 == b1);
    assert(t % 256 == b2);
}

proof fn lemma_sextet_number_step(s: Seq<nat>, t: int)
    requires
        0 <= t < s.len(),
    ensures
        sextet_number(s.take(t + 1)) == sextet_number(s.take(t)) * 64 + s[t],
{
    let p = s.take(t + 1);
    assert(p.drop_last() == s.take(t));
    assert(p.last() == s[t]);
}

proof fn lemma_sextet_arith(a: int, t: int)
    requires
        a >= 0,
        0 <= t < 16777216,
    ensures
        (t / 262144) % 64 == t / 262144,
        (a * 64 + t / 262144) * 64 + (t / 4096) % 64 == a * 4096 + t / 4096,
        (a * 4096 + t / 4096) * 64 + (t / 64) % 64 == a * 262144 + t / 64,
        (a * 262144 + t / 64) * 64 + t % 64 == a * 16777216 + t,
{
    assert((t / 262144) * 64 + (t / 4096) % 64 == t / 4096);
    assert((t / 4096) * 64 + (t / 64) % 64 == t / 64);
    assert((t / 64) * 64 + t % 64 == t);
}

/// The number spelled by the first `4g + k` written values, in terms of the
/// number spelled by the groups before `g` and group `g` itself.
proof fn lemma_group_prefix(b: Seq<u8>, g: int, k: int)
    requires
        0 <= g,
        0 <= k <= 4,
        4 * g + k <= base64_value_count(b.len()),
        3 * g < b.len(),
    ensures
        ({
            let s = base64_sextet_seq(b);
            let a = sextet_number(s.take(4 * g)) as int;
            let t = base64_group(b, g) as int;
            sextet_number(s.take(4 * g + k)) == if k == 0 {
                a
            } else if k == 1 {
                a * 64 + t / 262144
            } else if k == 2 {
                a * 4096 + t / 4096
            } else if k == 3 {
                a * 262144 + t / 64
            } else {
                a * 16777216 + t
            }
        }),
    decreases k,
{
    if k > 0 {
        let s = base64_sextet_seq(b);
        let t = base64_group(b, g) as int;
        let a = sextet_number(s.take(4 * g)) as int;
        lemma_group_bound(b, g);
        lemma_group_prefix(b, g, k - 1);
        let j = 4 * g + k - 1;
        lemma_sextet_number_step(s, j);
        assert(j / 4 == g && j % 4 == k - 1);
        assert(s[j] == base64_sextet(b, j));
        lemma_sextet_arith(a, t);
    }
}

proof fn lemma_byte_arith(a: int, t: int)
    requires
        a >= 0,
        0 <= t < 16777216,
    ensures
        ((a * 4096 + t / 4096) / 16) % 256 == t / 65536,
        ((a * 262144 + t / 64) / 4) % 256 == (t / 256) % 256,
        (a * 16777216 + t) % 256 == t % 256,
{
    assert((a * 4096 + t / 4096) / 16 == a * 256 + t / 65536);
    assert((a * 256 + t / 65536) % 256 == t / 65536);
    assert((a * 262144 + t / 64) / 4 == a * 65536 + t / 256);
    assert((a * 65536 + t / 256) % 256 == (t / 256) % 256);
}

proof fn lemma_decoded_byte(b: Seq<u8>, j: int)
    requires
        0 <= j < b.len(),
    ensures
        decoded_byte(base64_sextet_seq(b), j) == b[j],
{
    let s = base64_sextet_seq(b);
    let g = j / 3;
    let i = j % 3;
    let n = b.len();
    assert(3 * g < n);
    lemma_group_bound(b, g);
    let m = (8 * (j + 1) + 5) / 6;
    assert(m == 4 * g + i + 2);
    assert(4 * g + i + 2 <= base64_value_count(n));
    lemma_group_prefix(b, g, i + 2);
    let a = sextet_number(s.take(4 * g)) as int;
    let t = base64_group(b, g) as int;
    lemma_byte_arith(a, t);
    let shift = (6 * m - 8 * (j + 1)) as nat;
    if i == 0 {
        assert(shift == 4);
        assert(vstd::arithmetic::power2::pow2(4) == 16) by {
            vstd::arithmetic::power2::lemma2_to64();
        }
    } else if i == 1 {
        assert(shift == 2);
        assert(vstd::arithmetic::power2::pow2(2) == 4) by {
            vstd::arithmetic::power2::lemma2_to64();
        }
    } else {
        assert(shift == 0);
        assert(vstd::arithmetic::power2::pow2(0) == 1) by {
            vstd::arithmetic::power2::lemma2_to64();
        }
    }
}

/// Base64 text decodes to the bytes it was written for.
pub proof fn law_base64_round_trip(b: Seq<u8>)
    ensures
        spec_decode_base64(vstd::utf8::encode_utf8(spec_encode_base64(b))) == Ok::<
            Seq<u8>,
            crate::encoding::Base64Error,
        >(b),
{
    lemma_sextets_of_encoding(b);
    let s = base64_sextet_seq(b);
    let n = b.len();
    assert(6 * s.len() / 8 == n);
    let d = Seq::new((6 * s.len() / 8) as nat, |j: int| decoded_byte(s, j));
    assert forall|j: int| 0 <= j < n implies d[j] == b[j] by {
        lemma_decoded_byte(b, j);
    }
    assert(d =~= b);
}


/// Text sent to a script as base64 of UTF-16LE reads back as that text
/// (`encode_utf16le_base64` undone by `decode_utf16le_base64`).
pub proof fn law_utf16le_base64_round_trip(text: Seq<char>)
    ensures
        spec_utf16le_base64_text(spec_encode_base64(spec_utf16_to_le_bytes(encode_utf16(text))))
            == Some(text),
{
    let units = encode_utf16(text);
    let bytes = spec_utf16_to_le_bytes(units);
    law_base64_round_trip(bytes);
    assert(bytes.len() % 2 == 0);
    law_le_bytes_round_trip(units);
    law_utf16_round_trip(text);
}

/// Byte `i` of base64 text is refused: it is neither white space nor `=`,
/// and it is outside the alphabet or comes after a `=` (or after padding
/// already begun, `padded`).
pub open spec fn refused_at(b: Seq<u8>, i: int, padded: bool) -> bool {
    &&& 0 <= i < b.len()
    &&& !is_ascii_whitespace_byte(b[i])
    &&& b[i] != 61
    &&& (spec_base64_value(b[i]) is None || padded || exists|j: int| 0 <= j < i && b[j] == 61)
}

proof fn lemma_sextets_refuse(b: Seq<u8>, padded: bool)
    ensures
        (base64_sextets(b, padded) is Err) == (exists|i: int| refused_at(b, i, padded)),
    decreases b.len(),
{
    if b.len() > 0 {
        let rest = b.drop_first();
        let first = b[0];
        if is_ascii_whitespace_byte(first) || first == 61 || (!padded && spec_base64_value(first) is Some) {
            let p2 = padded || first == 61;
            lemma_sextets_refuse(rest, p2);
            assert forall|i: int| 1 <= i < b.len() implies refused_at(b, i, padded) == refused_at(rest, i - 1, p2) by {
                if exists|j: int| 0 <= j < i && b[j] == 61 {
                    let j = choose|j: int| 0 <= j < i && b[j] == 61;
                    if j > 0 {
                        assert(rest[j - 1] == 61);
                    }
                }
                if exists|j: int| 0 <= j < i - 1 && rest[j] == 61 {
                    let j = choose|j: int| 0 <= j < i - 1 && rest[j] == 61;
                    assert(b[j + 1] == 61);
                }
            }
            assert(!refused_at(b, 0, padded));
            if exists|i: int| refused_at(b, i, padded) {
                let i = choose|i: int| refused_at(b, i, padded);
                assert(refused_at(rest, i - 1, p2));
            }
            if exists|i: int| refused_at(rest, i, p2) {
                let i = choose|i: int| refused_at(rest, i, p2);
                assert(refused_at(b, i + 1, padded));
            }
        } else {
            assert(refused_at(b, 0, padded));
        }
    }
}

proof fn lemma_sextets_skip_space(x: Seq<u8>, w: u8, y: Seq<u8>, padded: bool)
    requires
        is_ascii_whitespace_byte(w),
    ensures
        base64_sextets(x + seq![w] + y, padded) == base64_sextets(x + y, padded),
    decreases x.len(),
{
    if x.len() == 0 {
        assert(x + seq![w] + y == seq![w] + y);
        assert((seq![w] + y).drop_first() == y);
        assert(x + y == y);
    } else {
        let xr = x.drop_first();
        assert((x + seq![w] + y).drop_first() == xr + seq![w] + y);
        assert((x + y).drop_first() == xr + y);
        assert((x + seq![w] + y)[0] == x[0]);
        assert((x + y)[0] == x[0]);
        lemma_sextets_skip_space(xr, w, y, true);
        lemma_sextets_skip_space(xr, w, y, false);
    }
}

/// Base64 text has four characters for every three bytes begun; decoding
/// skips ASCII white space wherever it stands, and refuses the text
/// exactly when some byte other than white space and `=` lies outside the
/// alphabet or follows a `=`.
pub proof fn law_base64_length_and_refusals(b: Seq<u8>, text: Seq<u8>, i: int, w: u8)
    ensures
        spec_encode_base64(b).len() == 4 * ((b.len() + 2) / 3),
        is_ascii_whitespace_byte(w) && 0 <= i <= text.len() ==> spec_decode_base64(
            text.take(i) + seq![w] + text.skip(i),
        ) == spec_decode_base64(text),
        (spec_decode_base64(text) is Err) == (exists|k: int| refused_at(text, k, false)),
{
    lemma_sextets_refuse(text, false);
    if is_ascii_whitespace_byte(w) && 0 <= i <= text.len() {
        lemma_sextets_skip_space(text.take(i), w, text.skip(i), false);
        assert(text.take(i) + text.skip(i) == text);
    }
}

} // verus!
