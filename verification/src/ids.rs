//! Window and control identifiers carried in captured contexts:
//! `hwnd:<HEX>` window ids and the method-specific control id prefixes.
use vstd::prelude::*;
use crate::text::{chars_of, chars_starts_with, has_prefix, push_char};

verus! {

/// The upper-case hexadecimal digit of `d` (`d < 16`).
pub open spec fn hex_digit(d: nat) -> char {
    if d < 10 {
        ((d + 48) as u8) as char
    } else {
        ((d + 55) as u8) as char
    }
}

/// Upper-case hexadecimal rendering of `n`, without leading zeros (`{:X}`).
pub open spec fn hex_upper(n: nat) -> Seq<char>
    decreases n,
{
    if n < 16 {
        seq![hex_digit(n)]
    } else {
        hex_upper(n / 16).push(hex_digit(n % 16))
    }
}

/// The value of a hexadecimal digit (either case), if it is one.
pub open spec fn hex_value(c: char) -> Option<nat> {
    if '0' <= c && c <= '9' {
        Some((c as nat - 48) as nat)
    } else if 'a' <= c && c <= 'f' {
        Some((c as nat - 87) as nat)
    } else if 'A' <= c && c <= 'F' {
        Some((c as nat - 55) as nat)
    } else {
        None
    }
}

/// Every character is a hexadecimal digit.
pub open spec fn all_hex(s: Seq<char>) -> bool {
    forall|i: int| 0 <= i < s.len() ==> (#[trigger] hex_value(s[i])) is Some
}

/// The number that the hexadecimal digits `s` denote.
pub open spec fn hex_number(s: Seq<char>) -> nat
    decreases s.len(),
{
    if s.len() == 0 {
        0
    } else {
        hex_number(s.drop_last()) * 16 + hex_value(s.last()).unwrap_or(0)
    }
}

/// `isize::from_str_radix(s, 16)`: an optional sign, then one or more
/// hexadecimal digits, with the value in the range of `isize`.
pub open spec fn spec_parse_hex_isize(s: Seq<char>) -> Option<int> {
    let negative = s.len() > 0 && s[0] == '-';
    let digits = if s.len() > 0 && (s[0] == '+' || s[0] == '-') {
        s.drop_first()
    } else {
        s
    };
    if digits.len() == 0 || !all_hex(digits) {
        None
    } else {
        let v: int = if negative {
            -hex_number(digits)
        } else {
            hex_number(digits) as int
        };
        if isize::MIN <= v <= isize::MAX {
            Some(v)
        } else {
            None
        }
    }
}

/// A window id: `hwnd:` and the handle in upper-case hexadecimal, the
/// handle taken as an unsigned word.
pub open spec fn spec_hwnd_id(hwnd: isize) -> Seq<char> {
    "hwnd:"@ + hex_upper((hwnd as usize) as nat)
}

/// The handle of a window id: `hwnd:` followed by a hexadecimal number.
pub open spec fn spec_parse_hwnd_id(value: Seq<char>) -> Option<isize> {
    if has_prefix(value, "hwnd:"@) {
        let rest = value.subrange(5, value.len() as int);
        match spec_parse_hex_isize(rest) {
            Some(v) => Some(v as isize),
            None => None,
        }
    } else {
        None
    }
}

/// The upper-case hexadecimal digit of `d`.
pub fn hex_digit_char(d: usize) -> (c: char)
    requires
        d < 16,
    ensures
        c == hex_digit(d as nat),
{
    hex_digit_exec(d)
}

fn hex_digit_exec(d: usize) -> (c: char)
    requires
        d < 16,
    ensures
        c == hex_digit(d as nat),
{
    if d < 10 {
        ((d + 48) as u8) as char
    } else {
        ((d + 55) as u8) as char
    }
}


fn push_hex(s: &mut String, n: usize)
    ensures
        final(s)@ == old(s)@ + hex_upper(n as nat),
    decreases n,
{
    if n >= 16 {
        push_hex(s, n / 16);
    }
    let d = n % 16;
    push_char(s, hex_digit_exec(d));
    proof {
        if n < 16 {
            assert(n % 16 == n);
        }
    }
}

/// The window id of a handle.
pub fn hwnd_id(hwnd: isize) -> (r: String)
    ensures
        r@ == spec_hwnd_id(hwnd),
{
    let mut s = String::new();
    let tag = "hwnd:";
    proof {
        reveal_strlit("hwnd:");
    }
    let mut i: usize = 0;
    let tag_chars = chars_of(tag);
    while i < tag_chars.len()
        invariant
            i <= tag_chars.len(),
            tag_chars@ == "hwnd:"@,
            s@ == tag_chars@.take(i as int),
        decreases tag_chars.len() - i,
    {
        push_char(&mut s, tag_chars[i]);
        assert(tag_chars@.take(i + 1) == tag_chars@.take(i as int).push(tag_chars@[i as int]));
        i += 1;
    }
    assert(tag_chars@.take(tag_chars.len() as int) == tag_chars@);
    push_hex(&mut s, hwnd as usize);
    s
}

fn hex_value_exec(c: char) -> (r: Option<u32>)
    ensures
        match hex_value(c) {
            Some(v) => r == Some(v as u32),
            None => r is None,
        },
{
    if '0' <= c && c <= '9' {
        Some((c as u32) - 48)
    } else if 'a' <= c && c <= 'f' {
        Some((c as u32) - 87)
    } else if 'A' <= c && c <= 'F' {
        Some((c as u32) - 55)
    } else {
        None
    }
}

proof fn lemma_hex_number_grows(s: Seq<char>, i: int)
    requires
        0 <= i <= s.len(),
        all_hex(s),
    ensures
        hex_number(s.take(i)) <= hex_number(s),
    decreases s.len() - i,
{
    if i < s.len() {
        lemma_hex_number_grows(s, i + 1);
        assert(s.take(i + 1).drop_last() == s.take(i));
        assert(hex_number(s.take(i + 1)) == hex_number(s.take(i)) * 16 + hex_value(
            s[i],
        ).unwrap_or(0));
    } else {
        assert(s.take(i) == s);
    }
}

/// `isize::from_str_radix(s, 16)`.
pub fn parse_hex_isize(s: &[char]) -> (r: Option<isize>)
    ensures
        match spec_parse_hex_isize(s@) {
            Some(v) => r == Some(v as isize),
            None => r is None,
        },
{
    let negative = s.len() > 0 && s[0] == '-';
    let start: usize = if s.len() > 0 && (s[0] == '+' || s[0] == '-') {
        1
    } else {
        0
    };
    let ghost digits = if s@.len() > 0 && (s@[0] == '+' || s@[0] == '-') {
        s@.drop_first()
    } else {
        s@
    };
    assert(digits == s@.subrange(start as int, s.len() as int));
    if start >= s.len() {
        return None;
    }
    let bound: u128 = if negative {
        (isize::MAX as u128) + 1
    } else {
        isize::MAX as u128
    };
    let mut acc: u128 = 0;
    let mut over = false;
    let mut i: usize = start;
    while i < s.len()
        invariant
            start <= i <= s.len(),
            digits == s@.subrange(start as int, s.len() as int),
            digits == (if s@.len() > 0 && (s@[0] == '+' || s@[0] == '-') {
                s@.drop_first()
            } else {
                s@
            }),
            negative == (s@.len() > 0 && s@[0] == '-'),
            bound == (if negative {
                isize::MAX + 1
            } else {
                isize::MAX as int
            }),
            bound <= (isize::MAX as u128) + 1,
            forall|k: int| 0 <= k < i - start ==> (#[trigger] hex_value(digits[k])) is Some,
            !over ==> acc == hex_number(digits.take(i - start)) && acc <= bound,
            over ==> all_hex(digits) ==> hex_number(digits) > bound,
        decreases s.len() - i,
    {
        let ghost k = i - start;
        match hex_value_exec(s[i]) {
            None => {
                assert(hex_value(digits[k]) is None);
                return None;
            },
            Some(d) => {
                proof {
                    assert(digits[k] == s@[i as int]);
                    assert(digits.take(k + 1).drop_last() == digits.take(k));
                }
                if !over {
                    let next = acc * 16 + d as u128;
                    if next > bound {
                        over = true;
                        proof {
                            if all_hex(digits) {
                                lemma_hex_number_grows(digits, k + 1);
                            }
                        }
                    } else {
                        acc = next;
                    }
                }
            },
        }
        i += 1;
    }
    assert(digits.take(digits.len() as int) == digits);
    assert(all_hex(digits));
    if over {
        return None;
    }
    if negative {
        if acc == (isize::MAX as u128) + 1 {
            Some(isize::MIN)
        } else {
            let v = acc as isize;
            Some(-v)
        }
    } else {
        Some(acc as isize)
    }
}

/// The handle of a window id, if it is one.
pub fn parse_hwnd_id(value: &str) -> (r: Option<isize>)
    ensures
        r == spec_parse_hwnd_id(value@),
{
    let v = chars_of(value);
    if !chars_starts_with(&v, &chars_of("hwnd:")) {
        return None;
    }
    proof {
        reveal_strlit("hwnd:");
    }
    let rest = &v[5..v.len()];
    assert(rest@ == value@.subrange(5, value@.len() as int));
    parse_hex_isize(rest)
}

proof fn lemma_hex_upper_round_trip(n: nat)
    ensures
        hex_upper(n).len() > 0,
        all_hex(hex_upper(n)),
        hex_number(hex_upper(n)) == n,
    decreases n,
{
    if n < 16 {
        let s = hex_upper(n);
        assert(s.drop_last().len() == 0);
        assert(hex_number(s.drop_last()) == 0);
    } else {
        lemma_hex_upper_round_trip(n / 16);
        let s = hex_upper(n);
        assert(s.drop_last() == hex_upper(n / 16));
        assert forall|i: int| 0 <= i < s.len() implies (#[trigger] hex_value(s[i])) is Some by {
            if i < s.len() - 1 {
                assert(s[i] == hex_upper(n / 16)[i]);
            }
        }
    }
}

/// A window id of a non-negative handle reads back as that handle.
pub proof fn law_hwnd_id_round_trip(hwnd: isize)
    requires
        hwnd >= 0,
    ensures
        spec_parse_hwnd_id(spec_hwnd_id(hwnd)) == Some(hwnd),
{
    reveal_strlit("hwnd:");
    let s = spec_hwnd_id(hwnd);
    let digits = hex_upper((hwnd as usize) as nat);
    lemma_hex_upper_round_trip((hwnd as usize) as nat);
    assert(s.subrange(0, 5) =~= "hwnd:"@);
    assert(has_prefix(s, "hwnd:"@));
    assert(s.subrange(5, s.len() as int) == digits);
    assert(digits[0] != '+' && digits[0] != '-') by {
        assert(hex_value(digits[0]) is Some);
    }
    assert((hwnd as usize) as nat == hwnd as nat);
}

} // verus!

verus! {

/// The characters of `s` before the first `sep` (all of `s` when there
/// is none): the first item of `str::split(sep)`.
pub open spec fn before_char(s: Seq<char>, sep: char) -> Seq<char>
    decreases s.len(),
{
    if s.len() == 0 {
        s
    } else if s[0] == sep {
        Seq::empty()
    } else {
        seq![s[0]] + before_char(s.drop_first(), sep)
    }
}

/// The characters of `v` before the first `sep`.
pub fn chars_before(v: &[char], sep: char) -> (r: Vec<char>)
    ensures
        r@ == before_char(v@, sep),
{
    let mut i: usize = 0;
    assert(v@.skip(0) == v@);
    assert(v@.take(0) + before_char(v@, sep) == before_char(v@, sep));
    while i < v.len() && v[i] != sep
        invariant
            i <= v.len(),
            forall|k: int| 0 <= k < i ==> v@[k] != sep,
            before_char(v@, sep) == v@.take(i as int) + before_char(v@.skip(i as int), sep),
        decreases v.len() - i,
    {
        proof {
            let rest = v@.skip(i as int);
            assert(rest[0] == v@[i as int]);
            assert(rest.drop_first() == v@.skip(i + 1));
            assert(v@.take(i + 1) == v@.take(i as int) + seq![v@[i as int]]);
        }
        i += 1;
    }
    proof {
        let rest = v@.skip(i as int);
        if i < v.len() {
            assert(rest[0] == sep);
        } else {
            assert(rest.len() == 0);
        }
        assert(v@.take(i as int) + Seq::<char>::empty() == v@.take(i as int));
    }
    let mut r: Vec<char> = Vec::new();
    let mut j: usize = 0;
    while j < i
        invariant
            j <= i <= v.len(),
            r@ == v@.take(j as int),
        decreases i - j,
    {
        r.push(v[j]);
        assert(v@.take(j + 1) == v@.take(j as int).push(v@[j as int]));
        j += 1;
    }
    proof {
        assert(v@.skip(0) == v@);
    }
    r
}

/// The value of a decimal digit, if it is one.
pub open spec fn decimal_value(c: char) -> Option<nat> {
    if '0' <= c && c <= '9' {
        Some((c as nat - 48) as nat)
    } else {
        None
    }
}

/// Every character is a decimal digit.
pub open spec fn all_decimal(s: Seq<char>) -> bool {
    forall|i: int| 0 <= i < s.len() ==> (#[trigger] decimal_value(s[i])) is Some
}

pub open spec fn decimal_number(s: Seq<char>) -> nat
    decreases s.len(),
{
    if s.len() == 0 {
        0
    } else {
        decimal_number(s.drop_last()) * 10 + decimal_value(s.last()).unwrap_or(0)
    }
}

/// `str::parse::<usize>()`: an optional `+`, then one or more decimal
/// digits, with the value in the range of `usize`.
pub open spec fn spec_parse_usize(s: Seq<char>) -> Option<usize> {
    let digits = if s.len() > 0 && s[0] == '+' {
        s.drop_first()
    } else {
        s
    };
    if digits.len() == 0 || !all_decimal(digits) {
        None
    } else if decimal_number(digits) <= usize::MAX {
        Some(decimal_number(digits) as usize)
    } else {
        None
    }
}

pub proof fn lemma_decimal_number_grows(s: Seq<char>, i: int)
    requires
        0 <= i <= s.len(),
    ensures
        decimal_number(s.take(i)) <= decimal_number(s),
    decreases s.len() - i,
{
    if i < s.len() {
        lemma_decimal_number_grows(s, i + 1);
        assert(s.take(i + 1).drop_last() == s.take(i));
    } else {
        assert(s.take(i) == s);
    }
}

/// `str::parse::<usize>()` on characters.
pub fn parse_usize(s: &[char]) -> (r: Option<usize>)
    ensures
        r == spec_parse_usize(s@),
{
    let start: usize = if s.len() > 0 && s[0] == '+' {
        1
    } else {
        0
    };
    let ghost digits = if s@.len() > 0 && s@[0] == '+' {
        s@.drop_first()
    } else {
        s@
    };
    assert(digits == s@.subrange(start as int, s.len() as int));
    if start >= s.len() {
        return None;
    }
    let mut acc: usize = 0;
    let mut over = false;
    let mut i: usize = start;
    while i < s.len()
        invariant
            start <= i <= s.len(),
            digits == s@.subrange(start as int, s.len() as int),
            digits == (if s@.len() > 0 && s@[0] == '+' {
                s@.drop_first()
            } else {
                s@
            }),
            forall|k: int| 0 <= k < i - start ==> (#[trigger] decimal_value(digits[k])) is Some,
            !over ==> acc == decimal_number(digits.take(i - start)),
            over ==> decimal_number(digits) > usize::MAX,
        decreases s.len() - i,
    {
        let ghost k = i - start;
        let c = s[i];
        assert(digits[k] == c);
        if !('0' <= c && c <= '9') {
            assert(decimal_value(digits[k]) is None);
            return None;
        }
        let d = (c as u32 - 48) as usize;
        proof {
            assert(digits.take(k + 1).drop_last() == digits.take(k));
        }
        if !over {
            match acc.checked_mul(10) {
                None => {
                    over = true;
                    proof {
                        lemma_decimal_number_grows(digits, k + 1);
                    }
                },
                Some(m) => match m.checked_add(d) {
                    None => {
                        over = true;
                        proof {
                            lemma_decimal_number_grows(digits, k + 1);
                        }
                    },
                    Some(next) => {
                        acc = next;
                    },
                },
            }
        }
        i += 1;
    }
    assert(digits.take(digits.len() as int) == digits);
    if over {
        None
    } else {
        Some(acc)
    }
}

/// The absolute document offset that a Word control id carries:
/// `word-com:<base>:...` or `outlook-word-com:<base>:...`.
pub open spec fn spec_parse_word_com_base(control_id: Seq<char>) -> Option<usize> {
    if has_prefix(control_id, "word-com:"@) {
        spec_parse_usize(before_char(control_id.subrange(9, control_id.len() as int), ':'))
    } else if has_prefix(control_id, "outlook-word-com:"@) {
        spec_parse_usize(before_char(control_id.subrange(17, control_id.len() as int), ':'))
    } else {
        None
    }
}

pub fn parse_word_com_base(control_id: &str) -> (r: Option<usize>)
    ensures
        r == spec_parse_word_com_base(control_id@),
{
    proof {
        reveal_strlit("word-com:");
        reveal_strlit("outlook-word-com:");
    }
    let v = chars_of(control_id);
    if chars_starts_with(&v, &chars_of("word-com:")) {
        let rest = &v[9..v.len()];
        assert(rest@ == control_id@.subrange(9, control_id@.len() as int));
        parse_usize(&chars_before(rest, ':'))
    } else if chars_starts_with(&v, &chars_of("outlook-word-com:")) {
        let rest = &v[17..v.len()];
        assert(rest@ == control_id@.subrange(17, control_id@.len() as int));
        parse_usize(&chars_before(rest, ':'))
    } else {
        None
    }
}

/// The UI Automation runtime id that a `uia:<id>:...` control id carries.
pub open spec fn spec_parse_uia_runtime_id(control_id: Seq<char>) -> Option<Seq<char>> {
    if has_prefix(control_id, "uia:"@) {
        Some(before_char(control_id.subrange(4, control_id.len() as int), ':'))
    } else {
        None
    }
}

pub fn parse_uia_runtime_id(control_id: &str) -> (r: Option<String>)
    ensures
        match spec_parse_uia_runtime_id(control_id@) {
            Some(id) => r matches Some(s) && s@ == id,
            None => r is None,
        },
{
    proof {
        reveal_strlit("uia:");
    }
    let v = chars_of(control_id);
    if chars_starts_with(&v, &chars_of("uia:")) {
        let rest = &v[4..v.len()];
        assert(rest@ == control_id@.subrange(4, control_id@.len() as int));
        Some(crate::text::string_from_chars(&chars_before(rest, ':')))
    } else {
        None
    }
}

/// The runtime id that a `uia-doc:<id>:...` or `uia-doc-caret:<id>:...`
/// control id carries.
pub open spec fn spec_parse_uia_document_runtime_id(control_id: Seq<char>) -> Option<Seq<char>> {
    if has_prefix(control_id, "uia-doc:"@) {
        Some(before_char(control_id.subrange(8, control_id.len() as int), ':'))
    } else if has_prefix(control_id, "uia-doc-caret:"@) {
        Some(before_char(control_id.subrange(14, control_id.len() as int), ':'))
    } else {
        None
    }
}

pub fn parse_uia_document_runtime_id(control_id: &str) -> (r: Option<String>)
    ensures
        match spec_parse_uia_document_runtime_id(control_id@) {
            Some(id) => r matches Some(s) && s@ == id,
            None => r is None,
        },
{
    proof {
        reveal_strlit("uia-doc:");
        reveal_strlit("uia-doc-caret:");
    }
    let v = chars_of(control_id);
    if chars_starts_with(&v, &chars_of("uia-doc:")) {
        let rest = &v[8..v.len()];
        assert(rest@ == control_id@.subrange(8, control_id@.len() as int));
        Some(crate::text::string_from_chars(&chars_before(rest, ':')))
    } else if chars_starts_with(&v, &chars_of("uia-doc-caret:")) {
        let rest = &v[14..v.len()];
        assert(rest@ == control_id@.subrange(14, control_id@.len() as int));
        Some(crate::text::string_from_chars(&chars_before(rest, ':')))
    } else {
        None
    }
}

} // verus!
