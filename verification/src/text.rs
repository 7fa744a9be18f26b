//! Character-level text helpers with their mathematical meaning.
//!
//! Strings are modelled by their views, `Seq<char>`. The helpers here are
//! the building blocks of every class-name, title and control-id test in
//! the library.
use vstd::prelude::*;

verus! {

/// ASCII lower-casing of one character (`char::to_ascii_lowercase`).
pub open spec fn lower_char(c: char) -> char {
    if 'A' <= c && c <= 'Z' {
        ((c as u32) + 32) as char
    } else {
        c
    }
}

/// ASCII lower-casing of a whole sequence (`str::to_ascii_lowercase`).
pub open spec fn lower_ascii(s: Seq<char>) -> Seq<char> {
    Seq::new(s.len(), |i: int| lower_char(s[i]))
}

/// `str::eq_ignore_ascii_case`.
pub open spec fn eq_ignore_ascii_case(a: Seq<char>, b: Seq<char>) -> bool {
    lower_ascii(a) == lower_ascii(b)
}

/// `p` is a prefix of `s`.
pub open spec fn has_prefix(s: Seq<char>, p: Seq<char>) -> bool {
    p.len() <= s.len() && s.subrange(0, p.len() as int) == p
}

/// `p` is a suffix of `s`.
pub open spec fn has_suffix(s: Seq<char>, p: Seq<char>) -> bool {
    p.len() <= s.len() && s.subrange(s.len() - p.len(), s.len() as int) == p
}

/// `p` occurs in `s` at position `i`.
pub open spec fn occurs_at(s: Seq<char>, p: Seq<char>, i: int) -> bool {
    0 <= i && i + p.len() <= s.len() && s.subrange(i, i + p.len()) == p
}

/// `p` occurs somewhere in `s` (`str::contains` with a string pattern).
pub open spec fn has_infix(s: Seq<char>, p: Seq<char>) -> bool {
    exists|i: int| occurs_at(s, p, i)
}

/// Unicode `White_Space` (`char::is_whitespace`).
pub open spec fn is_white(c: char) -> bool {
    ||| ('\u{9}' <= c && c <= '\u{d}')
    ||| c == ' '
    ||| c == '\u{85}'
    ||| c == '\u{a0}'
    ||| c == '\u{1680}'
    ||| ('\u{2000}' <= c && c <= '\u{200a}')
    ||| c == '\u{2028}'
    ||| c == '\u{2029}'
    ||| c == '\u{202f}'
    ||| c == '\u{205f}'
    ||| c == '\u{3000}'
}

/// Every character of `s` is white space.
pub open spec fn all_white(s: Seq<char>) -> bool {
    forall|i: int| 0 <= i < s.len() ==> is_white(#[trigger] s[i])
}

/// Number of leading white-space characters.
pub open spec fn lead_white(s: Seq<char>) -> nat
    decreases s.len(),
{
    if s.len() > 0 && is_white(s[0]) {
        1 + lead_white(s.drop_first())
    } else {
        0
    }
}

/// Number of trailing white-space characters.
pub open spec fn trail_white(s: Seq<char>) -> nat
    decreases s.len(),
{
    if s.len() > 0 && is_white(s.last()) {
        1 + trail_white(s.drop_last())
    } else {
        0
    }
}

/// `str::trim_end` (Unicode white space).
pub open spec fn trim_end(s: Seq<char>) -> Seq<char> {
    s.subrange(0, s.len() - trail_white(s))
}

/// `str::trim_start` (Unicode white space).
pub open spec fn trim_start(s: Seq<char>) -> Seq<char> {
    s.subrange(lead_white(s) as int, s.len() as int)
}

/// `str::trim` (Unicode white space).
pub open spec fn trim(s: Seq<char>) -> Seq<char> {
    trim_start(trim_end(s))
}

pub proof fn lemma_trail_white_bound(s: Seq<char>)
    ensures
        trail_white(s) <= s.len(),
        forall|i: int| s.len() - trail_white(s) <= i < s.len() ==> is_white(#[trigger] s[i]),
        trail_white(s) < s.len() ==> !is_white(s[s.len() - trail_white(s) - 1]),
    decreases s.len(),
{
    if s.len() > 0 && is_white(s.last()) {
        lemma_trail_white_bound(s.drop_last());
        assert forall|i: int| s.len() - trail_white(s) <= i < s.len() implies is_white(
            #[trigger] s[i],
        ) by {
            if i < s.len() - 1 {
                assert(s[i] == s.drop_last()[i]);
            }
        }
        if trail_white(s) < s.len() {
            assert(s[s.len() - trail_white(s) - 1] == s.drop_last()[s.len() - trail_white(s) - 1]);
        }
    }
}

pub proof fn lemma_lead_white_bound(s: Seq<char>)
    ensures
        lead_white(s) <= s.len(),
        forall|i: int| 0 <= i < lead_white(s) ==> is_white(#[trigger] s[i]),
        lead_white(s) < s.len() ==> !is_white(s[lead_white(s) as int]),
    decreases s.len(),
{
    if s.len() > 0 && is_white(s[0]) {
        lemma_lead_white_bound(s.drop_first());
        assert forall|i: int| 0 <= i < lead_white(s) implies is_white(#[trigger] s[i]) by {
            if i > 0 {
                assert(s[i] == s.drop_first()[i - 1]);
            }
        }
        if lead_white(s) < s.len() {
            assert(s[lead_white(s) as int] == s.drop_first()[lead_white(s) - 1]);
        }
    }
}

/// The characters of a string slice, in order.
pub fn chars_of(s: &str) -> (v: Vec<char>)
    ensures
        v@ == s@,
{
    let mut v: Vec<char> = Vec::new();
    for c in it: s.chars()
        invariant
            v@ == it.seq().take(it.index() as int),
            it.seq() == s@,
    {
        v.push(c);
    }
    v
}

/// Wraps `String::push`.
#[verifier::external_body]
pub(crate) fn push_char(s: &mut String, c: char)
    ensures
        final(s)@ == old(s)@.push(c),
{
    s.push(c);
}

/// The string made of the given characters.
pub fn string_from_chars(v: &[char]) -> (s: String)
    ensures
        s@ == v@,
{
    let mut s = String::new();
    let mut i: usize = 0;
    while i < v.len()
        invariant
            i <= v.len(),
            s@ == v@.take(i as int),
        decreases v.len() - i,
    {
        push_char(&mut s, v[i]);
        assert(v@.take(i + 1) == v@.take(i as int).push(v@[i as int]));
        i += 1;
    }
    assert(v@.take(v.len() as int) == v@);
    s
}

/// The string made of the characters of `v` in `start..end`.
pub fn string_from_range(v: &[char], start: usize, end: usize) -> (s: String)
    requires
        start <= end <= v.len(),
    ensures
        s@ == v@.subrange(start as int, end as int),
{
    let mut s = String::new();
    let mut i: usize = start;
    while i < end
        invariant
            start <= i <= end <= v.len(),
            s@ == v@.subrange(start as int, i as int),
        decreases end - i,
    {
        push_char(&mut s, v[i]);
        assert(v@.subrange(start as int, i + 1) == v@.subrange(start as int, i as int).push(
            v@[i as int],
        ));
        i += 1;
    }
    s
}

/// Concatenation of two strings.
pub fn concat(a: &str, b: &str) -> (s: String)
    ensures
        s@ == a@ + b@,
{
    let mut s = a.to_owned();
    s.append(b);
    s
}

/// ASCII lower-casing of one character.
pub fn lower_char_exec(c: char) -> (r: char)
    ensures
        r == lower_char(c),
{
    if 'A' <= c && c <= 'Z' {
        let code: u32 = c as u32;
        let lowered: u8 = (code + 32) as u8;
        lowered as char
    } else {
        c
    }
}

/// ASCII lower-casing of a character sequence.
pub fn lower_ascii_vec(v: &[char]) -> (r: Vec<char>)
    ensures
        r@ == lower_ascii(v@),
{
    let mut r: Vec<char> = Vec::new();
    let mut i: usize = 0;
    while i < v.len()
        invariant
            i <= v.len(),
            r@.len() == i,
            forall|j: int| 0 <= j < i ==> r@[j] == lower_char(v@[j]),
        decreases v.len() - i,
    {
        r.push(lower_char_exec(v[i]));
        i += 1;
    }
    assert(r@ == lower_ascii(v@));
    r
}

/// Sequence equality of two character slices.
pub fn chars_eq(a: &[char], b: &[char]) -> (r: bool)
    ensures
        r == (a@ == b@),
{
    if a.len() != b.len() {
        return false;
    }
    let mut i: usize = 0;
    while i < a.len()
        invariant
            i <= a.len() == b.len(),
            forall|j: int| 0 <= j < i ==> a@[j] == b@[j],
        decreases a.len() - i,
    {
        if a[i] != b[i] {
            return false;
        }
        i += 1;
    }
    assert(a@ == b@);
    true
}

/// `p` occurs in `s` at `start`.
pub fn chars_occur_at(s: &[char], p: &[char], start: usize) -> (r: bool)
    ensures
        r == occurs_at(s@, p@, start as int),
{
    if start > s.len() || p.len() > s.len() - start {
        return false;
    }
    let mut i: usize = 0;
    while i < p.len()
        invariant
            i <= p.len(),
            start + p.len() <= s.len(),
            forall|j: int| 0 <= j < i ==> s@[start + j] == p@[j],
        decreases p.len() - i,
    {
        if s[start + i] != p[i] {
            assert(s@.subrange(start as int, start + p.len())[i as int] != p@[i as int]);
            return false;
        }
        i += 1;
    }
    assert(s@.subrange(start as int, start + p.len()) == p@);
    true
}

/// `p` is a prefix of `s`.
pub fn chars_starts_with(s: &[char], p: &[char]) -> (r: bool)
    ensures
        r == has_prefix(s@, p@),
{
    chars_occur_at(s, p, 0)
}

/// `p` is a suffix of `s`.
pub fn chars_ends_with(s: &[char], p: &[char]) -> (r: bool)
    ensures
        r == has_suffix(s@, p@),
{
    if p.len() > s.len() {
        return false;
    }
    chars_occur_at(s, p, s.len() - p.len())
}

/// Position of the first occurrence of `p` in `s`.
pub fn chars_find(s: &[char], p: &[char]) -> (r: Option<usize>)
    ensures
        r matches Some(i) ==> occurs_at(s@, p@, i as int) && forall|j: int|
            0 <= j < i ==> !occurs_at(s@, p@, j),
        r is None ==> !has_infix(s@, p@),
{
    if p.len() > s.len() {
        return None;
    }
    let last: usize = s.len() - p.len();
    let mut i: usize = 0;
    loop
        invariant
            p.len() <= s.len(),
            last == s.len() - p.len(),
            i <= last,
            forall|j: int| 0 <= j < i ==> !occurs_at(s@, p@, j),
        ensures
            forall|j: int| 0 <= j <= last ==> !occurs_at(s@, p@, j),
        decreases last - i,
    {
        if chars_occur_at(s, p, i) {
            return Some(i);
        }
        if i == last {
            break;
        }
        i += 1;
    }
    assert forall|j: int| !occurs_at(s@, p@, j) by {
        if 0 <= j && j + p@.len() <= s@.len() {
            assert(j <= last);
        }
    }
    None
}

/// Position of the last occurrence of `p` in `s`.
pub fn chars_rfind(s: &[char], p: &[char]) -> (r: Option<usize>)
    ensures
        r matches Some(i) ==> occurs_at(s@, p@, i as int) && forall|j: int|
            i < j ==> !occurs_at(s@, p@, j),
        r is None ==> !has_infix(s@, p@),
{
    if p.len() > s.len() {
        return None;
    }
    let mut k: usize = s.len() - p.len();
    loop
        invariant
            p.len() <= s.len(),
            k <= s.len() - p.len(),
            forall|j: int| k < j ==> !occurs_at(s@, p@, j),
        ensures
            forall|j: int| 0 <= j ==> !occurs_at(s@, p@, j),
        decreases k,
    {
        if chars_occur_at(s, p, k) {
            return Some(k);
        }
        if k == 0 {
            break;
        }
        k -= 1;
    }
    None
}

/// `p` occurs in `s`.
pub fn chars_contains(s: &[char], p: &[char]) -> (r: bool)
    ensures
        r == has_infix(s@, p@),
{
    chars_find(s, p).is_some()
}

/// `c` occurs in `s`.
pub fn chars_contains_char(s: &[char], c: char) -> (r: bool)
    ensures
        r == s@.contains(c),
{
    let mut i: usize = 0;
    while i < s.len()
        invariant
            i <= s.len(),
            forall|j: int| 0 <= j < i ==> s@[j] != c,
        decreases s.len() - i,
    {
        if s[i] == c {
            return true;
        }
        i += 1;
    }
    false
}

/// `char::is_whitespace`.
pub fn is_white_exec(c: char) -> (r: bool)
    ensures
        r == is_white(c),
{
    ('\u{9}' <= c && c <= '\u{d}') || c == ' ' || c == '\u{85}' || c == '\u{a0}' || c
        == '\u{1680}' || ('\u{2000}' <= c && c <= '\u{200a}') || c == '\u{2028}' || c
        == '\u{2029}' || c == '\u{202f}' || c == '\u{205f}' || c == '\u{3000}'
}

/// Every character of `s` is white space.
pub fn chars_all_white(s: &[char]) -> (r: bool)
    ensures
        r == all_white(s@),
{
    let mut i: usize = 0;
    while i < s.len()
        invariant
            i <= s.len(),
            forall|j: int| 0 <= j < i ==> is_white(#[trigger] s@[j]),
        decreases s.len() - i,
    {
        if !is_white_exec(s[i]) {
            return false;
        }
        i += 1;
    }
    true
}

/// Length of `s` after `str::trim_end`.
pub fn trim_end_len(s: &[char]) -> (r: usize)
    ensures
        r == s@.len() - trail_white(s@),
{
    let mut k: usize = s.len();
    assert(s@.subrange(0, k as int) == s@);
    while k > 0 && is_white_exec(s[k - 1])
        invariant
            k <= s.len(),
            trail_white(s@) == (s.len() - k) + trail_white(s@.subrange(0, k as int)),
        decreases k,
    {
        let ghost t = s@.subrange(0, k as int);
        assert(t.drop_last() == s@.subrange(0, k - 1));
        k -= 1;
    }
    proof {
        let t = s@.subrange(0, k as int);
        assert(trail_white(t) == 0);
    }
    k
}

/// Number of leading white-space characters of `s`.
pub fn lead_white_len(s: &[char]) -> (r: usize)
    ensures
        r == lead_white(s@),
{
    let mut k: usize = 0;
    assert(s@.subrange(0, s.len() as int) == s@);
    while k < s.len() && is_white_exec(s[k])
        invariant
            k <= s.len(),
            lead_white(s@) == k + lead_white(s@.subrange(k as int, s.len() as int)),
        decreases s.len() - k,
    {
        let ghost t = s@.subrange(k as int, s.len() as int);
        assert(t.drop_first() == s@.subrange(k + 1, s.len() as int));
        k += 1;
    }
    proof {
        let t = s@.subrange(k as int, s.len() as int);
        assert(lead_white(t) == 0);
    }
    k
}

/// `s` with leading and trailing white space removed (`str::trim`).
pub fn trimmed_chars(s: &[char]) -> (r: Vec<char>)
    ensures
        r@ == trim(s@),
{
    let end = trim_end_len(s);
    proof {
        lemma_trail_white_bound(s@);
    }
    let head = &s[0..end];
    let lead = lead_white_len(head);
    proof {
        assert(head@ == trim_end(s@));
        crate::text::lemma_lead_white_bound(head@);
    }
    let mut r: Vec<char> = Vec::new();
    let mut i: usize = lead;
    while i < end
        invariant
            lead <= i <= end <= s.len(),
            head@ == s@.subrange(0, end as int),
            r@ == head@.subrange(lead as int, i as int),
        decreases end - i,
    {
        r.push(s[i]);
        assert(head@.subrange(lead as int, i + 1) == head@.subrange(lead as int, i as int).push(
            head@[i as int],
        ));
        i += 1;
    }
    r
}

/// `str::eq_ignore_ascii_case`.
pub fn str_eq_ignore_ascii_case(a: &str, b: &str) -> (r: bool)
    ensures
        r == eq_ignore_ascii_case(a@, b@),
{
    let la = lower_ascii_vec(&chars_of(a));
    let lb = lower_ascii_vec(&chars_of(b));
    chars_eq(&la, &lb)
}

/// `a == b` on string slices.
pub fn str_eq(a: &str, b: &str) -> (r: bool)
    ensures
        r == (a@ == b@),
{
    chars_eq(&chars_of(a), &chars_of(b))
}

/// `str::starts_with` with a string pattern.
pub fn str_starts_with(s: &str, p: &str) -> (r: bool)
    ensures
        r == has_prefix(s@, p@),
{
    chars_starts_with(&chars_of(s), &chars_of(p))
}

/// `str::ends_with` with a string pattern.
pub fn str_ends_with(s: &str, p: &str) -> (r: bool)
    ensures
        r == has_suffix(s@, p@),
{
    chars_ends_with(&chars_of(s), &chars_of(p))
}

/// `str::contains` with a string pattern.
pub fn str_contains(s: &str, p: &str) -> (r: bool)
    ensures
        r == has_infix(s@, p@),
{
    chars_contains(&chars_of(s), &chars_of(p))
}

/// `str::contains` with a character pattern.
pub fn str_contains_char(s: &str, c: char) -> (r: bool)
    ensures
        r == s@.contains(c),
{
    chars_contains_char(&chars_of(s), c)
}

/// The ASCII lower-case form of `s`, as characters.
pub fn lower_chars_of(s: &str) -> (r: Vec<char>)
    ensures
        r@ == lower_ascii(s@),
{
    lower_ascii_vec(&chars_of(s))
}

} // verus!

verus! {

/// Full Unicode lower-casing, as `str::to_lowercase` performs it.
pub uninterp spec fn unicode_lowercase(s: Seq<char>) -> Seq<char>;

/// Wraps `str::to_lowercase`; the result is named `unicode_lowercase` of
/// the argument (Unicode case mapping tables are not restated here). Of
/// ASCII text the documented result is its ASCII lower case (`A`-`Z` to
/// `a`-`z`, everything else kept); that is stated, and nothing more.
#[verifier::external_body]
pub(crate) fn to_lowercase(s: &str) -> (r: String)
    ensures
        r@ == unicode_lowercase(s@),
        vstd::utf8::is_ascii_chars(s@) ==> r@ == lower_ascii(s@),
{
    s.to_lowercase()
}

/// The lower case of `s`: its ASCII lower case when it is ASCII, its full
/// Unicode lower case otherwise.
pub open spec fn lowercase(s: Seq<char>) -> Seq<char> {
    if vstd::utf8::is_ascii_chars(s) {
        lower_ascii(s)
    } else {
        unicode_lowercase(s)
    }
}

/// `title.to_lowercase().contains(&needle.to_lowercase())`.
pub open spec fn spec_title_contains(title: Seq<char>, needle: Seq<char>) -> bool {
    has_infix(lowercase(title), lowercase(needle))
}

/// Case-insensitive (Unicode) substring test used on window titles.
pub fn title_contains(title: &str, needle: &str) -> (r: bool)
    ensures
        r == spec_title_contains(title@, needle@),
{
    let t = to_lowercase(title);
    let n = to_lowercase(needle);
    str_contains(t.as_str(), n.as_str())
}

/// `p` is an ASCII-case-insensitive prefix of `s`.
pub open spec fn has_prefix_ignore_ascii_case(s: Seq<char>, p: Seq<char>) -> bool {
    p.len() <= s.len() && eq_ignore_ascii_case(s.subrange(0, p.len() as int), p)
}

/// ASCII-case-insensitive prefix test.
pub fn str_starts_with_ignore_ascii_case(s: &str, p: &str) -> (r: bool)
    ensures
        r == has_prefix_ignore_ascii_case(s@, p@),
{
    let sv = chars_of(s);
    let pv = chars_of(p);
    if pv.len() > sv.len() {
        return false;
    }
    let head = lower_ascii_vec(&sv[0..pv.len()]);
    let lp = lower_ascii_vec(&pv);
    let r = chars_eq(&head, &lp);
    proof {
        assert(sv@.subrange(0, pv.len() as int) == s@.subrange(0, p@.len() as int));
    }
    r
}

} // verus!

verus! {

/// The character of a decimal digit.
pub open spec fn digit_char(d: nat) -> char {
    (d + 48) as char
}

/// Decimal notation of a natural number (`Display` for unsigned integers).
pub open spec fn decimal(n: nat) -> Seq<char>
    decreases n,
{
    if n < 10 {
        seq![digit_char(n)]
    } else {
        decimal(n / 10).push(digit_char(n % 10))
    }
}

fn digit(d: u64) -> (c: char)
    requires
        d < 10,
    ensures
        c == digit_char(d as nat),
{
    let b: u8 = (d as u8) + 48;
    b as char
}

/// Decimal notation of `n`.
pub fn decimal_string(n: u64) -> (s: String)
    ensures
        s@ == decimal(n as nat),
    decreases n,
{
    if n < 10 {
        let mut s = String::new();
        push_char(&mut s, digit(n));
        s
    } else {
        let mut s = decimal_string(n / 10);
        push_char(&mut s, digit(n % 10));
        s
    }
}

/// The elements of `list` separated by `sep` (`[T]::join`).
pub open spec fn join(list: Seq<Seq<char>>, sep: Seq<char>) -> Seq<char>
    decreases list.len(),
{
    if list.len() == 0 {
        Seq::<char>::empty()
    } else if list.len() == 1 {
        list[0]
    } else {
        join(list.drop_last(), sep) + sep + list.last()
    }
}

/// The strings of `list` separated by `sep`.
pub fn join_strings(list: &[String], sep: &str) -> (s: String)
    ensures
        s@ == join(list@.map_values(|v: String| v@), sep@),
{
    let ghost views = list@.map_values(|v: String| v@);
    let mut s = String::new();
    let mut i: usize = 0;
    while i < list.len()
        invariant
            i <= list.len(),
            views == list@.map_values(|v: String| v@),
            s@ == join(views.take(i as int), sep@),
        decreases list.len() - i,
    {
        proof {
            assert(views.take(i + 1).drop_last() == views.take(i as int));
            assert(views.take(i + 1).last() == list@[i as int]@);
        }
        if i != 0 {
            s.append(sep);
        }
        s.append(list[i].as_str());
        proof {
            if i == 0 {
                assert(views.take(0) == Seq::<Seq<char>>::empty());
                assert(s@ == list@[0]@);
            }
        }
        i += 1;
    }
    assert(views.take(list.len() as int) == views);
    s
}

} // verus!

verus! {

/// Bytes in the UTF-8 encoding of a character.
pub open spec fn utf8_width(c: char) -> nat {
    if (c as u32) <= 0x7F {
        1
    } else if (c as u32) <= 0x7FF {
        2
    } else if (c as u32) <= 0xFFFF {
        3
    } else {
        4
    }
}

/// Code units in the UTF-16 encoding of a character.
pub open spec fn utf16_width(c: char) -> nat {
    if (c as u32) <= 0xFFFF {
        1
    } else {
        2
    }
}

/// Bytes in the UTF-8 encoding of `s` (`str::len`).
pub open spec fn utf8_len(s: Seq<char>) -> nat
    decreases s.len(),
{
    if s.len() == 0 {
        0
    } else {
        utf8_len(s.drop_last()) + utf8_width(s.last())
    }
}

/// Code units in the UTF-16 encoding of `s`.
pub open spec fn utf16_len(s: Seq<char>) -> nat
    decreases s.len(),
{
    if s.len() == 0 {
        0
    } else {
        utf16_len(s.drop_last()) + utf16_width(s.last())
    }
}

pub proof fn lemma_utf8_len_concat(a: Seq<char>, b: Seq<char>)
    ensures
        utf8_len(a + b) == utf8_len(a) + utf8_len(b),
    decreases b.len(),
{
    if b.len() > 0 {
        assert((a + b).drop_last() == a + b.drop_last());
        lemma_utf8_len_concat(a, b.drop_last());
    } else {
        assert(a + b == a);
    }
}

pub proof fn lemma_utf16_len_concat(a: Seq<char>, b: Seq<char>)
    ensures
        utf16_len(a + b) == utf16_len(a) + utf16_len(b),
    decreases b.len(),
{
    if b.len() > 0 {
        assert((a + b).drop_last() == a + b.drop_last());
        lemma_utf16_len_concat(a, b.drop_last());
    } else {
        assert(a + b == a);
    }
}

/// `utf8_len` agrees with the length of vstd's UTF-8 encoding.
pub proof fn lemma_utf8_len_is_encoded_len(s: Seq<char>)
    ensures
        utf8_len(s) == vstd::utf8::encode_utf8(s).len(),
    decreases s.len(),
{
    if s.len() > 0 {
        let head = s.subrange(0, 1);
        let tail = s.drop_first();
        assert(s == head + tail);
        lemma_utf8_len_concat(head, tail);
        assert(head.drop_last() == Seq::<char>::empty());
        lemma_utf8_len_is_encoded_len(tail);
        vstd::utf8::char_is_scalar(s[0]);
        assert(utf8_len(head) == utf8_width(s[0])) by {
            assert(head.last() == s[0]);
            assert(head.drop_last().len() == 0);
            assert(utf8_len(head.drop_last()) == 0);
        }
        assert(vstd::utf8::encode_scalar(s[0] as u32).len() == utf8_width(s[0]));
    }
}

pub proof fn lemma_utf8_len_take(s: Seq<char>, i: int)
    requires
        0 <= i < s.len(),
    ensures
        utf8_len(s.take(i + 1)) == utf8_len(s.take(i)) + utf8_width(s[i]),
{
    assert(s.take(i + 1).drop_last() == s.take(i));
}

pub proof fn lemma_utf16_len_take(s: Seq<char>, i: int)
    requires
        0 <= i < s.len(),
    ensures
        utf16_len(s.take(i + 1)) == utf16_len(s.take(i)) + utf16_width(s[i]),
{
    assert(s.take(i + 1).drop_last() == s.take(i));
}

pub proof fn lemma_utf8_len_monotone(s: Seq<char>, i: int, j: int)
    requires
        0 <= i <= j <= s.len(),
    ensures
        utf8_len(s.take(i)) <= utf8_len(s.take(j)),
        utf8_len(s.take(i)) + (j - i) <= utf8_len(s.take(j)),
    decreases j - i,
{
    if i < j {
        lemma_utf8_len_take(s, j - 1);
        lemma_utf8_len_monotone(s, i, j - 1);
    }
}

pub fn char_utf8_width(c: char) -> (r: usize)
    ensures
        r == utf8_width(c),
{
    let u = c as u32;
    if u <= 0x7F {
        1
    } else if u <= 0x7FF {
        2
    } else if u <= 0xFFFF {
        3
    } else {
        4
    }
}

pub fn char_utf16_width(c: char) -> (r: usize)
    ensures
        r == utf16_width(c),
{
    if (c as u32) <= 0xFFFF {
        1
    } else {
        2
    }
}

/// Whether the UTF-8 encoding of `v` takes at most `limit` bytes.
pub fn utf8_len_at_most(v: &[char], limit: usize) -> (r: bool)
    ensures
        r == (utf8_len(v@) <= limit),
{
    let mut total: usize = 0;
    let mut i: usize = 0;
    while i < v.len()
        invariant
            i <= v.len(),
            total == utf8_len(v@.take(i as int)),
            total <= limit,
        decreases v.len() - i,
    {
        proof {
            lemma_utf8_len_take(v@, i as int);
        }
        let w = char_utf8_width(v[i]);
        if w > limit - total {
            proof {
                lemma_utf8_len_monotone(v@, i + 1, v.len() as int);
                assert(v@.take(v.len() as int) == v@);
            }
            return false;
        }
        total = total + w;
        i += 1;
    }
    assert(v@.take(v.len() as int) == v@);
    true
}

/// Bytes in the UTF-8 encoding of `v`.
pub fn utf8_len_of(v: &[char]) -> (r: usize)
    requires
        utf8_len(v@) <= usize::MAX,
    ensures
        r == utf8_len(v@),
{
    let mut total: usize = 0;
    let mut i: usize = 0;
    while i < v.len()
        invariant
            i <= v.len(),
            total == utf8_len(v@.take(i as int)),
            utf8_len(v@) <= usize::MAX,
        decreases v.len() - i,
    {
        proof {
            lemma_utf8_len_take(v@, i as int);
            lemma_utf8_len_monotone(v@, i + 1, v.len() as int);
            assert(v@.take(v.len() as int) == v@);
        }
        total = total + char_utf8_width(v[i]);
        i += 1;
    }
    assert(v@.take(v.len() as int) == v@);
    total
}

/// Number of line feeds in `s`.
pub open spec fn line_feeds(s: Seq<char>) -> nat
    decreases s.len(),
{
    if s.len() == 0 {
        0
    } else {
        line_feeds(s.drop_last()) + if s.last() == '\n' {
            1nat
        } else {
            0nat
        }
    }
}

pub proof fn lemma_line_feeds_bound(s: Seq<char>)
    ensures
        line_feeds(s) <= s.len(),
    decreases s.len(),
{
    if s.len() > 0 {
        lemma_line_feeds_bound(s.drop_last());
    }
}

/// Number of lines `str::lines` yields: one per line feed, plus a last
/// line when the text does not end with a line feed.
pub open spec fn line_count(s: Seq<char>) -> nat {
    line_feeds(s) + if s.len() > 0 && s.last() != '\n' {
        1nat
    } else {
        0nat
    }
}

/// `text.lines().count() <= limit`.
pub fn line_count_at_most(v: &[char], limit: usize) -> (r: bool)
    ensures
        r == (line_count(v@) <= limit),
{
    let mut feeds: usize = 0;
    let mut i: usize = 0;
    while i < v.len()
        invariant
            i <= v.len(),
            feeds == line_feeds(v@.take(i as int)),
            feeds <= i,
        decreases v.len() - i,
    {
        proof {
            assert(v@.take(i + 1).drop_last() == v@.take(i as int));
            lemma_line_feeds_bound(v@.take(i as int));
        }
        if v[i] == '\n' {
            feeds = feeds + 1;
        }
        i += 1;
    }
    assert(v@.take(v.len() as int) == v@);
    let last_open: usize = if v.len() > 0 && v[v.len() - 1] != '\n' {
        1
    } else {
        0
    };
    feeds as u128 + last_open as u128 <= limit as u128
}

} // verus!

verus! {

/// The length of the string's UTF-8 encoding in bytes.
pub fn byte_len(s: &str) -> (r: usize)
    ensures
        r == utf8_len(s@),
{
    let bytes = s.as_bytes();
    proof {
        lemma_utf8_len_is_encoded_len(s@);
    }
    bytes.len()
}

} // verus!
