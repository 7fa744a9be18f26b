//! Offsets into captured text. Contexts and plans count UTF-8 bytes; edit
//! controls count UTF-16 units with a CR LF pair as one position; readline
//! counts characters. Text is modelled as its characters, and a byte offset
//! is a character boundary when some prefix of whole characters has that
//! many bytes.
use vstd::prelude::*;
use crate::model::{ReplacementPlan, TextContext, TextRange};
use crate::text::{
    char_utf16_width, char_utf8_width, chars_of, lemma_utf16_len_take, lemma_utf8_len_monotone,
    lemma_utf8_len_take, string_from_range, utf16_len, utf16_width, utf8_len, utf8_len_of,
    utf8_width,
};

verus! {

/// Byte offset `b` falls between two characters of `t` (or at an end).
pub open spec fn is_char_boundary(t: Seq<char>, b: int) -> bool {
    exists|k: int| 0 <= k <= t.len() && utf8_len(t.take(k)) == b
}

/// The number of characters before byte offset `b`, when `b` is a
/// boundary.
pub open spec fn char_index_of_byte(t: Seq<char>, b: int) -> int {
    choose|k: int| 0 <= k <= t.len() && utf8_len(t.take(k)) == b
}

proof fn lemma_utf8_prefix_strictly_grows(t: Seq<char>, i: int, j: int)
    requires
        0 <= i < j <= t.len(),
    ensures
        utf8_len(t.take(i)) < utf8_len(t.take(j)),
{
    lemma_utf8_len_monotone(t, i, j);
}

/// A boundary has exactly one character index.
pub proof fn lemma_char_index_unique(t: Seq<char>, k1: int, k2: int)
    requires
        0 <= k1 <= t.len(),
        0 <= k2 <= t.len(),
        utf8_len(t.take(k1)) == utf8_len(t.take(k2)),
    ensures
        k1 == k2,
{
    if k1 < k2 {
        lemma_utf8_prefix_strictly_grows(t, k1, k2);
    }
    if k2 < k1 {
        lemma_utf8_prefix_strictly_grows(t, k2, k1);
    }
}

/// The character index at byte offset `b`, if `b` is a boundary.
pub fn char_index_at_byte(v: &[char], b: usize) -> (r: Option<usize>)
    ensures
        match r {
            Some(k) => k <= v.len() && utf8_len(v@.take(k as int)) == b,
            None => !is_char_boundary(v@, b as int),
        },
{
    let mut k: usize = 0;
    let mut bytes: usize = 0;
    while k < v.len() && bytes < b
        invariant
            k <= v.len(),
            bytes == utf8_len(v@.take(k as int)),
            bytes <= b,
            forall|j: int| 0 <= j < k ==> utf8_len(#[trigger] v@.take(j)) < b,
        decreases v.len() - k,
    {
        proof {
            lemma_utf8_len_take(v@, k as int);
        }
        let w = char_utf8_width(v[k]);
        if w > b - bytes {
            proof {
                assert forall|j: int| 0 <= j <= v.len() implies utf8_len(#[trigger] v@.take(j))
                    != b by {
                    if j <= k {
                        if j < k {
                        }
                    } else {
                        lemma_utf8_len_monotone(v@, k + 1, j);
                    }
                }
            }
            return None;
        }
        bytes = bytes + w;
        k += 1;
    }
    if bytes == b {
        Some(k)
    } else {
        proof {
            assert(k == v.len());
            assert forall|j: int| 0 <= j <= v.len() implies utf8_len(#[trigger] v@.take(j)) != b by {
                if j < k {
                } else {
                    assert(j == k);
                }
            }
        }
        None
    }
}

/// The text of a byte range: `None` unless `start <= end <= len` and both
/// ends are boundaries.
pub open spec fn spec_slice_by_range(t: Seq<char>, range: TextRange) -> Option<Seq<char>> {
    if range.start <= range.end && range.end <= utf8_len(t) && is_char_boundary(t, range.start as int)
        && is_char_boundary(t, range.end as int) {
        Some(
            t.subrange(
                char_index_of_byte(t, range.start as int),
                char_index_of_byte(t, range.end as int),
            ),
        )
    } else {
        None
    }
}

proof fn lemma_choose_index(t: Seq<char>, b: int, k: int)
    requires
        0 <= k <= t.len(),
        utf8_len(t.take(k)) == b,
    ensures
        is_char_boundary(t, b),
        char_index_of_byte(t, b) == k,
{
    let c = char_index_of_byte(t, b);
    lemma_char_index_unique(t, c, k);
}

/// The characters of `text` in the byte range, if it is a valid range.
pub fn slice_by_range(text: &str, range: TextRange) -> (r: Option<String>)
    ensures
        match spec_slice_by_range(text@, range) {
            Some(s) => r matches Some(x) && x@ == s,
            None => r is None,
        },
{
    let v = chars_of(text);
    if range.start > range.end {
        return None;
    }
    let start = char_index_at_byte(&v, range.start);
    let end = char_index_at_byte(&v, range.end);
    match (start, end) {
        (Some(i), Some(j)) => {
            proof {
                lemma_choose_index(v@, range.start as int, i as int);
                lemma_choose_index(v@, range.end as int, j as int);
                assert(v@.take(v.len() as int) == v@);
                lemma_utf8_len_monotone(v@, j as int, v.len() as int);
                if i > j {
                    lemma_utf8_len_monotone(v@, j as int, i as int);
                }
            }
            Some(string_from_range(&v, i, j))
        },
        _ => None,
    }
}

/// `text` with the byte range replaced, if the range is valid.
pub open spec fn spec_replace_range_text(t: Seq<char>, range: TextRange, replacement: Seq<char>) -> Option<
    Seq<char>,
> {
    match spec_slice_by_range(t, range) {
        None => None,
        Some(_) => Some(
            t.take(char_index_of_byte(t, range.start as int)) + replacement + t.skip(
                char_index_of_byte(t, range.end as int),
            ),
        ),
    }
}

pub fn replace_range_text(text: &str, range: TextRange, replacement: &str) -> (r: Option<String>)
    ensures
        match spec_replace_range_text(text@, range, replacement@) {
            Some(s) => r matches Some(x) && x@ == s,
            None => r is None,
        },
{
    let v = chars_of(text);
    if range.start > range.end {
        return None;
    }
    let start = char_index_at_byte(&v, range.start);
    let end = char_index_at_byte(&v, range.end);
    match (start, end) {
        (Some(i), Some(j)) => {
            proof {
                lemma_choose_index(v@, range.start as int, i as int);
                lemma_choose_index(v@, range.end as int, j as int);
                assert(v@.take(v.len() as int) == v@);
                lemma_utf8_len_monotone(v@, j as int, v.len() as int);
                if i > j {
                    lemma_utf8_len_monotone(v@, j as int, i as int);
                }
            }
            let head = string_from_range(&v, 0, i);
            let tail = string_from_range(&v, j, v.len());
            let s1 = crate::text::concat(head.as_str(), replacement);
            let s2 = crate::text::concat(s1.as_str(), tail.as_str());
            proof {
                assert(v@.subrange(0, i as int) == v@.take(i as int));
                assert(v@.subrange(j as int, v.len() as int) == v@.skip(j as int));
            }
            Some(s2)
        },
        _ => None,
    }
}

/// The caret after a replacement: before the range it stays, inside the
/// range it moves to the end of the new text, after the range it shifts by
/// the change in length.
pub open spec fn spec_adjusted_caret(caret: int, range: TextRange, replacement_len: int) -> int {
    if caret <= range.start {
        caret
    } else if caret <= range.end {
        range.start + replacement_len
    } else {
        caret + replacement_len - (range.end - range.start)
    }
}

/// The caret of `context` after `plan` is applied, in bytes. A caret past
/// the start of a range that ends before it starts has no place (the
/// length of such a range would underflow), so that case is excluded.
pub fn win32_adjusted_caret_after_replacement(context: &TextContext, plan: &ReplacementPlan) -> (r:
    usize)
    requires
        context.caret_range.end > plan.range.start ==> plan.range.start <= plan.range.end,
        context.caret_range.end > plan.range.start && context.caret_range.end <= plan.range.end
            ==> utf8_len(plan.replacement_text@) + plan.range.start <= usize::MAX,
        context.caret_range.end > plan.range.end ==> utf8_len(plan.replacement_text@)
            + context.caret_range.end <= usize::MAX,
    ensures
        r == spec_adjusted_caret(
            context.caret_range.end as int,
            plan.range,
            utf8_len(plan.replacement_text@) as int,
        ),
{
    let caret = context.caret_range.end;
    let replacement_len = crate::text::byte_len(plan.replacement_text.as_str());
    adjusted_cursor_after_replacement(caret, plan.range, replacement_len)
}

/// The cursor after a replacement of `range` by `replacement_len` bytes.
pub fn adjusted_cursor_after_replacement(cursor: usize, range: TextRange, replacement_len: usize) -> (r:
    usize)
    requires
        cursor > range.start ==> range.start <= range.end,
        cursor > range.start && cursor <= range.end ==> replacement_len + range.start <= usize::MAX,
        cursor > range.end ==> replacement_len + cursor <= usize::MAX,
    ensures
        r == spec_adjusted_caret(cursor as int, range, replacement_len as int),
{
    if cursor <= range.start {
        cursor
    } else if cursor <= range.end {
        range.start + replacement_len
    } else {
        cursor + replacement_len - (range.end - range.start)
    }
}

/// A caret after the replaced range keeps its distance to the end of the
/// text; one before it keeps its offset.
pub proof fn law_caret_keeps_its_place(caret: int, range: TextRange, replacement_len: int)
    requires
        range.start <= range.end,
    ensures
        caret <= range.start ==> spec_adjusted_caret(caret, range, replacement_len) == caret,
        caret > range.end ==> spec_adjusted_caret(caret, range, replacement_len) - (range.start
            + replacement_len) == caret - range.end,
{
}

/// The UTF-16 offset of byte offset `b`: the UTF-16 length of the text
/// before it, or of the whole text when `b` is at or past its end.
pub open spec fn spec_byte_offset_to_utf16(t: Seq<char>, b: int) -> nat {
    if b >= utf8_len(t) {
        utf16_len(t)
    } else {
        utf16_len(t.take(char_index_of_byte(t, b)))
    }
}

proof fn lemma_utf16_le_utf8(t: Seq<char>, k: int)
    requires
        0 <= k <= t.len(),
    ensures
        utf16_len(t.take(k)) <= utf8_len(t.take(k)),
    decreases k,
{
    if k > 0 {
        lemma_utf16_le_utf8(t, k - 1);
        lemma_utf8_len_take(t, k - 1);
        lemma_utf16_len_take(t, k - 1);
    }
}

/// Code units before byte offset `b`.
pub fn byte_offset_to_utf16(text: &str, byte_offset: usize) -> (r: usize)
    requires
        byte_offset >= utf8_len(text@) || is_char_boundary(text@, byte_offset as int),
    ensures
        r == spec_byte_offset_to_utf16(text@, byte_offset as int),
{
    let _ = crate::text::byte_len(text);
    let v = chars_of(text);
    let mut k: usize = 0;
    let mut bytes: usize = 0;
    let mut units: usize = 0;
    proof {
        assert(v@.take(v.len() as int) == v@);
    }
    while k < v.len() && bytes < byte_offset
        invariant
            k <= v.len(),
            v@ == text@,
            v@.take(v.len() as int) == v@,
            utf8_len(v@) <= usize::MAX,
            bytes == utf8_len(v@.take(k as int)),
            units == utf16_len(v@.take(k as int)),
            units <= bytes,
            forall|j: int| 0 <= j < k ==> utf8_len(#[trigger] v@.take(j)) < byte_offset,
        decreases v.len() - k,
    {
        proof {
            lemma_utf8_len_take(v@, k as int);
            lemma_utf16_len_take(v@, k as int);
            lemma_utf8_len_monotone(v@, k + 1, v.len() as int);
            lemma_utf16_le_utf8(v@, k + 1);
            assert forall|j: int| 0 <= j < k + 1 implies utf8_len(#[trigger] v@.take(j))
                < byte_offset by {
                if j == k {
                } else {
                }
            }
        }
        bytes = bytes + char_utf8_width(v[k]);
        units = units + char_utf16_width(v[k]);
        k += 1;
    }
    proof {
        if byte_offset >= utf8_len(text@) {
            if k < v.len() {
                lemma_utf8_prefix_strictly_grows(v@, k as int, v.len() as int);
            }
        } else {
            let c = char_index_of_byte(v@, byte_offset as int);
            assert(0 <= c <= v.len() && utf8_len(v@.take(c)) == byte_offset);
            if c < k {
                assert(utf8_len(v@.take(c)) < byte_offset);
            }
            if c > k {
                lemma_utf8_prefix_strictly_grows(v@, k as int, c);
                if k == v.len() {
                    assert(false);
                }
            }
            if k == v.len() && c == k {
                assert(false);
            }
            assert(c == k);
        }
    }
    units
}

/// The number of characters before byte offset `b`, or of the whole text
/// when `b` is at or past its end.
pub open spec fn spec_byte_offset_to_char(t: Seq<char>, b: int) -> int {
    if b >= utf8_len(t) {
        t.len() as int
    } else {
        char_index_of_byte(t, b)
    }
}

/// Characters before byte offset `b` (readline points count characters).
pub fn byte_offset_to_char(text: &str, byte_offset: usize) -> (r: usize)
    requires
        byte_offset >= utf8_len(text@) || is_char_boundary(text@, byte_offset as int),
    ensures
        r == spec_byte_offset_to_char(text@, byte_offset as int),
{
    let v = chars_of(text);
    proof {
        assert(v@.take(v.len() as int) == v@);
    }
    match char_index_at_byte(&v, byte_offset) {
        Some(k) => {
            proof {
                lemma_choose_index(v@, byte_offset as int, k as int);
                if byte_offset >= utf8_len(text@) {
                    lemma_utf8_len_monotone(v@, k as int, v.len() as int);
                    if k < v.len() {
                        lemma_utf8_prefix_strictly_grows(v@, k as int, v.len() as int);
                    }
                }
            }
            k
        },
        None => v.len(),
    }
}

/// The byte offset of character index `n`: the end of the text when `n` is
/// its length, `None` past it.
pub open spec fn spec_char_offset_to_byte(t: Seq<char>, n: int) -> Option<int> {
    if 0 <= n <= t.len() {
        Some(utf8_len(t.take(n)) as int)
    } else {
        None
    }
}

pub fn char_offset_to_byte(text: &str, target_chars: usize) -> (r: Option<usize>)
    ensures
        match spec_char_offset_to_byte(text@, target_chars as int) {
            Some(b) => r == Some(b as usize),
            None => r is None,
        },
{
    let _ = crate::text::byte_len(text);
    let v = chars_of(text);
    if target_chars > v.len() {
        return None;
    }
    let mut k: usize = 0;
    let mut bytes: usize = 0;
    proof {
        assert(v@.take(v.len() as int) == v@);
    }
    while k < target_chars
        invariant
            k <= target_chars <= v.len(),
            v@ == text@,
            v@.take(v.len() as int) == v@,
            utf8_len(v@) <= usize::MAX,
            bytes == utf8_len(v@.take(k as int)),
        decreases target_chars - k,
    {
        proof {
            lemma_utf8_len_take(v@, k as int);
            lemma_utf8_len_monotone(v@, k + 1, v.len() as int);
        }
        bytes = bytes + char_utf8_width(v[k]);
        k += 1;
    }
    Some(bytes)
}

/// A character offset converted to bytes and back is unchanged.
pub proof fn law_char_byte_round_trip(t: Seq<char>, n: int)
    requires
        0 <= n <= t.len(),
    ensures
        is_char_boundary(t, utf8_len(t.take(n)) as int),
        spec_byte_offset_to_char(t, utf8_len(t.take(n)) as int) == n,
{
    lemma_choose_index(t, utf8_len(t.take(n)) as int, n);
    assert(t.take(t.len() as int) == t);
    if utf8_len(t.take(n)) >= utf8_len(t) && n < t.len() {
        lemma_utf8_prefix_strictly_grows(t, n, t.len() as int);
    }
}


/// A CR LF pair starts at character `i`.
pub open spec fn is_crlf_at(t: Seq<char>, i: int) -> bool {
    0 <= i && i + 1 < t.len() && t[i] == '\r' && t[i + 1] == '\n'
}

/// Walking `t` from character `i`, which starts at byte `b` and edit
/// position `u`: the byte at which edit position `target` starts. A CR LF
/// pair is one edit position; any other character counts its UTF-16 units.
pub open spec fn edit_walk_to_byte(t: Seq<char>, i: int, b: nat, u: nat, target: nat) -> Option<nat>
    decreases t.len() - i,
{
    if u == target {
        Some(b)
    } else if i < 0 || i >= t.len() {
        None
    } else if is_crlf_at(t, i) {
        edit_walk_to_byte(t, i + 2, b + 2, u + 1, target)
    } else {
        edit_walk_to_byte(t, i + 1, b + utf8_width(t[i]), u + utf16_width(t[i]), target)
    }
}

/// Walking `t` from character `i` (byte `b`, edit position `u`): the edit
/// position at byte `target`; `None` when `target` splits a CR LF pair.
pub open spec fn edit_walk_to_edit(t: Seq<char>, i: int, b: nat, u: nat, target: nat) -> Option<nat>
    decreases t.len() - i,
{
    if b >= target {
        Some(u)
    } else if i < 0 || i >= t.len() {
        None
    } else if is_crlf_at(t, i) {
        if target < b + 2 {
            None
        } else {
            edit_walk_to_edit(t, i + 2, b + 2, u + 1, target)
        }
    } else {
        edit_walk_to_edit(t, i + 1, b + utf8_width(t[i]), u + utf16_width(t[i]), target)
    }
}

/// The byte offset of edit position `edit_offset`, if it starts a position.
pub open spec fn spec_edit_offset_to_byte_offset(t: Seq<char>, edit_offset: nat) -> Option<nat> {
    edit_walk_to_byte(t, 0, 0, 0, edit_offset)
}

/// The edit position of byte offset `byte_offset`, if it is a boundary
/// that does not split a CR LF pair.
pub open spec fn spec_byte_offset_to_edit_offset(t: Seq<char>, byte_offset: nat) -> Option<nat> {
    if byte_offset > utf8_len(t) || !is_char_boundary(t, byte_offset as int) {
        None
    } else {
        edit_walk_to_edit(t, 0, 0, 0, byte_offset)
    }
}

proof fn lemma_crlf_bytes(t: Seq<char>, i: int)
    requires
        is_crlf_at(t, i),
    ensures
        utf8_len(t.take(i + 2)) == utf8_len(t.take(i)) + 2,
{
    lemma_utf8_len_take(t, i);
    lemma_utf8_len_take(t, i + 1);
}

pub fn edit_offset_to_byte_offset(text: &str, edit_offset: usize) -> (r: Option<usize>)
    ensures
        match spec_edit_offset_to_byte_offset(text@, edit_offset as nat) {
            Some(b) => r matches Some(x) && x == b,
            None => r is None,
        },
{
    let _ = crate::text::byte_len(text);
    let v = chars_of(text);
    let mut i: usize = 0;
    let mut bytes: usize = 0;
    let mut units: usize = 0;
    while i < v.len()
        invariant
            i <= v.len(),
            v@ == text@,
            v@.take(v.len() as int) == v@,
            utf8_len(v@) <= usize::MAX,
            bytes == utf8_len(v@.take(i as int)),
            units <= bytes,
            spec_edit_offset_to_byte_offset(text@, edit_offset as nat) == edit_walk_to_byte(
                v@,
                i as int,
                bytes as nat,
                units as nat,
                edit_offset as nat,
            ),
        decreases v.len() - i,
    {
        if units == edit_offset {
            return Some(bytes);
        }
        if i + 1 < v.len() && v[i] == '\r' && v[i + 1] == '\n' {
            proof {
                lemma_crlf_bytes(v@, i as int);
                lemma_utf8_len_monotone(v@, i + 2, v.len() as int);
            }
            i = i + 2;
            bytes = bytes + 2;
            units = units + 1;
        } else {
            proof {
                lemma_utf8_len_take(v@, i as int);
                lemma_utf8_len_monotone(v@, i + 1, v.len() as int);
            }
            units = units + char_utf16_width(v[i]);
            bytes = bytes + char_utf8_width(v[i]);
            i = i + 1;
        }
    }
    if units == edit_offset {
        Some(bytes)
    } else {
        None
    }
}

pub fn byte_offset_to_edit_offset(text: &str, byte_offset: usize) -> (r: Option<usize>)
    ensures
        match spec_byte_offset_to_edit_offset(text@, byte_offset as nat) {
            Some(u) => r == Some(u as usize),
            None => r is None,
        },
{
    let _ = crate::text::byte_len(text);
    let v = chars_of(text);
    if char_index_at_byte(&v, byte_offset).is_none() {
        proof {
            assert(v@.take(v.len() as int) == v@);
        }
        return None;
    }
    proof {
        assert(v@.take(v.len() as int) == v@);
        let c = choose|k: int| 0 <= k <= v@.len() && utf8_len(v@.take(k)) == byte_offset;
        lemma_utf8_len_monotone(v@, c, v.len() as int);
    }
    let mut i: usize = 0;
    let mut bytes: usize = 0;
    let mut units: usize = 0;
    while bytes < byte_offset
        invariant
            i <= v.len(),
            v@ == text@,
            v@.take(v.len() as int) == v@,
            utf8_len(v@) <= usize::MAX,
            byte_offset <= utf8_len(v@),
            bytes == utf8_len(v@.take(i as int)),
            units <= bytes,
            spec_byte_offset_to_edit_offset(text@, byte_offset as nat) == edit_walk_to_edit(
                v@,
                i as int,
                bytes as nat,
                units as nat,
                byte_offset as nat,
            ),
        decreases v.len() - i,
    {
        if i >= v.len() {
            proof {
                assert(bytes == utf8_len(v@));
            }
            return None;
        }
        if i + 1 < v.len() && v[i] == '\r' && v[i + 1] == '\n' {
            proof {
                lemma_crlf_bytes(v@, i as int);
                lemma_utf8_len_monotone(v@, i + 2, v.len() as int);
            }
            if byte_offset < bytes + 2 {
                return None;
            }
            i = i + 2;
            bytes = bytes + 2;
            units = units + 1;
        } else {
            proof {
                lemma_utf8_len_take(v@, i as int);
                lemma_utf8_len_monotone(v@, i + 1, v.len() as int);
            }
            units = units + char_utf16_width(v[i]);
            bytes = bytes + char_utf8_width(v[i]);
            i = i + 1;
        }
    }
    Some(units)
}

proof fn lemma_edit_walks_agree(t: Seq<char>, i: int, b: nat, u: nat, target: nat, c: int)
    requires
        0 <= i <= c <= t.len(),
        b == utf8_len(t.take(i)),
        target == utf8_len(t.take(c)),
        edit_walk_to_edit(t, i, b, u, target) is Some,
    ensures
        ({
            let e = edit_walk_to_edit(t, i, b, u, target).unwrap();
            &&& e >= u
            &&& (b < target ==> e > u)
            &&& edit_walk_to_byte(t, i, b, u, e) == Some(target)
        }),
    decreases t.len() - i,
{
    if b >= target {
        if i < c {
            lemma_utf8_prefix_strictly_grows(t, i, c);
        }
    } else {
        if i == c {
            assert(false);
        }
        if is_crlf_at(t, i) {
            lemma_crlf_bytes(t, i);
            if i + 2 > c {
                assert(c == i + 1);
                lemma_utf8_len_take(t, i);
            }
            lemma_edit_walks_agree(t, i + 2, b + 2, u + 1, target, c);
        } else {
            lemma_utf8_len_take(t, i);
            lemma_utf16_len_take(t, i);
            assert(utf16_width(t[i]) >= 1);
            lemma_edit_walks_agree(
                t,
                i + 1,
                b + utf8_width(t[i]),
                u + utf16_width(t[i]),
                target,
                c,
            );
        }
    }
}

/// A byte offset converted to an edit position converts back to itself.
pub proof fn law_edit_offset_round_trip(t: Seq<char>, byte_offset: nat)
    requires
        spec_byte_offset_to_edit_offset(t, byte_offset) is Some,
    ensures
        spec_edit_offset_to_byte_offset(t, spec_byte_offset_to_edit_offset(t, byte_offset).unwrap())
            == Some(byte_offset),
{
    let c = char_index_of_byte(t, byte_offset as int);
    assert(t.take(0).len() == 0);
    assert(utf8_len(t.take(0)) == 0);
    lemma_edit_walks_agree(t, 0, 0, 0, byte_offset, c);
}


/// A UTF-16 offset never passes the UTF-16 length of the text.
pub proof fn lemma_utf16_offset_bounded(t: Seq<char>, b: int)
    requires
        b >= utf8_len(t) || is_char_boundary(t, b),
    ensures
        spec_byte_offset_to_utf16(t, b) <= utf16_len(t),
{
    if b < utf8_len(t) {
        let k = char_index_of_byte(t, b);
        assert(t == t.take(k) + t.skip(k));
        crate::text::lemma_utf16_len_concat(t.take(k), t.skip(k));
    }
}

/// Byte offset `b` falls between the CR and the LF of a pair.
pub open spec fn splits_crlf(t: Seq<char>, b: int) -> bool {
    let k = char_index_of_byte(t, b);
    0 < k < t.len() && t[k - 1] == '\r' && t[k] == '\n'
}

/// The number of edit positions of `t` from character `i` on, counted
/// from `u`: a CR LF pair is one, any other character its UTF-16 units.
pub open spec fn edit_walk_len(t: Seq<char>, i: int, u: nat) -> nat
    decreases t.len() - i,
{
    if i < 0 || i >= t.len() {
        u
    } else if is_crlf_at(t, i) {
        edit_walk_len(t, i + 2, u + 1)
    } else {
        edit_walk_len(t, i + 1, u + utf16_width(t[i]))
    }
}

/// The edit length of `t`: its edit positions, a CR LF pair counted once.
pub open spec fn edit_len(t: Seq<char>) -> nat {
    edit_walk_len(t, 0, 0)
}

proof fn lemma_edit_walk_reaches(t: Seq<char>, i: int, b: nat, u: nat, target: nat, c: int)
    requires
        0 <= i <= c <= t.len(),
        b == utf8_len(t.take(i)),
        target == utf8_len(t.take(c)),
        !(0 < c < t.len() && t[c - 1] == '\r' && t[c] == '\n'),
    ensures
        edit_walk_to_edit(t, i, b, u, target) matches Some(e) && u <= e && e - u <= target - b,
    decreases t.len() - i,
{
    if b >= target {
        if i < c {
            lemma_utf8_prefix_strictly_grows(t, i, c);
        }
    } else {
        if i == c {
            assert(false);
        }
        if is_crlf_at(t, i) {
            lemma_crlf_bytes(t, i);
            if i + 1 == c {
                assert(t[c - 1] == '\r' && t[c] == '\n');
            }
            lemma_utf8_len_monotone(t, i + 2, c);
            lemma_edit_walk_reaches(t, i + 2, b + 2, u + 1, target, c);
        } else {
            lemma_utf8_len_take(t, i);
            assert(utf16_width(t[i]) <= utf8_width(t[i]));
            lemma_utf8_len_monotone(t, i + 1, c);
            lemma_edit_walk_reaches(t, i + 1, b + utf8_width(t[i]), u + utf16_width(t[i]), target, c);
        }
    }
}

proof fn lemma_edit_walk_len_grows(t: Seq<char>, i: int, u: nat)
    ensures
        edit_walk_len(t, i, u) >= u,
    decreases t.len() - i,
{
    if 0 <= i < t.len() {
        if is_crlf_at(t, i) {
            lemma_edit_walk_len_grows(t, i + 2, u + 1);
        } else {
            lemma_edit_walk_len_grows(t, i + 1, u + utf16_width(t[i]));
        }
    }
}

proof fn lemma_edit_walk_past_end(t: Seq<char>, i: int, b: nat, u: nat, target: nat)
    requires
        target > edit_walk_len(t, i, u),
    ensures
        edit_walk_to_byte(t, i, b, u, target) is None,
    decreases t.len() - i,
{
    lemma_edit_walk_len_grows(t, i, u);
    if 0 <= i < t.len() {
        if is_crlf_at(t, i) {
            lemma_edit_walk_past_end(t, i + 2, b + 2, u + 1, target);
        } else {
            lemma_edit_walk_past_end(t, i + 1, b + utf8_width(t[i]), u + utf16_width(t[i]), target);
        }
    }
}

/// A byte offset that is a character boundary of the text and does not
/// fall inside a CR LF pair converts to an edit position no larger than
/// itself, which converts back to it; an edit position past the edit
/// length of the text converts to no byte offset.
pub proof fn law_edit_offsets_convert(t: Seq<char>, byte_offset: nat, edit_offset: nat)
    ensures
        byte_offset <= utf8_len(t) && is_char_boundary(t, byte_offset as int) && !splits_crlf(
            t,
            byte_offset as int,
        ) ==> (spec_byte_offset_to_edit_offset(t, byte_offset) matches Some(e) && e <= byte_offset
            && spec_edit_offset_to_byte_offset(t, e) == Some(byte_offset)),
        edit_offset > edit_len(t) ==> spec_edit_offset_to_byte_offset(t, edit_offset) is None,
{
    if byte_offset <= utf8_len(t) && is_char_boundary(t, byte_offset as int) && !splits_crlf(
        t,
        byte_offset as int,
    ) {
        let c = char_index_of_byte(t, byte_offset as int);
        assert(t.take(0).len() == 0);
        assert(utf8_len(t.take(0)) == 0);
        lemma_edit_walk_reaches(t, 0, 0, 0, byte_offset, c);
        law_edit_offset_round_trip(t, byte_offset);
    }
    if edit_offset > edit_len(t) {
        lemma_edit_walk_past_end(t, 0, 0, 0, edit_offset);
    }
}

} // verus!
