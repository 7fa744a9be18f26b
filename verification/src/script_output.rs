//! The `key=value` reports that the UI Automation and Word scripts print,
//! and the text contexts built from them.
use vstd::prelude::*;
use crate::encoding::{decode_utf16le_base64, spec_utf16le_base64_text};
use crate::ids::{hwnd_id, parse_usize, spec_hwnd_id, spec_parse_usize};
use crate::model::{Capabilities, MethodBinding, MethodId, TextContext, TextRange};
use crate::offsets::{edit_offset_to_byte_offset, spec_edit_offset_to_byte_offset};
use crate::platform::PlatformError;
use crate::diagnostics::WindowsUiaFocusDiagnostics;
use crate::text::{
    all_white, byte_len, chars_all_white, chars_of, concat, decimal, decimal_string,
    string_from_chars, trim, trimmed_chars, utf8_len,
};

verus! {

/// `s` cut at every `sep`: one more piece than separators.
pub open spec fn split_on(s: Seq<char>, sep: char) -> Seq<Seq<char>>
    decreases s.len(),
{
    if s.len() == 0 {
        seq![Seq::empty()]
    } else {
        let before = split_on(s.drop_last(), sep);
        if s.last() == sep {
            before.push(Seq::empty())
        } else {
            before.update(before.len() - 1, before.last().push(s.last()))
        }
    }
}

proof fn lemma_split_on_nonempty(s: Seq<char>, sep: char)
    ensures
        split_on(s, sep).len() >= 1,
    decreases s.len(),
{
    if s.len() > 0 {
        lemma_split_on_nonempty(s.drop_last(), sep);
    }
}

/// A line without one trailing carriage return.
pub open spec fn strip_cr(line: Seq<char>) -> Seq<char> {
    if line.len() > 0 && line.last() == '\r' {
        line.drop_last()
    } else {
        line
    }
}

/// The lines of `s` as `str::lines` yields them.
pub open spec fn str_lines(s: Seq<char>) -> Seq<Seq<char>> {
    let pieces = split_on(s, '\n');
    let kept = if pieces.last().len() == 0 {
        pieces.drop_last()
    } else {
        pieces
    };
    kept.map_values(|l: Seq<char>| strip_cr(l))
}

/// `key=value` with both sides trimmed; lines without `=` give nothing.
pub open spec fn parse_key_value(line: Seq<char>) -> Option<(Seq<char>, Seq<char>)> {
    if line.contains('=') {
        let k = line.index_of_first('=').unwrap();
        Some((trim(line.take(k)), trim(line.skip(k + 1))))
    } else {
        None
    }
}

/// The pairs of the lines that have one, in order.
pub open spec fn key_value_pairs(lines: Seq<Seq<char>>) -> Seq<(Seq<char>, Seq<char>)>
    decreases lines.len(),
{
    if lines.len() == 0 {
        Seq::empty()
    } else {
        let before = key_value_pairs(lines.drop_last());
        match parse_key_value(lines.last()) {
            Some(p) => before.push(p),
            None => before,
        }
    }
}

/// The value of `key`: that of its last line, as a map filled line by line
/// keeps it.
pub open spec fn field_value(pairs: Seq<(Seq<char>, Seq<char>)>, key: Seq<char>) -> Option<Seq<char>>
    decreases pairs.len(),
{
    if pairs.len() == 0 {
        None
    } else if pairs.last().0 == key {
        Some(pairs.last().1)
    } else {
        field_value(pairs.drop_last(), key)
    }
}

/// The fields of a script report.
pub open spec fn spec_report_fields(output: Seq<char>) -> Seq<(Seq<char>, Seq<char>)> {
    key_value_pairs(str_lines(output))
}

pub open spec fn pair_views(v: Seq<(String, String)>) -> Seq<(Seq<char>, Seq<char>)> {
    v.map_values(|p: (String, String)| (p.0@, p.1@))
}

/// The lines of `text`, each without its line feed and one trailing
/// carriage return.
pub fn lines_of(text: &str) -> (r: Vec<Vec<char>>)
    ensures
        r@.len() == str_lines(text@).len(),
        forall|i: int| 0 <= i < r@.len() ==> (#[trigger] r@[i])@ == str_lines(text@)[i],
{
    let v = chars_of(text);
    let mut done: Vec<Vec<char>> = Vec::new();
    let mut current: Vec<char> = Vec::new();
    let mut i: usize = 0;
    while i < v.len()
        invariant
            i <= v.len(),
            v@ == text@,
            split_on(v@.take(i as int), '\n').len() == done@.len() + 1,
            forall|k: int|
                0 <= k < done@.len() ==> (#[trigger] done@[k])@ == split_on(v@.take(i as int), '\n')[k],
            current@ == split_on(v@.take(i as int), '\n').last(),
        decreases v.len() - i,
    {
        let c = v[i];
        proof {
            assert(v@.take(i + 1).drop_last() == v@.take(i as int));
            assert(v@.take(i + 1).last() == c);
            lemma_split_on_nonempty(v@.take(i as int), '\n');
        }
        if c == '\n' {
            let finished = current;
            done.push(finished);
            current = Vec::new();
        } else {
            current.push(c);
        }
        i += 1;
    }
    proof {
        assert(v@.take(v.len() as int) == v@);
    }
    let last_empty = current.len() == 0;
    let mut r: Vec<Vec<char>> = Vec::new();
    let ghost pieces = split_on(v@, '\n');
    let ghost kept = if pieces.last().len() == 0 {
        pieces.drop_last()
    } else {
        pieces
    };
    let mut k: usize = 0;
    while k < done.len()
        invariant
            k <= done@.len(),
            pieces == split_on(v@, '\n'),
            pieces.len() == done@.len() + 1,
            forall|j: int| 0 <= j < done@.len() ==> (#[trigger] done@[j])@ == pieces[j],
            r@.len() == k,
            forall|j: int| 0 <= j < k ==> (#[trigger] r@[j])@ == strip_cr(pieces[j]),
        decreases done@.len() - k,
    {
        r.push(strip_cr_chars(&done[k]));
        k += 1;
    }
    if !last_empty {
        r.push(strip_cr_chars(&current));
    }
    proof {
        assert(str_lines(text@) == kept.map_values(|l: Seq<char>| strip_cr(l)));
        assert forall|j: int| 0 <= j < r@.len() implies (#[trigger] r@[j])@ == str_lines(text@)[j] by {
            if j < done@.len() {
            } else {
                assert(j == done@.len());
            }
        }
    }
    r
}

fn strip_cr_chars(line: &Vec<char>) -> (r: Vec<char>)
    ensures
        r@ == strip_cr(line@),
{
    let n = line.len();
    let end = if n > 0 && line[n - 1] == '\r' {
        n - 1
    } else {
        n
    };
    let mut r: Vec<char> = Vec::new();
    let mut i: usize = 0;
    while i < end
        invariant
            i <= end <= n,
            n == line@.len(),
            r@ == line@.take(i as int),
        decreases end - i,
    {
        r.push(line[i]);
        assert(line@.take(i + 1) == line@.take(i as int).push(line@[i as int]));
        i += 1;
    }
    proof {
        if end == n {
            assert(line@.take(n as int) == line@);
        } else {
            assert(line@.take(end as int) == line@.drop_last());
        }
    }
    r
}

fn parse_key_value_chars(line: &Vec<char>) -> (r: Option<(String, String)>)
    ensures
        match parse_key_value(line@) {
            Some((k, v)) => r matches Some(p) && p.0@ == k && p.1@ == v,
            None => r is None,
        },
{
    let mut k: usize = 0;
    while k < line.len() && line[k] != '='
        invariant
            k <= line.len(),
            forall|j: int| 0 <= j < k ==> line@[j] != '=',
        decreases line.len() - k,
    {
        k += 1;
    }
    proof {
        line@.index_of_first_ensures('=');
    }
    if k == line.len() {
        proof {
            assert(!line@.contains('=')) by {
                if line@.contains('=') {
                    let j = choose|j: int| 0 <= j < line@.len() && line@[j] == '=';
                    assert(line@[j] != '=');
                }
            }
        }
        return None;
    }
    proof {
        assert(line@.contains('='));
        let f = line@.index_of_first('=').unwrap();
        assert(f == k as int) by {
            if f < k {
            }
            if f > k {
                assert(line@[k as int] == '=');
            }
        }
    }
    let all = line.as_slice();
    let key = trimmed_chars(&all[0..k]);
    let value = trimmed_chars(&all[k + 1..line.len()]);
    proof {
        assert(all@.subrange(0, k as int) == line@.take(k as int));
        assert(all@.subrange(k + 1, line@.len() as int) == line@.skip(k + 1));
    }
    Some((string_from_chars(&key), string_from_chars(&value)))
}

/// The `key=value` pairs of a script report, in line order
/// (`parse_key_value_lines`).
pub fn parse_key_value_lines(output: &str) -> (r: Vec<(String, String)>)
    ensures
        pair_views(r@) == spec_report_fields(output@),
{
    let lines = lines_of(output);
    let ghost ls = str_lines(output@);
    let mut r: Vec<(String, String)> = Vec::new();
    let mut i: usize = 0;
    while i < lines.len()
        invariant
            i <= lines@.len(),
            lines@.len() == ls.len(),
            forall|j: int| 0 <= j < lines@.len() ==> (#[trigger] lines@[j])@ == ls[j],
            pair_views(r@) == key_value_pairs(ls.take(i as int)),
        decreases lines@.len() - i,
    {
        proof {
            assert(ls.take(i + 1).drop_last() == ls.take(i as int));
            assert(ls.take(i + 1).last() == ls[i as int]);
        }
        match parse_key_value_chars(&lines[i]) {
            Some(p) => {
                let ghost before = r@;
                r.push(p);
                proof {
                    assert(r@ == before.push(p));
                    assert(pair_views(r@) == pair_views(before).push((p.0@, p.1@)));
                }
            },
            None => {},
        }
        i += 1;
    }
    assert(ls.take(ls.len() as int) == ls);
    r
}

/// The value of `key` in the parsed report.
pub fn report_field(fields: &[(String, String)], key: &str) -> (r: Option<String>)
    ensures
        match field_value(pair_views(fields@), key@) {
            Some(v) => r matches Some(s) && s@ == v,
            None => r is None,
        },
{
    let mut i: usize = fields.len();
    assert(fields@.take(i as int) == fields@);
    while i > 0
        invariant
            i <= fields.len(),
            field_value(pair_views(fields@), key@) == field_value(
                pair_views(fields@.take(i as int)),
                key@,
            ),
        decreases i,
    {
        let ghost t = pair_views(fields@.take(i as int));
        proof {
            assert(fields@.take(i as int).drop_last() == fields@.take(i - 1));
            assert(t.drop_last() == pair_views(fields@.take(i - 1)));
            assert(t.last() == (fields@[i - 1].0@, fields@[i - 1].1@));
        }
        if crate::text::str_eq(fields[i - 1].0.as_str(), key) {
            return Some(fields[i - 1].1.clone());
        }
        i -= 1;
    }
    None
}

/// The value of `key` is exactly `expected`.
pub fn report_field_is(fields: &[(String, String)], key: &str, expected: &str) -> (r: bool)
    ensures
        r == (field_value(pair_views(fields@), key@) == Some(expected@)),
{
    match report_field(fields, key) {
        Some(v) => crate::text::str_eq(v.as_str(), expected),
        None => false,
    }
}


/// The value of `key`, or `default` when the report lacks it.
pub open spec fn field_or(f: Seq<(Seq<char>, Seq<char>)>, key: Seq<char>, default: Seq<char>) -> Seq<char> {
    match field_value(f, key) {
        Some(v) => v,
        None => default,
    }
}

/// The number that field `key` holds, as `str::parse::<usize>` reads it.
pub open spec fn report_number(f: Seq<(Seq<char>, Seq<char>)>, key: Seq<char>) -> Option<usize> {
    match field_value(f, key) {
        Some(v) => spec_parse_usize(v),
        None => None,
    }
}

/// The text that field `key` holds as base64 UTF-16LE.
pub open spec fn report_text(f: Seq<(Seq<char>, Seq<char>)>, key: Seq<char>) -> Option<Seq<char>> {
    match field_value(f, key) {
        Some(v) => spec_utf16le_base64_text(v),
        None => None,
    }
}

fn field_or_default(fields: &[(String, String)], key: &str, default: &str) -> (r: String)
    ensures
        r@ == field_or(pair_views(fields@), key@, default@),
{
    match report_field(fields, key) {
        Some(v) => v,
        None => default.to_owned(),
    }
}

fn number_field(fields: &[(String, String)], key: &str) -> (r: Option<usize>)
    ensures
        r == report_number(pair_views(fields@), key@),
{
    match report_field(fields, key) {
        Some(v) => {
            let c = chars_of(v.as_str());
            parse_usize(c.as_slice())
        },
        None => None,
    }
}

fn text_field(fields: &[(String, String)], key: &str) -> (r: Option<String>)
    ensures
        match report_text(pair_views(fields@), key@) {
            Some(t) => r matches Some(x) && x@ == t,
            None => r is None,
        },
{
    match report_field(fields, key) {
        Some(v) => match decode_utf16le_base64(v.as_str()) {
            Ok(t) => Some(t),
            Err(_) => None,
        },
        None => None,
    }
}

/// `{app_class}/{focused_class}`.
pub open spec fn spec_app_id(app_class: Seq<char>, focused_class: Seq<char>) -> Seq<char> {
    app_class + "/"@ + focused_class
}

fn app_id(app_class: &str, focused_class: &str) -> (r: String)
    ensures
        r@ == spec_app_id(app_class@, focused_class@),
{
    let head = concat(app_class, "/");
    concat(head.as_str(), focused_class)
}

/// `{prefix}:{middle}:{hwnd id of focused}`.
pub open spec fn spec_control_id(prefix: Seq<char>, middle: Seq<char>, focused: isize) -> Seq<char> {
    prefix + ":"@ + middle + ":"@ + spec_hwnd_id(focused)
}

fn control_id(prefix: &str, middle: &str, focused: isize) -> (r: String)
    ensures
        r@ == spec_control_id(prefix@, middle@, focused),
{
    let a = concat(prefix, ":");
    let b = concat(a.as_str(), middle);
    let c = concat(b.as_str(), ":");
    let h = hwnd_id(focused);
    concat(c.as_str(), h.as_str())
}

/// The selection that a UI Automation report gives in edit positions,
/// converted to bytes: both ends present, different, and each at the start
/// of an edit position.
pub open spec fn uia_selection(t: Seq<char>, start: Option<usize>, end: Option<usize>) -> Option<(nat, nat)> {
    match (start, end) {
        (Some(s), Some(e)) => if s == e {
            None
        } else {
            match (
                spec_edit_offset_to_byte_offset(t, s as nat),
                spec_edit_offset_to_byte_offset(t, e as nat),
            ) {
                (Some(bs), Some(be)) => Some((bs, be)),
                _ => None,
            }
        },
        _ => None,
    }
}

/// The user's selection: the converted selection unless it is empty.
pub open spec fn uia_user_selection(t: Seq<char>, start: Option<usize>, end: Option<usize>) -> Option<TextRange> {
    match uia_selection(t, start, end) {
        Some((a, b)) => if a == b {
            None
        } else {
            Some(TextRange { start: a as usize, end: b as usize })
        },
        None => None,
    }
}

/// The caret: the end of the user's selection; else the reported caret;
/// else the end of the converted selection; else the end of the text.
pub open spec fn uia_caret(t: Seq<char>, start: Option<usize>, end: Option<usize>, caret: Option<usize>) -> nat {
    match uia_user_selection(t, start, end) {
        Some(r) => r.end as nat,
        None => match caret {
            Some(c) => match spec_edit_offset_to_byte_offset(t, c as nat) {
                Some(b) => b,
                None => match uia_selection(t, start, end) {
                    Some((_, be)) => be,
                    None => utf8_len(t),
                },
            },
            None => match uia_selection(t, start, end) {
                Some((_, be)) => be,
                None => utf8_len(t),
            },
        },
    }
}

fn edit_to_byte(text: &str, offset: Option<usize>) -> (r: Option<usize>)
    ensures
        match offset {
            Some(u) => match spec_edit_offset_to_byte_offset(text@, u as nat) {
                Some(b) => r matches Some(x) && x == b,
                None => r is None,
            },
            None => r is None,
        },
{
    match offset {
        Some(u) => edit_offset_to_byte_offset(text, u),
        None => None,
    }
}

/// Caret and selection of a UI Automation text report, in bytes of `text`.
pub fn uia_selection_geometry(
    text: &str,
    start: Option<usize>,
    end: Option<usize>,
    caret: Option<usize>,
) -> (r: (usize, Option<TextRange>))
    ensures
        r.0 == uia_caret(text@, start, end, caret) as usize,
        r.1 == uia_user_selection(text@, start, end),
{
    let len = byte_len(text);
    let selection: Option<(usize, usize)> = match (start, end) {
        (Some(s), Some(e)) => if s == e {
            None
        } else {
            match (edit_offset_to_byte_offset(text, s), edit_offset_to_byte_offset(text, e)) {
                (Some(bs), Some(be)) => Some((bs, be)),
                _ => None,
            }
        },
        _ => None,
    };
    proof {
        match uia_selection(text@, start, end) {
            Some((a, b)) => {
                assert(selection == Some((a as usize, b as usize)));
            },
            None => {
                assert(selection is None);
            },
        }
    }
    let user: Option<TextRange> = match selection {
        Some((a, b)) => if a == b {
            None
        } else {
            Some(TextRange::new(a, b))
        },
        None => None,
    };
    let fallback: usize = match selection {
        Some((_, be)) => be,
        None => len,
    };
    let caret_byte: usize = match user {
        Some(r) => r.end,
        None => match edit_to_byte(text, caret) {
            Some(b) => b,
            None => fallback,
        },
    };
    (caret_byte, user)
}

/// Why a UI Automation text report yields no context, if it does not.
pub open spec fn uia_text_failure(f: Seq<(Seq<char>, Seq<char>)>) -> Option<Seq<char>> {
    if field_value(f, "ok"@) != Some("1"@) {
        Some(field_or(f, "error"@, "uia_capture_failed"@))
    } else if field_value(f, "can_set_value"@) != Some("1"@) {
        Some("no_writable_value"@)
    } else {
        match report_text(f, "text_b64"@) {
            None => Some("missing_or_invalid_text"@),
            Some(t) => if t.len() == 0 {
                Some("empty_text"@)
            } else {
                None
            },
        }
    }
}

/// The method bound to a UI Automation text context.
pub open spec fn uia_text_method(strict_editable: bool) -> MethodId {
    if strict_editable {
        MethodId::UiAutomationEditableText
    } else {
        MethodId::UiAutomationText
    }
}

/// A binding of `method` to itself alone.
pub open spec fn binds_only(c: TextContext, method: MethodId) -> bool {
    c.capabilities.method_binding matches Some(b) && b.context_method == method
        && b.replace_methods@ == seq![method]
}

/// The context that a successful UI Automation text report describes.
pub open spec fn is_uia_text_context(
    c: TextContext,
    f: Seq<(Seq<char>, Seq<char>)>,
    foreground: isize,
    focused: isize,
    app_class: Seq<char>,
    focused_class: Seq<char>,
    strict_editable: bool,
) -> bool {
    let t = report_text(f, "text_b64"@).unwrap();
    let start = report_number(f, "selection_start"@);
    let end = report_number(f, "selection_end"@);
    let caret = report_number(f, "caret"@);
    let selection = uia_user_selection(t, start, end);
    &&& c.app_id@ == spec_app_id(app_class, focused_class)
    &&& c.window_id@ == spec_hwnd_id(foreground)
    &&& c.control_id@ == spec_control_id("uia"@, field_or(f, "runtime_id"@, "unknown"@), focused)
    &&& c.text_snapshot@ == t
    &&& c.caret_range == TextRange::caret_spec(uia_caret(t, start, end, caret) as usize)
    &&& c.selection_range == selection
    &&& c.capabilities.can_replace_directly
    &&& c.capabilities.can_read_selection == selection is Some
    &&& c.capabilities.can_read_caret
    &&& binds_only(c, uia_text_method(strict_editable))
}

fn bound_capabilities(method: MethodId, can_read_selection: bool, can_read_caret: bool) -> (r: Capabilities)
    ensures
        r.can_replace_directly,
        r.can_read_selection == can_read_selection,
        r.can_read_caret == can_read_caret,
        r.method_binding matches Some(b) && b.context_method == method && b.replace_methods@ == seq![method],
{
    Capabilities {
        can_replace_directly: true,
        can_read_selection,
        can_read_caret,
        method_binding: Some(MethodBinding::new(method, vec![method])),
    }
}

/// The text context of a UI Automation value-pattern capture report
/// (`capture_uia_text_context` after the script ran).
pub fn uia_text_context_from_output(
    output: &str,
    foreground: isize,
    focused: isize,
    app_class: &str,
    focused_class: &str,
    strict_editable: bool,
) -> (r: Result<TextContext, PlatformError>)
    ensures
        match uia_text_failure(spec_report_fields(output@)) {
            Some(m) => r matches Err(PlatformError::ReplacementUnavailableReason(x)) && x@ == m,
            None => r matches Ok(c) && is_uia_text_context(
                c,
                spec_report_fields(output@),
                foreground,
                focused,
                app_class@,
                focused_class@,
                strict_editable,
            ),
        },
{
    let fields = parse_key_value_lines(output);
    let f = fields.as_slice();
    if !report_field_is(f, "ok", "1") {
        return Err(PlatformError::ReplacementUnavailableReason(field_or_default(f, "error", "uia_capture_failed")));
    }
    if !report_field_is(f, "can_set_value", "1") {
        return Err(PlatformError::ReplacementUnavailableReason("no_writable_value".to_owned()));
    }
    let text = match text_field(f, "text_b64") {
        Some(t) => t,
        None => {
            return Err(PlatformError::ReplacementUnavailableReason("missing_or_invalid_text".to_owned()));
        },
    };
    if chars_of(text.as_str()).len() == 0 {
        return Err(PlatformError::ReplacementUnavailableReason("empty_text".to_owned()));
    }
    let start = number_field(f, "selection_start");
    let end = number_field(f, "selection_end");
    let caret = number_field(f, "caret");
    let (caret_byte, selection) = uia_selection_geometry(text.as_str(), start, end, caret);
    let runtime_id = field_or_default(f, "runtime_id", "unknown");
    let method = if strict_editable {
        MethodId::UiAutomationEditableText
    } else {
        MethodId::UiAutomationText
    };
    Ok(TextContext {
        app_id: app_id(app_class, focused_class),
        window_id: hwnd_id(foreground),
        control_id: control_id("uia", runtime_id.as_str(), focused),
        text_snapshot: text,
        caret_range: TextRange::caret(caret_byte),
        selection_range: selection,
        capabilities: bound_capabilities(method, selection.is_some(), true),
    })
}


/// Why a UI Automation document report yields no context, if it does not.
pub open spec fn uia_document_failure(f: Seq<(Seq<char>, Seq<char>)>) -> Option<Seq<char>> {
    if field_value(f, "ok"@) != Some("1"@) {
        Some(field_or(f, "error"@, "uia_document_capture_failed"@))
    } else {
        match report_text(f, "text_b64"@) {
            None => Some("missing_or_invalid_selection_text"@),
            Some(t) => if all_white(t) {
                Some("empty_selection_text"@)
            } else {
                None
            },
        }
    }
}

/// The report describes the text left of the caret, not a selection.
pub open spec fn uia_document_is_caret(f: Seq<(Seq<char>, Seq<char>)>) -> bool {
    field_value(f, "kind"@) == Some("caret"@)
}

/// The context that a successful UI Automation document report describes:
/// a selection spans its whole text; text left of the caret has none.
pub open spec fn is_uia_document_context(
    c: TextContext,
    f: Seq<(Seq<char>, Seq<char>)>,
    foreground: isize,
    focused: isize,
    app_class: Seq<char>,
    focused_class: Seq<char>,
) -> bool {
    let t = report_text(f, "text_b64"@).unwrap();
    let is_caret = uia_document_is_caret(f);
    let prefix = if is_caret {
        "uia-doc-caret"@
    } else {
        "uia-doc"@
    };
    &&& c.app_id@ == spec_app_id(app_class, focused_class)
    &&& c.window_id@ == spec_hwnd_id(foreground)
    &&& c.control_id@ == spec_control_id(prefix, field_or(f, "runtime_id"@, "unknown"@), focused)
    &&& c.text_snapshot@ == t
    &&& c.caret_range == TextRange::caret_spec(utf8_len(t) as usize)
    &&& c.selection_range == if is_caret {
        None
    } else {
        Some(TextRange { start: 0, end: utf8_len(t) as usize })
    }
    &&& c.capabilities.can_replace_directly
    &&& c.capabilities.can_read_selection == !is_caret
    &&& c.capabilities.can_read_caret == is_caret
    &&& binds_only(c, MethodId::UiAutomationDocumentText)
}

/// The text context of a UI Automation document capture report: the
/// selected text, or the text left of the caret.
pub fn uia_document_context_from_output(
    output: &str,
    foreground: isize,
    focused: isize,
    app_class: &str,
    focused_class: &str,
) -> (r: Result<TextContext, PlatformError>)
    ensures
        match uia_document_failure(spec_report_fields(output@)) {
            Some(m) => r matches Err(PlatformError::ReplacementUnavailableReason(x)) && x@ == m,
            None => r matches Ok(c) && is_uia_document_context(
                c,
                spec_report_fields(output@),
                foreground,
                focused,
                app_class@,
                focused_class@,
            ),
        },
{
    let fields = parse_key_value_lines(output);
    let f = fields.as_slice();
    if !report_field_is(f, "ok", "1") {
        return Err(
            PlatformError::ReplacementUnavailableReason(field_or_default(f, "error", "uia_document_capture_failed")),
        );
    }
    let text = match text_field(f, "text_b64") {
        Some(t) => t,
        None => {
            return Err(
                PlatformError::ReplacementUnavailableReason("missing_or_invalid_selection_text".to_owned()),
            );
        },
    };
    if chars_all_white(chars_of(text.as_str()).as_slice()) {
        return Err(PlatformError::ReplacementUnavailableReason("empty_selection_text".to_owned()));
    }
    let runtime_id = field_or_default(f, "runtime_id", "unknown");
    let is_caret = report_field_is(f, "kind", "caret");
    let prefix = if is_caret {
        "uia-doc-caret"
    } else {
        "uia-doc"
    };
    let len = byte_len(text.as_str());
    let selection = if is_caret {
        None
    } else {
        Some(TextRange::new(0, len))
    };
    Ok(TextContext {
        app_id: app_id(app_class, focused_class),
        window_id: hwnd_id(foreground),
        control_id: control_id(prefix, runtime_id.as_str(), focused),
        text_snapshot: text,
        caret_range: TextRange::caret(len),
        selection_range: selection,
        capabilities: bound_capabilities(MethodId::UiAutomationDocumentText, !is_caret, is_caret),
    })
}

/// The Word report was refused by the script itself.
pub open spec fn word_com_refused(f: Seq<(Seq<char>, Seq<char>)>) -> bool {
    field_value(f, "ok"@) != Some("1"@)
}

/// The Word report lacks readable text or a base position, or its text is
/// blank.
pub open spec fn word_com_unusable(f: Seq<(Seq<char>, Seq<char>)>) -> bool {
    match (report_text(f, "text_b64"@), report_number(f, "base"@)) {
        (Some(t), Some(_)) => all_white(t),
        _ => true,
    }
}

/// The context that a successful Word report describes; `base` is the
/// document position where its text starts.
pub open spec fn is_word_com_context(
    c: TextContext,
    f: Seq<(Seq<char>, Seq<char>)>,
    foreground: isize,
    focused: isize,
    app_class: Seq<char>,
    focused_class: Seq<char>,
    outlook: bool,
) -> bool {
    let t = report_text(f, "text_b64"@).unwrap();
    let base = report_number(f, "base"@).unwrap();
    let prefix = if outlook {
        "outlook-word-com"@
    } else {
        "word-com"@
    };
    &&& c.app_id@ == spec_app_id(app_class, focused_class)
    &&& c.window_id@ == spec_hwnd_id(foreground)
    &&& c.control_id@ == spec_control_id(prefix, decimal(base as nat), focused)
    &&& c.text_snapshot@ == t
    &&& c.caret_range == TextRange::caret_spec(utf8_len(t) as usize)
    &&& c.selection_range == if field_value(f, "kind"@) == Some("selection"@) {
        Some(TextRange { start: 0, end: utf8_len(t) as usize })
    } else {
        None
    }
    &&& c.capabilities.can_replace_directly
    &&& c.capabilities.can_read_selection
    &&& c.capabilities.can_read_caret
    &&& binds_only(c, MethodId::WordCom)
}

/// The text context of a Word (or Outlook editor) capture report; the
/// process name tells Outlook apart.
pub fn word_com_context_from_output(
    output: &str,
    foreground: isize,
    focused: isize,
    app_class: &str,
    focused_class: &str,
    process_name: Option<&str>,
) -> (r: Result<TextContext, PlatformError>)
    ensures
        ({
            let f = spec_report_fields(output@);
            if word_com_refused(f) {
                r matches Err(PlatformError::ReplacementUnavailableReason(x)) && x@ == field_or(
                    f,
                    "error"@,
                    "uia_capture_failed"@,
                )
            } else if word_com_unusable(f) {
                r matches Err(PlatformError::ReplacementUnavailable)
            } else {
                r matches Ok(c) && is_word_com_context(
                    c,
                    f,
                    foreground,
                    focused,
                    app_class@,
                    focused_class@,
                    crate::layout::spec_is_outlook_class_or_process(
                        app_class@,
                        focused_class@,
                        match process_name {
                            Some(p) => Some(p@),
                            None => None,
                        },
                    ),
                )
            }
        }),
{
    let outlook = crate::layout::is_outlook_class_or_process(app_class, focused_class, process_name);
    let fields = parse_key_value_lines(output);
    let f = fields.as_slice();
    if !report_field_is(f, "ok", "1") {
        return Err(PlatformError::ReplacementUnavailableReason(field_or_default(f, "error", "uia_capture_failed")));
    }
    let text = match text_field(f, "text_b64") {
        Some(t) => t,
        None => {
            return Err(PlatformError::ReplacementUnavailable);
        },
    };
    let base = match number_field(f, "base") {
        Some(b) => b,
        None => {
            return Err(PlatformError::ReplacementUnavailable);
        },
    };
    let len = byte_len(text.as_str());
    let selection = if report_field_is(f, "kind", "selection") {
        Some(TextRange::new(0, len))
    } else {
        None
    };
    if chars_all_white(chars_of(text.as_str()).as_slice()) {
        return Err(PlatformError::ReplacementUnavailable);
    }
    let prefix = if outlook {
        "outlook-word-com"
    } else {
        "word-com"
    };
    let digits = decimal_string(base as u64);
    Ok(TextContext {
        app_id: app_id(app_class, focused_class),
        window_id: hwnd_id(foreground),
        control_id: control_id(prefix, digits.as_str(), focused),
        text_snapshot: text,
        caret_range: TextRange::caret(len),
        selection_range: selection,
        capabilities: bound_capabilities(MethodId::WordCom, true, true),
    })
}

/// The focused UI Automation element that a focus report describes.
pub open spec fn is_uia_focus_report(d: WindowsUiaFocusDiagnostics, f: Seq<(Seq<char>, Seq<char>)>) -> bool {
    &&& d.name@ == field_or(f, "name"@, ""@)
    &&& d.control_type@ == field_or(f, "control_type"@, ""@)
    &&& d.automation_id@ == field_or(f, "automation_id"@, ""@)
    &&& d.class_name@ == field_or(f, "class_name"@, ""@)
    &&& d.framework_id@ == field_or(f, "framework_id"@, ""@)
    &&& d.has_keyboard_focus == (field_value(f, "has_keyboard_focus"@) == Some("1"@))
    &&& d.is_keyboard_focusable == (field_value(f, "is_keyboard_focusable"@) == Some("1"@))
}

/// The focused UI Automation element of a focus diagnostics report: the
/// report must say `ok=1`; a missing text field is empty and a missing
/// flag is false.
pub fn uia_focus_diagnostics_from_output(output: &str) -> (r: Result<WindowsUiaFocusDiagnostics, PlatformError>)
    ensures
        field_value(spec_report_fields(output@), "ok"@) != Some("1"@) ==> r
            == Err::<WindowsUiaFocusDiagnostics, PlatformError>(PlatformError::ReplacementUnavailable),
        field_value(spec_report_fields(output@), "ok"@) == Some("1"@) ==> (r matches Ok(d)
            && is_uia_focus_report(d, spec_report_fields(output@))),
{
    let fields = parse_key_value_lines(output);
    let f = fields.as_slice();
    if !report_field_is(f, "ok", "1") {
        return Err(PlatformError::ReplacementUnavailable);
    }
    Ok(
        WindowsUiaFocusDiagnostics {
            name: field_or_default(f, "name", ""),
            control_type: field_or_default(f, "control_type", ""),
            automation_id: field_or_default(f, "automation_id", ""),
            class_name: field_or_default(f, "class_name", ""),
            framework_id: field_or_default(f, "framework_id", ""),
            has_keyboard_focus: report_field_is(f, "has_keyboard_focus", "1"),
            is_keyboard_focusable: report_field_is(f, "is_keyboard_focusable", "1"),
        },
    )
}

} // verus!
