//! The remote shell helper: bash binds a key to a helper that receives the
//! readline line on standard input and the cursor point in characters,
//! and prints the corrected line as base64 with the new point.
use vstd::prelude::*;
use crate::encoding::{encode_base64, spec_encode_base64};
use crate::ids::{decimal_number, decimal_value};
use crate::model::{CorrectionMode, ReplacementPlan, TextRange};
use crate::offsets::{
    adjusted_cursor_after_replacement, byte_offset_to_char, char_index_of_byte,
    char_offset_to_byte, is_char_boundary, spec_adjusted_caret, spec_byte_offset_to_char,
    spec_char_offset_to_byte, spec_replace_range_text, spec_slice_by_range,
};
use crate::text::{chars_of, concat, decimal, decimal_string, lower_ascii, lower_chars_of, utf8_len};

verus! {

/// A parsed command line: the correction mode and the readline point.
#[derive(Debug, Clone, Copy, PartialEq, Eq, Structural)]
pub struct Request {
    pub mode: CorrectionMode,
    pub point_chars: usize,
}

pub open spec fn spec_usage() -> Seq<char> {
    "usage: stepler-remote bash --mode pause|scrolllock --point <readline-point> [--point-units chars]"@
}

pub fn usage() -> (r: String)
    ensures
        r@ == spec_usage(),
{
    "usage: stepler-remote bash --mode pause|scrolllock --point <readline-point> [--point-units chars]".to_owned()
}

/// The mode names accepted, ignoring ASCII case.
pub open spec fn spec_parse_mode(value: Seq<char>) -> Result<CorrectionMode, Seq<char>> {
    let v = lower_ascii(value);
    if v == "pause"@ || v == "p"@ {
        Ok(CorrectionMode::Pause)
    } else if v == "scrolllock"@ || v == "cp"@ || v == "ctrl-pause"@ || v == "control-pause"@ {
        Ok(CorrectionMode::ScrollLock)
    } else {
        Err("unsupported mode: "@ + value)
    }
}

pub fn parse_mode(value: &str) -> (r: Result<CorrectionMode, String>)
    ensures
        match spec_parse_mode(value@) {
            Ok(m) => r == Ok::<CorrectionMode, String>(m),
            Err(e) => r matches Err(s) && s@ == e,
        },
{
    let v = lower_chars_of(value);
    let eq = |w: &str| -> (b: bool)
        ensures
            b == (v@ == w@),
        { crate::text::chars_eq(&v, &chars_of(w)) };
    if eq("pause") || eq("p") {
        Ok(CorrectionMode::Pause)
    } else if eq("scrolllock") || eq("cp") || eq("ctrl-pause") || eq("control-pause") {
        Ok(CorrectionMode::ScrollLock)
    } else {
        Err(concat("unsupported mode: ", value))
    }
}

/// Why a decimal number did not parse, as `str::parse::<usize>` reports
/// it: empty input, a non-digit, or a value too large, whichever comes
/// first when reading from the left.
pub open spec fn spec_usize_parse_error(s: Seq<char>) -> Option<Seq<char>> {
    if s.len() == 0 {
        Some("cannot parse integer from empty string"@)
    } else {
        let digits = if s[0] == '+' {
            s.drop_first()
        } else {
            s
        };
        if digits.len() == 0 {
            Some("invalid digit found in string"@)
        } else {
            digit_scan_error(digits, 0)
        }
    }
}

/// Reading `digits` onto `acc`: the first problem met.
pub open spec fn digit_scan_error(digits: Seq<char>, acc: nat) -> Option<Seq<char>>
    decreases digits.len(),
{
    if digits.len() == 0 {
        None
    } else {
        match decimal_value(digits[0]) {
            None => Some("invalid digit found in string"@),
            Some(d) => if acc * 10 + d > usize::MAX {
                Some("number too large to fit in target type"@)
            } else {
                digit_scan_error(digits.drop_first(), acc * 10 + d)
            },
        }
    }
}

/// `str::parse::<usize>` with its error message.
pub fn parse_usize_with_message(s: &str) -> (r: Result<usize, String>)
    ensures
        match crate::ids::spec_parse_usize(s@) {
            Some(v) => r == Ok::<usize, String>(v),
            None => r matches Err(m) && spec_usize_parse_error(s@) == Some(m@),
        },
{
    let v = chars_of(s);
    if v.len() == 0 {
        return Err("cannot parse integer from empty string".to_owned());
    }
    let start: usize = if v[0] == '+' {
        1
    } else {
        0
    };
    if start >= v.len() {
        return Err("invalid digit found in string".to_owned());
    }
    let ghost digits = v@.subrange(start as int, v.len() as int);
    assert(digits == (if v@[0] == '+' {
        v@.drop_first()
    } else {
        v@
    }));
    let mut acc: usize = 0;
    let mut i: usize = start;
    assert(digits.skip(0) == digits);
    while i < v.len()
        invariant
            start <= i <= v.len(),
            v@ == s@,
            digits == v@.subrange(start as int, v.len() as int),
            digits == (if v@[0] == '+' {
                v@.drop_first()
            } else {
                v@
            }),
            digit_scan_error(digits, 0) == digit_scan_error(digits.skip(i - start), acc as nat),
            acc as nat == decimal_number(digits.take(i - start)),
            forall|j: int| 0 <= j < i - start ==> (#[trigger] decimal_value(digits[j])) is Some,
        decreases v.len() - i,
    {
        let ghost k = i - start;
        proof {
            assert(digits.skip(k)[0] == v@[i as int]);
            assert(digits.skip(k).drop_first() == digits.skip(k + 1));
            assert(digits.take(k + 1).drop_last() == digits.take(k));
            assert(digits[k] == v@[i as int]);
        }
        let c = v[i];
        if !('0' <= c && c <= '9') {
            assert(decimal_value(digits[k]) is None);
            return Err("invalid digit found in string".to_owned());
        }
        let d = (c as u32 - 48) as usize;
        let next = match acc.checked_mul(10) {
            None => None,
            Some(m) => m.checked_add(d),
        };
        match next {
            None => {
                proof {
                    crate::ids::lemma_decimal_number_grows(digits, k + 1);
                }
                return Err("number too large to fit in target type".to_owned());
            },
            Some(n) => {
                acc = n;
            },
        }
        i += 1;
    }
    proof {
        assert(digits.take(digits.len() as int) == digits);
    }
    Ok(acc)
}

/// Reading the command line from argument `i` on, with the mode and
/// point seen so far.
pub open spec fn spec_parse_args(
    args: Seq<Seq<char>>,
    i: int,
    mode: Option<CorrectionMode>,
    point: Option<usize>,
) -> Result<Request, Seq<char>>
    decreases args.len() - i,
{
    if i < 0 || i >= args.len() {
        match mode {
            None => Err(spec_usage()),
            Some(m) => match point {
                None => Err("--point is required"@),
                Some(p) => Ok(Request { mode: m, point_chars: p }),
            },
        }
    } else {
        let a = args[i];
        if a == "bash"@ {
            spec_parse_args(args, i + 1, mode, point)
        } else if a == "--mode"@ {
            if i + 1 >= args.len() {
                Err("--mode requires a value"@)
            } else {
                match spec_parse_mode(args[i + 1]) {
                    Err(e) => Err(e),
                    Ok(m) => spec_parse_args(args, i + 2, Some(m), point),
                }
            }
        } else if a == "--point"@ {
            if i + 1 >= args.len() {
                Err("--point requires a value"@)
            } else {
                match crate::ids::spec_parse_usize(args[i + 1]) {
                    None => Err("invalid --point value: "@ + spec_usize_parse_error(
                        args[i + 1],
                    ).unwrap()),
                    Some(p) => spec_parse_args(args, i + 2, mode, Some(p)),
                }
            }
        } else if a == "--point-units"@ {
            if i + 1 >= args.len() {
                Err("--point-units requires a value"@)
            } else if args[i + 1] != "chars"@ {
                Err("only --point-units chars is supported"@)
            } else {
                spec_parse_args(args, i + 2, mode, point)
            }
        } else if a == "-h"@ || a == "--help"@ {
            Err(spec_usage())
        } else {
            Err("unknown argument: "@ + a + "\n"@ + spec_usage())
        }
    }
}

impl Request {
    /// Parses the helper's arguments (after the program name).
    pub fn parse(args: &[String]) -> (r: Result<Request, String>)
        ensures
            match spec_parse_args(crate::surface::string_views(args@), 0, None, None) {
                Ok(req) => r == Ok::<Request, String>(req),
                Err(e) => r matches Err(m) && m@ == e,
            },
    {
        let ghost views = crate::surface::string_views(args@);
        let mut mode: Option<CorrectionMode> = None;
        let mut point: Option<usize> = None;
        let mut i: usize = 0;
        while i < args.len()
            invariant
                i <= args.len() + 1,
                views == crate::surface::string_views(args@),
                views.len() == args.len(),
                spec_parse_args(views, 0, None, None) == spec_parse_args(views, i as int, mode, point),
            decreases args.len() + 1 - i,
        {
            let a = args[i].as_str();
            assert(views[i as int] == a@);
            if crate::text::str_eq(a, "bash") {
                i += 1;
            } else if crate::text::str_eq(a, "--mode") {
                if i + 1 >= args.len() {
                    return Err("--mode requires a value".to_owned());
                }
                assert(views[i + 1] == args@[i + 1]@);
                let m = parse_mode(args[i + 1].as_str())?;
                mode = Some(m);
                i += 2;
            } else if crate::text::str_eq(a, "--point") {
                if i + 1 >= args.len() {
                    return Err("--point requires a value".to_owned());
                }
                assert(views[i + 1] == args@[i + 1]@);
                match parse_usize_with_message(args[i + 1].as_str()) {
                    Ok(p) => {
                        point = Some(p);
                    },
                    Err(message) => {
                        return Err(concat("invalid --point value: ", message.as_str()));
                    },
                }
                i += 2;
            } else if crate::text::str_eq(a, "--point-units") {
                if i + 1 >= args.len() {
                    return Err("--point-units requires a value".to_owned());
                }
                assert(views[i + 1] == args@[i + 1]@);
                if !crate::text::str_eq(args[i + 1].as_str(), "chars") {
                    return Err("only --point-units chars is supported".to_owned());
                }
                i += 2;
            } else if crate::text::str_eq(a, "-h") || crate::text::str_eq(a, "--help") {
                return Err(usage());
            } else {
                let head = concat("unknown argument: ", a);
                let head = concat(head.as_str(), "\n");
                return Err(concat(head.as_str(), usage().as_str()));
            }
        }
        match mode {
            None => Err(usage()),
            Some(m) => match point {
                None => Err("--point is required".to_owned()),
                Some(p) => Ok(Request { mode: m, point_chars: p }),
            },
        }
    }
}

/// The corrected line and the cursor in it, in bytes.
#[derive(Debug, Clone, PartialEq, Eq)]
pub struct ConversionResult {
    pub line: String,
    pub point_byte: usize,
}

/// A plan applied to a readline line: the planned range must hold the text
/// the plan expects; the cursor moves with the replacement.
pub fn apply_plan_to_line(line: &str, point_byte: usize, plan: &ReplacementPlan) -> (r: Option<
    ConversionResult,
>)
    requires
        utf8_len(line@) + utf8_len(plan.replacement_text@) <= usize::MAX,
        point_byte <= utf8_len(line@),
        is_char_boundary(line@, point_byte as int),
    ensures
        match spec_slice_by_range(line@, plan.range) {
            Some(before) => if before == plan.expected_before_text@ {
                r matches Some(c) && Some(c.line@) == spec_replace_range_text(
                    line@,
                    plan.range,
                    plan.replacement_text@,
                ) && c.point_byte == spec_adjusted_caret(
                    point_byte as int,
                    plan.range,
                    utf8_len(plan.replacement_text@) as int,
                ) && is_char_boundary(c.line@, c.point_byte as int)
            } else {
                r is None
            },
            None => r is None,
        },
{
    let actual = match crate::offsets::slice_by_range(line, plan.range) {
        Some(a) => a,
        None => {
            return None;
        },
    };
    if !crate::text::str_eq(actual.as_str(), plan.expected_before_text.as_str()) {
        return None;
    }
    let new_line = match crate::offsets::replace_range_text(
        line,
        plan.range,
        plan.replacement_text.as_str(),
    ) {
        Some(l) => l,
        None => {
            return None;
        },
    };
    let repl = chars_of(plan.replacement_text.as_str());
    proof {
        let t = line@;
        let cs = char_index_of_byte(t, plan.range.start as int);
        let ce = char_index_of_byte(t, plan.range.end as int);
        crate::text::lemma_utf8_len_monotone(t, ce, t.len() as int);
        assert(t.take(t.len() as int) == t);
    }
    let repl_len = crate::text::utf8_len_of(&repl);
    let point = adjusted_cursor_after_replacement(point_byte, plan.range, repl_len);
    proof {
        lemma_point_stays_on_boundary(line@, plan.range, plan.replacement_text@, point_byte as int);
    }
    Some(ConversionResult { line: new_line, point_byte: point })
}

proof fn lemma_point_stays_on_boundary(
    t: Seq<char>,
    range: TextRange,
    repl: Seq<char>,
    p: int,
)
    requires
        spec_slice_by_range(t, range) is Some,
        is_char_boundary(t, p),
    ensures
        is_char_boundary(
            spec_replace_range_text(t, range, repl).unwrap(),
            spec_adjusted_caret(p, range, utf8_len(repl) as int),
        ),
{
    let cs = char_index_of_byte(t, range.start as int);
    let ce = char_index_of_byte(t, range.end as int);
    let cp = char_index_of_byte(t, p);
    let head = t.take(cs);
    let tail = t.skip(ce);
    let n = head + repl + tail;
    assert(spec_replace_range_text(t, range, repl).unwrap() == n);
    let q = spec_adjusted_caret(p, range, utf8_len(repl) as int);
    if p <= range.start {
        assert(cp <= cs) by {
            if cp > cs {
                crate::text::lemma_utf8_len_monotone(t, cs, cp);
                if cp > cs {
                    crate::text::lemma_utf8_len_take(t, cs);
                    crate::text::lemma_utf8_len_monotone(t, cs + 1, cp);
                }
            }
        }
        assert(n.take(cp) == t.take(cp));
        assert(0 <= cp <= n.len());
    } else if p <= range.end {
        let k = cs + repl.len();
        assert(n.take(k) == head + repl);
        crate::text::lemma_utf8_len_concat(head, repl);
        assert(0 <= k <= n.len());
    } else {
        assert(cp > ce) by {
            if cp <= ce {
                crate::text::lemma_utf8_len_monotone(t, cp, ce);
            }
        }
        let k = cs + repl.len() + (cp - ce);
        assert(n.take(k) == head + repl + t.subrange(ce, cp));
        crate::text::lemma_utf8_len_concat(head + repl, t.subrange(ce, cp));
        crate::text::lemma_utf8_len_concat(head, repl);
        assert(t.take(cp) == t.take(ce) + t.subrange(ce, cp));
        crate::text::lemma_utf8_len_concat(t.take(ce), t.subrange(ce, cp));
        assert(0 <= k <= n.len());
    }
}

/// What the planner made of the line.
#[derive(Debug, Clone, PartialEq, Eq)]
pub enum LineOutcome {
    /// The line was corrected.
    Converted(ConversionResult),
    /// There was nothing to correct.
    NoTextToReplace,
    /// Planning failed; the error as printed.
    Failed(String),
}

/// The byte offset of the readline point: the end of the line when the
/// point lies past it.
pub open spec fn spec_line_point_byte(line: Seq<char>, point_chars: usize) -> int {
    match spec_char_offset_to_byte(line, point_chars as int) {
        Some(b) => b,
        None => utf8_len(line) as int,
    }
}

pub fn line_point_byte(line: &str, point_chars: usize) -> (r: usize)
    ensures
        r == spec_line_point_byte(line@, point_chars),
        r <= utf8_len(line@),
        is_char_boundary(line@, r as int),
{
    let n = crate::text::byte_len(line);
    let v = chars_of(line);
    proof {
        assert(v@.take(v.len() as int) == v@);
    }
    match char_offset_to_byte(line, point_chars) {
        Some(b) => {
            proof {
                crate::text::lemma_utf8_len_monotone(v@, point_chars as int, v.len() as int);
            }
            b
        },
        None => n,
    }
}

/// The helper's output line: a status, the new point in characters and
/// the line (or the error) as base64 of its UTF-8 bytes, tab-separated.
pub open spec fn spec_plan_line_output(
    line: Seq<char>,
    point_chars: usize,
    outcome_status: Seq<char>,
    point: nat,
    payload: Seq<char>,
) -> Seq<char> {
    outcome_status + "\t"@ + decimal(point) + "\t"@ + spec_encode_base64(
        vstd::utf8::encode_utf8(payload),
    )
}

pub open spec fn min_nat(a: nat, b: nat) -> nat {
    if a <= b {
        a
    } else {
        b
    }
}

pub fn plan_line_output(line: &str, point_chars: usize, outcome: &LineOutcome) -> (r: String)
    requires
        outcome matches LineOutcome::Converted(c) ==> (c.point_byte >= utf8_len(c.line@)
            || is_char_boundary(c.line@, c.point_byte as int)),
    ensures
        r@ == (match outcome {
            LineOutcome::Converted(c) => spec_plan_line_output(
                line@,
                point_chars,
                "ok"@,
                spec_byte_offset_to_char(c.line@, c.point_byte as int) as nat,
                c.line@,
            ),
            LineOutcome::NoTextToReplace => spec_plan_line_output(
                line@,
                point_chars,
                "noop"@,
                min_nat(point_chars as nat, line@.len()),
                line@,
            ),
            LineOutcome::Failed(e) => spec_plan_line_output(
                line@,
                point_chars,
                "error"@,
                min_nat(point_chars as nat, line@.len()),
                e@,
            ),
        }),
{
    let count = chars_of(line).len();
    let clamped = if point_chars <= count {
        point_chars
    } else {
        count
    };
    let (status, point, payload): (&str, usize, &str) = match outcome {
        LineOutcome::Converted(c) => (
            "ok",
            byte_offset_to_char(c.line.as_str(), c.point_byte),
            c.line.as_str(),
        ),
        LineOutcome::NoTextToReplace => ("noop", clamped, line),
        LineOutcome::Failed(e) => ("error", clamped, e.as_str()),
    };
    let encoded = encode_base64(payload.as_bytes());
    let s = concat(status, "\t");
    let s = concat(s.as_str(), decimal_string(point as u64).as_str());
    let s = concat(s.as_str(), "\t");
    concat(s.as_str(), encoded.as_str())
}


/// The context a remote readline line is planned in: the whole line, the
/// caret at `point_byte`, bound to the SSH terminal method.
pub fn readline_context(line: &str, point_byte: usize) -> (r: crate::model::TextContext)
    ensures
        r.app_id@ == "ssh-remote/bash"@,
        r.window_id@ == "readline"@,
        r.control_id@ == "readline-line"@,
        r.text_snapshot@ == line@,
        r.caret_range == crate::model::TextRange::caret_spec(point_byte),
        r.selection_range is None,
        r.capabilities.can_replace_directly,
        !r.capabilities.can_read_selection,
        r.capabilities.can_read_caret,
        r.capabilities.method_binding matches Some(b) && b.context_method == crate::model::MethodId::SshTerminal
            && b.replace_methods@ == seq![crate::model::MethodId::SshTerminal],
{
    let binding = crate::model::MethodBinding::new(
        crate::model::MethodId::SshTerminal,
        vec![crate::model::MethodId::SshTerminal],
    );
    assert(binding.replace_methods@ == seq![crate::model::MethodId::SshTerminal]);
    crate::model::TextContext {
        app_id: "ssh-remote/bash".to_owned(),
        window_id: "readline".to_owned(),
        control_id: "readline-line".to_owned(),
        text_snapshot: line.to_owned(),
        caret_range: crate::model::TextRange::caret(point_byte),
        selection_range: None,
        capabilities: crate::model::Capabilities {
            can_replace_directly: true,
            can_read_selection: false,
            can_read_caret: true,
            method_binding: Some(binding),
        },
    }
}

} // verus!
