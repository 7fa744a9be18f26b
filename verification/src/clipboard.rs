//! Clipboard snapshots: what is saved before the clipboard is borrowed for
//! copying text, and what is put back afterwards.
use vstd::prelude::*;
use crate::encoding::{
    encode_utf16, spec_utf16_to_le_bytes, string_to_null_terminated_utf16, utf16_to_le_bytes,
};
use crate::platform::{ClipboardFormatSnapshot, ClipboardSnapshot};

verus! {

/// Unicode text.
pub const CF_UNICODETEXT: u32 = 13;
/// Device-dependent bitmap handle.
pub const CF_BITMAP: u32 = 2;
/// Metafile picture handle.
pub const CF_METAFILEPICT: u32 = 3;
/// Palette handle.
pub const CF_PALETTE: u32 = 9;
/// Enhanced metafile handle.
pub const CF_ENHMETAFILE: u32 = 14;
/// Owner-displayed data (no data of its own).
pub const CF_OWNERDISPLAY: u32 = 0x80;
/// Private display forms of the handle formats.
pub const CF_DSPBITMAP: u32 = 0x82;
pub const CF_DSPMETAFILEPICT: u32 = 0x83;
pub const CF_DSPENHMETAFILE: u32 = 0x8E;

/// Formats whose clipboard data is a global memory block that can be read
/// and written back as bytes; the GDI handle formats are not.
pub open spec fn spec_format_uses_hglobal(format: u32) -> bool {
    !(format == CF_BITMAP || format == CF_METAFILEPICT || format == CF_PALETTE || format
        == CF_ENHMETAFILE || format == CF_OWNERDISPLAY || format == CF_DSPBITMAP || format
        == CF_DSPMETAFILEPICT || format == CF_DSPENHMETAFILE)
}

pub fn clipboard_format_uses_hglobal(format: u32) -> (r: bool)
    ensures
        r == spec_format_uses_hglobal(format),
{
    !(format == CF_BITMAP || format == CF_METAFILEPICT || format == CF_PALETTE || format
        == CF_ENHMETAFILE || format == CF_OWNERDISPLAY || format == CF_DSPBITMAP || format
        == CF_DSPMETAFILEPICT || format == CF_DSPENHMETAFILE)
}

/// A snapshot holding just `text`, as NUL-terminated UTF-16LE.
pub open spec fn spec_text_snapshot_ok(s: ClipboardSnapshot, text: Seq<char>) -> bool {
    &&& s.text matches Some(t) && t@ == text
    &&& s.sequence_number is None
    &&& s.formats@.len() == 1
    &&& s.formats@[0].format == CF_UNICODETEXT
    &&& s.formats@[0].bytes@ == spec_utf16_to_le_bytes(encode_utf16(text).push(0))
}

pub fn clipboard_snapshot_from_text(text: &str) -> (r: ClipboardSnapshot)
    ensures
        spec_text_snapshot_ok(r, text@),
{
    let bytes = utf16_to_le_bytes(string_to_null_terminated_utf16(text).as_slice());
    let mut formats: Vec<ClipboardFormatSnapshot> = Vec::new();
    formats.push(ClipboardFormatSnapshot { format: CF_UNICODETEXT, bytes });
    ClipboardSnapshot { text: Some(text.to_owned()), sequence_number: None, formats }
}

/// What a text-only probe puts back: the saved text alone, or nothing when
/// the clipboard held no text (other formats are never restored by it).
pub fn clipboard_snapshot_for_text_probe_restore(snapshot: &ClipboardSnapshot) -> (r: Option<
    ClipboardSnapshot,
>)
    ensures
        match snapshot.text {
            Some(t) => r matches Some(s) && spec_text_snapshot_ok(s, t@),
            None => r is None,
        },
{
    match &snapshot.text {
        Some(t) => Some(clipboard_snapshot_from_text(t.as_str())),
        None => None,
    }
}

} // verus!
