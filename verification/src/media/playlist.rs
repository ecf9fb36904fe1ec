//! Diagnostics for the playlist files that recordings keep.
use vstd::prelude::*;

use crate::outside::{debug_escaped, escape_debug, lossy_text, utf8_lossy};
use crate::text::{append_str, chars_of, slice_chars, string_of};

verus! {

/// The most characters of a playlist that a preview shows.
pub const MAX_PREVIEW_CHARS: usize = 256;

/// A text cut to `MAX_PREVIEW_CHARS` characters, with `...` after it when
/// something was cut.
pub open spec fn bounded_preview(text: Seq<char>) -> Seq<char> {
    if text.len() > MAX_PREVIEW_CHARS {
        text.take(MAX_PREVIEW_CHARS as int) + "..."@
    } else {
        text
    }
}

/// A short, escaped preview of a playlist's bytes for error messages: the
/// bytes decoded leniently, bounded, then escaped.
pub fn playlist_content_preview(bytes: &[u8]) -> (r: String)
    ensures
        r@ == debug_escaped(bounded_preview(lossy_text(bytes@))),
{
    let content = chars_of(utf8_lossy(bytes).as_str());
    let preview = if content.len() > MAX_PREVIEW_CHARS {
        let mut p = slice_chars(&content, 0, MAX_PREVIEW_CHARS);
        append_str(&mut p, "...");
        p
    } else {
        content
    };
    escape_debug(string_of(&preview).as_str())
}

} // verus!
