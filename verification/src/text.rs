//! Which typed text reaches the GUI.
use vstd::prelude::*;

verus! {

/// A control character: `U+0000` to `U+001F` and `U+007F` to `U+009F`.
pub open spec fn is_control(c: char) -> bool {
    c as u32 <= 0x1f || 0x7f <= c as u32 <= 0x9f
}

/// A code point of one of the three private-use areas.
pub open spec fn is_private_use(c: char) -> bool {
    ||| 0xe000 <= c as u32 <= 0xf8ff
    ||| 0xf_0000 <= c as u32 <= 0xf_fffd
    ||| 0x10_0000 <= c as u32 <= 0x10_fffd
}

/// A character that may stand in a text event.
pub open spec fn is_printable(c: char) -> bool {
    !is_control(c) && !is_private_use(c)
}

/// A text that the GUI is given: not empty, and made of printable characters
/// only.
pub open spec fn is_typed_text(text: Seq<char>) -> bool {
    text.len() > 0 && forall|i: int| 0 <= i < text.len() ==> is_printable(#[trigger] text[i])
}

/// Whether `c` may stand in a text event.
pub fn printable_char(c: char) -> (ok: bool)
    ensures
        ok == is_printable(c),
{
    let code: u32 = c as u32;
    let control = code <= 0x1f || (0x7f <= code && code <= 0x9f);
    let private = (0xe000 <= code && code <= 0xf8ff) || (0xf_0000 <= code && code <= 0xf_fffd) || (
    0x10_0000 <= code && code <= 0x10_fffd);
    !control && !private
}

/// Whether `text` is given to the GUI as a text event.
pub fn typed_text(text: &str) -> (ok: bool)
    ensures
        ok == is_typed_text(text@),
{
    let len = text.unicode_len();
    if len == 0 {
        return false;
    }
    let mut i: usize = 0;
    while i < len
        invariant
            len == text@.len(),
            i <= len,
            forall|j: int| 0 <= j < i ==> is_printable(#[trigger] text@[j]),
        decreases len - i,
    {
        if !printable_char(text.get_char(i)) {
            return false;
        }
        i += 1;
    }
    true
}

} // verus!
