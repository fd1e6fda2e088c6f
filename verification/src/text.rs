//! Validation of display names that may appear on the LAN.

use vstd::prelude::*;
use vstd::utf8::encode_utf8;

verus! {

/// Unicode general category Cc: the C0 controls U+0000..U+001F, DEL U+007F,
/// and the C1 controls U+0080..U+009F.
pub open spec fn is_control_char(c: char) -> bool {
    (c as u32) <= 0x1f || (0x7f <= (c as u32) && (c as u32) <= 0x9f)
}

/// A display name is valid when it is nonempty, at most 32 bytes in UTF-8,
/// and free of control characters.
pub open spec fn valid_username(name: Seq<char>) -> bool {
    &&& name.len() > 0
    &&& encode_utf8(name).len() <= 32
    &&& forall|i: int| 0 <= i < name.len() ==> !is_control_char(#[trigger] name[i])
}

/// Law: a nonempty name of at most 32 UTF-8 bytes is valid exactly when
/// none of its characters is a C0 control (below U+0020), DEL, or a C1
/// control (U+0080 to U+009F); so every printable character, the space
/// included, is allowed.
pub proof fn lemma_valid_username_chars(name: Seq<char>)
    requires
        name.len() > 0,
        encode_utf8(name).len() <= 32,
    ensures
        valid_username(name) <==> forall|i: int| 0 <= i < name.len() ==> {
            let c = #[trigger] name[i] as u32;
            c >= 0x20 && c != 0x7f && !(0x80 <= c && c <= 0x9f)
        },
        (forall|i: int| 0 <= i < name.len() ==> ' ' <= #[trigger] name[i] <= '~') ==> valid_username(name),
{
}

/// Law: a name is refused when it is empty, longer than 32 UTF-8 bytes, or
/// holds a control character.
pub proof fn lemma_invalid_usernames(name: Seq<char>, i: int)
    ensures
        name.len() == 0 ==> !valid_username(name),
        encode_utf8(name).len() > 32 ==> !valid_username(name),
        0 <= i < name.len() && ((name[i] as u32) < 0x20 || (name[i] as u32) == 0x7f) ==> !valid_username(name),
{
}

/// Calls `char::is_control`, which holds exactly for characters of the
/// Unicode general category Cc (the C0 and C1 control codes and DEL).
#[verifier::external_body]
fn char_is_control(c: char) -> (control: bool)
    ensures
        control == is_control_char(c),
{
    c.is_control()
}

/// Checks a display name: nonempty, at most 32 bytes, no control characters.
pub fn is_valid_username(name: &str) -> (valid: bool)
    ensures
        valid == valid_username(name@),
{
    if name.is_empty() || name.as_bytes().len() > 32 {
        return false;
    }
    let mut clean = true;
    for c in iter: name.chars()
        invariant
            iter.seq() == name@,
            clean == (forall|i: int| 0 <= i < iter.index() ==> !is_control_char(#[trigger] name@[i])),
    {
        if char_is_control(c) {
            clean = false;
        }
    }
    clean
}

} // verus!
