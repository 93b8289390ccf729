use vstd::prelude::*;
use vstd::string::*;
use vstd::utf8::encode_utf8;

verus! {

/// Cursor one step to the left, clamped to `0 ..= len`.
pub open spec fn cursor_left(p: nat, len: nat) -> nat {
    if p == 0 {
        0
    } else if p - 1 > len {
        len
    } else {
        (p - 1) as nat
    }
}

/// Cursor one step to the right, clamped to `0 ..= len`.
pub open spec fn cursor_right(p: nat, len: nat) -> nat {
    if p + 1 > len {
        len
    } else {
        p + 1
    }
}

/// Text and cursor after inserting `c` at character position `p`.
pub open spec fn text_inserted(s: Seq<char>, p: nat, c: char) -> (Seq<char>, nat) {
    (s.insert(p as int, c), p + 1)
}

/// Text and cursor after deleting the character just before position `p`
/// (nothing happens at position 0).
pub open spec fn text_deleted_before(s: Seq<char>, p: nat) -> (Seq<char>, nat) {
    if p == 0 {
        (s, 0)
    } else {
        (s.remove(p - 1), (p - 1) as nat)
    }
}

/// Inserting a character and then deleting the character before the new
/// cursor gives back the text and the cursor that were there before, for
/// any character, multi-byte ones included.
pub proof fn lemma_insert_then_delete(s: Seq<char>, p: nat, c: char)
    requires
        p <= s.len(),
    ensures
        text_deleted_before(text_inserted(s, p, c).0, text_inserted(s, p, c).1) == (s, p),
{
    let t = s.insert(p as int, c);
    assert(t.remove(p as int) =~= s);
}

/// Moving right and then left returns to the starting position, for every
/// position but the end of a non-empty text, where moving right is clamped.
pub proof fn lemma_right_then_left(p: nat, len: nat)
    requires
        p <= len,
        !(p == len && len > 0),
    ensures
        cursor_left(cursor_right(p, len), len) == p,
{
}

/// Moving left and then right returns to the starting position, for every
/// position but the start, where moving left is clamped.
pub proof fn lemma_left_then_right(p: nat, len: nat)
    requires
        0 < p <= len,
    ensures
        cursor_right(cursor_left(p, len), len) == p,
{
}

/// Relies on String::push: appends the character at the end of the string.
#[verifier::external_body]
fn push_char(s: &mut String, c: char)
    ensures
        final(s)@ == old(s)@.push(c),
{
    s.push(c)
}

/// The text with `c` inserted at character position `pos`.
pub fn insert_char_at(s: &str, pos: usize, c: char) -> (r: String)
    requires
        pos <= s@.len(),
    ensures
        r@ == s@.insert(pos as int, c),
{
    let n = s.unicode_len();
    let mut out = String::from_str(s.substring_char(0, pos));
    push_char(&mut out, c);
    out.append(s.substring_char(pos, n));
    assert(out@ =~= s@.insert(pos as int, c));
    out
}

/// The text without the character at position `pos`.
pub fn remove_char_at(s: &str, pos: usize) -> (r: String)
    requires
        pos < s@.len(),
    ensures
        r@ == s@.remove(pos as int),
{
    let n = s.unicode_len();
    let mut out = String::from_str(s.substring_char(0, pos));
    out.append(s.substring_char(pos + 1, n));
    assert(out@ =~= s@.remove(pos as int));
    out
}

/// Byte offset, in the UTF-8 encoding of `s`, of the character at position
/// `pos` (the byte length when `pos` is the end).
pub fn byte_offset(s: &str, pos: usize) -> (r: usize)
    requires
        pos <= s@.len(),
    ensures
        r == encode_utf8(s@.subrange(0, pos as int)).len() as usize,
{
    s.substring_char(0, pos).len()
}

} // verus!
