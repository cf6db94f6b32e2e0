use vstd::prelude::*;
use vstd::utf8::{decode_utf8, valid_utf8};

use crate::text::{trim_text, trimmed};

verus! {

/// Relies on `String::from_utf8`: it succeeds exactly on valid UTF-8, and the
/// string then holds the characters that the bytes encode.
#[verifier::external_body]
fn utf8_string(bytes: Vec<u8>) -> (r: Option<String>)
    ensures
        r is Some <==> valid_utf8(bytes@),
        r matches Some(s) ==> s@ == decode_utf8(bytes@),
{
    String::from_utf8(bytes).ok()
}

/// Whether the identity text, already trimmed, names the superuser (`0`).
pub fn is_superuser_id(id: &str) -> (r: bool)
    ensures
        r == (id@ == seq!['0']),
{
    let n = id.unicode_len();
    if n != 1 {
        return false;
    }
    let c = id.get_char(0);
    assert(c == '0' ==> id@ =~= seq!['0']);
    c == '0'
}

/// Whether the standard output of the effective-user-id query says that the
/// process runs as the superuser. Output that is not UTF-8 counts as not
/// privileged, so that any doubt fails closed.
pub fn is_superuser_output(stdout: Vec<u8>) -> (r: bool)
    ensures
        r == (valid_utf8(stdout@) && trimmed(decode_utf8(stdout@)) == seq!['0']),
{
    match utf8_string(stdout) {
        Some(text) => is_superuser_id(trim_text(text.as_str())),
        None => false,
    }
}

} // verus!
