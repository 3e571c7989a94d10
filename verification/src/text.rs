//! Lengths of bounded strings.

use vstd::prelude::*;
use vstd::utf8::encode_utf8;

verus! {

/// The number of bytes in the UTF-8 encoding of `chars`: the unit in which
/// names and titles are bounded.
pub open spec fn utf8_len(chars: Seq<char>) -> nat {
    encode_utf8(chars).len()
}

/// The number of bytes that `s` occupies.
pub fn byte_len(s: &String) -> (n: usize)
    ensures
        n == utf8_len(s@),
{
    s.as_str().as_bytes().len()
}

} // verus!
