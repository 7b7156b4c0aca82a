//! Comparing names.

use vstd::prelude::*;
use vstd::string::StringSliceAdditionalSpecFns;
use vstd::utf8::encode_utf8_decode_utf8;

verus! {

/// Whether `text` reads exactly as `literal` does.
///
/// The two are compared byte by byte. That settles it for the characters
/// too, since a text can be read back from its bytes.
pub fn is_text(text: &str, literal: &str) -> (same: bool)
    ensures
        same == (text@ == literal@),
{
    let left = text.as_bytes();
    let right = literal.as_bytes();
    proof {
        encode_utf8_decode_utf8(text@);
        encode_utf8_decode_utf8(literal@);
    }
    if left.len() != right.len() {
        return false;
    }
    let mut i: usize = 0;
    while i < left.len()
        invariant
            i <= left.len(),
            left.len() == right.len(),
            left@ == text.spec_bytes(),
            right@ == literal.spec_bytes(),
            forall|j: int| 0 <= j < i ==> left@[j] == right@[j],
        decreases left.len() - i,
    {
        if left[i] != right[i] {
            return false;
        }
        i += 1;
    }
    assert(left@ =~= right@);
    true
}

/// Whether a name is present and reads exactly as `literal` does.
pub open spec fn names(name: Option<String>, literal: Seq<char>) -> bool {
    match name {
        Some(text) => text@ == literal,
        None => false,
    }
}

/// Whether a name is present and reads exactly as `literal` does.
pub fn is_name(name: &Option<String>, literal: &str) -> (same: bool)
    ensures
        same == names(*name, literal@),
{
    match name {
        Some(text) => is_text(text.as_str(), literal),
        None => false,
    }
}

} // verus!
