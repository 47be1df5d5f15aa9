//! Erasing secrets from memory once they have served.

use vstd::prelude::*;
use zeroize::Zeroize;

verus! {

/// Calls `Zeroize::zeroize` on a vector of bytes, which overwrites the
/// bytes with zeros and leaves the vector empty.
#[verifier::external_body]
pub(crate) fn zeroize_bytes(bytes: &mut Vec<u8>)
    ensures
        final(bytes)@ == Seq::<u8>::empty(),
{
    bytes.zeroize();
}

/// Calls `Zeroize::zeroize` on a text, which overwrites its bytes with
/// zeros and leaves the text empty.
#[verifier::external_body]
pub(crate) fn zeroize_text(text: &mut String)
    ensures
        final(text)@ == Seq::<char>::empty(),
{
    text.zeroize();
}

} // verus!
