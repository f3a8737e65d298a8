//! Wiping of the buffers that held key bytes.

use vstd::prelude::*;

verus! {

/// `Zeroize::zeroize` for `Vec<u8>`. Trusted: the buffer is empty afterwards.
/// The crate overwrites the whole allocation with zeros, the spare capacity
/// too, before it resets the length; what earlier reallocations left on the
/// heap is out of its reach.
#[verifier::external_body]
pub(crate) fn wipe_bytes(buf: &mut Vec<u8>)
    ensures
        final(buf)@ == Seq::<u8>::empty(),
{
    zeroize::Zeroize::zeroize(buf)
}

/// `Zeroize::zeroize` for `String`. Trusted: the text is empty afterwards,
/// its allocation overwritten with zeros as for a vector of bytes.
#[verifier::external_body]
pub(crate) fn wipe_text(text: &mut String)
    ensures
        final(text)@ == Seq::<char>::empty(),
{
    zeroize::Zeroize::zeroize(text)
}

} // verus!
