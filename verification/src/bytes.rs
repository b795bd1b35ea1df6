use vstd::prelude::*;

verus! {

/// Appends `tail` to `buffer`.
pub(crate) fn append_bytes(buffer: &mut Vec<u8>, tail: &[u8])
    ensures
        final(buffer)@ == old(buffer)@ + tail@,
{
    buffer.extend_from_slice(tail);
    assert(buffer@ =~= old(buffer)@ + tail@);
}

} // verus!
