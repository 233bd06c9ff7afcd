//! Over-allocating buffer construction with a 16-byte-aligned interior window.
//!
//! The transform engine requires its input, output and work pointers to be
//! 16-byte aligned, which a general-purpose allocator does not promise.  The
//! buffers are therefore over-allocated by three elements, and a window of
//! the requested length is slid to the first aligned element.

use vstd::prelude::*;

verus! {

/// Relies on `Vec::as_ptr`: returns the buffer's base address counted in
/// four-byte units, modulo four.  The address is chosen by the allocator and
/// differs from run to run, so nothing beyond the range of the result is
/// stated.
#[verifier::external_body]
fn base_word_residue<T>(buf: &Vec<T>) -> (r: usize)
    ensures
        r < 4,
{
    (buf.as_ptr() as usize / 4) % 4
}

/// Builds a buffer of `size + 3` elements, every one equal to `val`, and
/// returns it together with an offset such that, for a four-byte scalar, the
/// element at the offset begins on a 16-byte boundary.
///
/// Whichever of the four possible address residues the allocator produced,
/// the offset is at most 3, so the window `[offset, offset + size)` always
/// lies inside the buffer.
pub fn vec_and_alignment_offset<T: Copy>(val: T, size: usize) -> (r: (Vec<T>, usize))
    requires
        size + 3 <= usize::MAX,
    ensures
        r.0.len() == size + 3,
        forall|i: int| 0 <= i < r.0.len() ==> r.0[i] == val,
        r.1 < 4,
        r.1 + size <= r.0.len(),
{
    let mut buf: Vec<T> = Vec::new();
    let n = size + 3;
    while buf.len() < n
        invariant
            buf.len() <= n,
            n == size + 3,
            forall|i: int| 0 <= i < buf.len() ==> buf[i] == val,
        decreases n - buf.len(),
    {
        buf.push(val);
    }
    let residue = base_word_residue(&buf);
    let offset = (4 - residue) % 4;
    (buf, offset)
}

} // verus!
