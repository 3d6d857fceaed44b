//! Marshalling of a finished frame into the byte layout of an 8-bit RGB image:
//! row-major pixels, red, green and blue bytes in turn, no alpha.
use vstd::prelude::*;

verus! {

/// True when every pixel of `pixels` holds three channel bytes.
pub open spec fn all_rgb(pixels: Seq<Vec<u8>>) -> bool {
    forall|i: int| 0 <= i < pixels.len() ==> (#[trigger] pixels[i])@.len() == 3
}

/// The channel bytes of a run of pixels, laid end to end: pixel `i` gives bytes
/// `3 * i`, `3 * i + 1` and `3 * i + 2`.
pub fn rgb_bytes(pixels: &Vec<Vec<u8>>) -> (bytes: Vec<u8>)
    requires
        all_rgb(pixels@),
        3 * pixels@.len() <= usize::MAX,
    ensures
        bytes@.len() == 3 * pixels@.len(),
        forall|i: int, c: int|
            0 <= i < pixels@.len() && 0 <= c < 3 ==> bytes@[3 * i + c] == #[trigger] pixels@[i]@[c],
{
    let mut bytes: Vec<u8> = Vec::with_capacity(3 * pixels.len());
    let mut k: usize = 0;
    while k < pixels.len()
        invariant
            k <= pixels@.len(),
            all_rgb(pixels@),
            bytes@.len() == 3 * k,
            forall|i: int, c: int|
                0 <= i < k && 0 <= c < 3 ==> bytes@[3 * i + c] == #[trigger] pixels@[i]@[c],
        decreases pixels@.len() - k,
    {
        let px = &pixels[k];
        assert(px@.len() == 3);
        bytes.push(px[0]);
        bytes.push(px[1]);
        bytes.push(px[2]);
        k = k + 1;
    }
    bytes
}

} // verus!
