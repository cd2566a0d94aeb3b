//! The DMG's four shades as RGBA colours.
use vstd::prelude::*;

verus! {

/// The RGBA colour of a DMG shade (0 = lightest; anything above 3 shows as
/// the darkest), in the classic green palette.
pub open spec fn shade_rgba(s: u8) -> Seq<u8> {
    if s == 0 {
        seq![155u8, 188u8, 15u8, 255u8]
    } else if s == 1 {
        seq![139u8, 172u8, 15u8, 255u8]
    } else if s == 2 {
        seq![48u8, 98u8, 48u8, 255u8]
    } else {
        seq![15u8, 56u8, 15u8, 255u8]
    }
}

/// A frame of shades as RGBA8, four bytes per pixel in the same order.
pub open spec fn rgba_spec(fb: Seq<u8>) -> Seq<u8>
    decreases fb.len(),
{
    if fb.len() == 0 {
        Seq::empty()
    } else {
        rgba_spec(fb.drop_last()) + shade_rgba(fb.last())
    }
}

/// Pixel `i` of a frame occupies bytes `4i..4i+4` of its RGBA form.
pub proof fn lemma_rgba_pixel(fb: Seq<u8>, i: int)
    requires
        0 <= i < fb.len(),
    ensures
        rgba_spec(fb).len() == 4 * fb.len(),
        rgba_spec(fb).subrange(4 * i, 4 * i + 4) == shade_rgba(fb[i]),
    decreases fb.len(),
{
    let d = fb.drop_last();
    let n = fb.len() as int;
    lemma_rgba_len(d);
    let rd = rgba_spec(d);
    let sl = shade_rgba(fb.last());
    assert(rgba_spec(fb) == rd + sl);
    assert(sl.len() == 4);
    if i + 1 < n {
        lemma_rgba_pixel(d, i);
        assert(4 * i + 4 <= 4 * (n - 1));
        assert((rd + sl).subrange(4 * i, 4 * i + 4) =~= rd.subrange(4 * i, 4 * i + 4));
        assert(d[i] == fb[i]);
    } else {
        assert((rd + sl).subrange(4 * i, 4 * i + 4) =~= sl);
    }
}

proof fn lemma_rgba_len(fb: Seq<u8>)
    ensures
        rgba_spec(fb).len() == 4 * fb.len(),
    decreases fb.len(),
{
    if fb.len() > 0 {
        lemma_rgba_len(fb.drop_last());
    }
}

} // verus!
