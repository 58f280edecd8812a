//! The pixel buffer of a window icon.
use vstd::prelude::*;
use vstd::arithmetic::div_mod::lemma_fundamental_div_mod_converse;

verus! {

/// The RGBA bytes of an icon whose pixels are `pixels`, in order: four bytes
/// per pixel.
pub open spec fn icon_bytes(pixels: Seq<[u8; 4]>) -> Seq<u8> {
    Seq::new((pixels.len() * 4) as nat, |i: int| pixels[i / 4]@[i % 4])
}

/// Byte `k` of pixel `p` of an icon is at index `p * 4 + k`.
pub proof fn lemma_icon_byte(pixels: Seq<[u8; 4]>, p: int, k: int)
    requires
        0 <= p < pixels.len(),
        0 <= k < 4,
    ensures
        p * 4 + k < icon_bytes(pixels).len(),
        icon_bytes(pixels)[p * 4 + k] == pixels[p]@[k],
{
    lemma_fundamental_div_mod_converse(p * 4 + k, 4, p, k);
}

/// Lays the RGBA values of an icon's pixels end to end, as the window system
/// expects an icon.
pub fn icon_rgba(pixels: &Vec<[u8; 4]>) -> (rgba: Vec<u8>)
    requires
        pixels@.len() * 4 <= usize::MAX,
    ensures
        rgba@ == icon_bytes(pixels@),
{
    let mut rgba: Vec<u8> = Vec::with_capacity(pixels.len() * 4);
    let mut i: usize = 0;
    while i < pixels.len()
        invariant
            0 <= i <= pixels@.len(),
            rgba@.len() == i * 4,
            forall|j: int| 0 <= j < rgba@.len() ==> #[trigger] rgba@[j] == pixels@[j / 4]@[j % 4],
        decreases pixels@.len() - i,
    {
        let pixel = pixels[i];
        proof {
            lemma_fundamental_div_mod_converse(i * 4 + 0, 4, i as int, 0);
            lemma_fundamental_div_mod_converse(i * 4 + 1, 4, i as int, 1);
            lemma_fundamental_div_mod_converse(i * 4 + 2, 4, i as int, 2);
            lemma_fundamental_div_mod_converse(i * 4 + 3, 4, i as int, 3);
        }
        rgba.push(pixel[0]);
        rgba.push(pixel[1]);
        rgba.push(pixel[2]);
        rgba.push(pixel[3]);
        i = i + 1;
    }
    assert(rgba@ =~= icon_bytes(pixels@));
    rgba
}

} // verus!
