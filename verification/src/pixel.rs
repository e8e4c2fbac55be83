//! Pixels and their flat byte form.

use vstd::prelude::*;

verus! {

/// A colour sample of four bytes: blue, green, red, and a fourth byte that is
/// alpha where the backend has an alpha channel and padding where it has none.
#[derive(Clone, Copy, Debug, PartialEq, Eq, Structural)]
pub struct Bgr8 {
    pub b: u8,
    pub g: u8,
    pub r: u8,
    pub a: u8,
}

impl Bgr8 {
    /// The `k`-th byte of the pixel in memory order: blue, green, red, fourth byte.
    pub open spec fn channel(self, k: int) -> u8 {
        if k == 0 {
            self.b
        } else if k == 1 {
            self.g
        } else if k == 2 {
            self.r
        } else {
            self.a
        }
    }
}

/// The pixels laid out as bytes, four per pixel, in pixel order.
pub open spec fn components(pixels: Seq<Bgr8>) -> Seq<u8> {
    Seq::new(4 * pixels.len(), |i: int| pixels[i / 4].channel(i % 4))
}

/// Appending a pixel appends exactly its four bytes.
proof fn lemma_components_push(pixels: Seq<Bgr8>, p: Bgr8)
    ensures
        components(pixels.push(p)) =~= components(pixels).push(p.b).push(p.g).push(p.r).push(p.a),
{
    let whole = components(pixels.push(p));
    let built = components(pixels).push(p.b).push(p.g).push(p.r).push(p.a);
    let n = pixels.len() as int;
    assert(whole.len() == built.len());
    assert forall|i: int| 0 <= i < whole.len() implies whole[i] == built[i] by {
        if i < 4 * n {
            assert(i / 4 < n);
            assert(pixels.push(p)[i / 4] == pixels[i / 4]);
        } else {
            assert(i / 4 == n);
            assert(pixels.push(p)[i / 4] == p);
            assert(i % 4 == i - 4 * n);
        }
    }
}

/// Lays a frame's pixels out as bytes: blue, green, red and the fourth byte of
/// the first pixel, then those of the second, and so on.
pub fn frame_components(pixels: &[Bgr8]) -> (bytes: Vec<u8>)
    ensures
        bytes@ == components(pixels@),
        bytes@.len() == 4 * pixels@.len(),
{
    let mut bytes: Vec<u8> = Vec::new();
    let mut i: usize = 0;
    while i < pixels.len()
        invariant
            i <= pixels.len(),
            bytes@ == components(pixels@.take(i as int)),
        decreases pixels.len() - i,
    {
        let p = pixels[i];
        proof {
            lemma_components_push(pixels@.take(i as int), p);
            assert(pixels@.take(i as int).push(p) =~= pixels@.take(i as int + 1));
        }
        bytes.push(p.b);
        bytes.push(p.g);
        bytes.push(p.r);
        bytes.push(p.a);
        i = i + 1;
    }
    proof {
        assert(pixels@.take(pixels@.len() as int) =~= pixels@);
    }
    bytes
}

} // verus!
