use vstd::prelude::*;

use crate::color::Color;

verus! {

/// Size in bytes of one wire frame: the fixed block a client writes per frame.
pub const FRAME_BYTES: usize = 900;

/// Number of colors decoded from one full wire frame.
pub const FRAME_COLORS: usize = 300;

/// The color formed by the `i`th consecutive byte triplet of `bytes`.
pub open spec fn color_at(bytes: Seq<u8>, i: int) -> Color {
    Color { r: bytes[3 * i], g: bytes[3 * i + 1], b: bytes[3 * i + 2] }
}

/// The frame a byte buffer decodes to: one color per complete triplet, in
/// byte order; trailing bytes short of a triplet contribute nothing.
pub open spec fn decoded(bytes: Seq<u8>) -> Seq<Color> {
    Seq::new(bytes.len() / 3, |i: int| color_at(bytes, i))
}

/// Decode a byte buffer into a frame by grouping consecutive non-overlapping
/// (R,G,B) triplets in order. Pure and total: any byte value is legal, an
/// empty buffer gives an empty frame, and a trailing partial triplet is
/// dropped.
pub fn decode_frame(buffer: &[u8]) -> (frame: Vec<Color>)
    ensures
        frame@ == decoded(buffer@),
        frame@.len() == buffer@.len() / 3,
        forall|i: int| 0 <= i < frame@.len() ==> frame@[i] == color_at(buffer@, i),
{
    let len: usize = buffer.len();
    let n: usize = len / 3;
    proof {
        assert(3 * n <= len) by (nonlinear_arith)
            requires
                n == len / 3,
        ;
    }
    let mut frame: Vec<Color> = Vec::new();
    let mut i: usize = 0;
    while i < n
        invariant
            len == buffer@.len(),
            n == buffer@.len() / 3,
            3 * n <= len,
            i <= n,
            frame@.len() == i,
            forall|j: int| 0 <= j < i ==> frame@[j] == color_at(buffer@, j),
        decreases n - i,
    {
        proof {
            assert(3 * i + 2 < 3 * n) by (nonlinear_arith)
                requires
                    i < n,
            ;
        }
        let c = Color { r: buffer[3 * i], g: buffer[3 * i + 1], b: buffer[3 * i + 2] };
        frame.push(c);
        i = i + 1;
    }
    proof {
        assert(frame@ =~= decoded(buffer@));
    }
    frame
}

/// Law: decoding is deterministic, so decoding the same buffer twice (or an
/// equal copy of it) yields equal frames.
pub proof fn lemma_decode_deterministic(a: Seq<u8>, b: Seq<u8>)
    requires
        a == b,
    ensures
        decoded(a) == decoded(b),
{
}

/// A buffer holding exactly one wire frame decodes to exactly one color per
/// triplet of the protocol's fixed block.
pub proof fn lemma_full_frame_length(bytes: Seq<u8>)
    requires
        bytes.len() == FRAME_BYTES,
    ensures
        decoded(bytes).len() == FRAME_COLORS,
{
}

/// Law: the trailing `len % 3` bytes of a buffer are silently ignored — the
/// buffer decodes exactly as its longest prefix made of complete triplets
/// does, so no trailing byte appears in any output color.
pub proof fn lemma_trailing_bytes_ignored(bytes: Seq<u8>)
    ensures
        decoded(bytes) == decoded(bytes.take(3 * (bytes.len() / 3) as int)),
{
    let m = bytes.len() / 3;
    assert(3 * m <= bytes.len() && (3 * m) / 3 == m) by (nonlinear_arith)
        requires
            m == bytes.len() / 3,
    ;
    let prefix = bytes.take(3 * m as int);
    assert(prefix.len() / 3 == m);
    assert forall|i: int| 0 <= i < m implies color_at(prefix, i) == color_at(bytes, i) by {
        assert(3 * i + 2 < 3 * m) by (nonlinear_arith)
            requires
                0 <= i < m,
        ;
    }
    assert(decoded(bytes) =~= decoded(prefix));
}

} // verus!
