use vstd::prelude::*;

verus! {

/// Marks a set of widget ids generated for a user interface.
pub trait IdMarker: Sized {}

/// Whether `pixels` holds, for each coverage byte `data[i]` of a glyph, the
/// white RGBA pixel `[255, 255, 255, data[i]]` at bytes `4 * i .. 4 * i + 4`,
/// and nothing else.
pub open spec fn is_white_rgba_of(pixels: Seq<u8>, data: Seq<u8>) -> bool {
    &&& pixels.len() == 4 * data.len()
    &&& forall|i: int|
        0 <= i < data.len() ==> #[trigger] pixels.subrange(4 * i, 4 * i + 4) == seq![
            255u8,
            255u8,
            255u8,
            data[i],
        ]
}

/// Refills `buffer` with the glyph coverage bytes `data` as white RGBA
/// pixels whose alpha is the coverage, ready to upload into a texture.
pub fn fill_rgba_from_coverage(buffer: &mut Vec<u8>, data: &[u8])
    ensures
        is_white_rgba_of(final(buffer)@, data@),
{
    buffer.clear();
    for i in 0..data.len()
        invariant
            buffer@.len() == 4 * i,
            forall|j: int|
                0 <= j < i ==> #[trigger] buffer@.subrange(4 * j, 4 * j + 4) == seq![
                    255u8,
                    255u8,
                    255u8,
                    data@[j],
                ],
    {
        let ghost before = buffer@;
        buffer.push(255);
        buffer.push(255);
        buffer.push(255);
        buffer.push(data[i]);
        proof {
            assert forall|j: int| 0 <= j < i + 1 implies #[trigger] buffer@.subrange(4 * j, 4 * j + 4)
                == seq![255u8, 255u8, 255u8, data@[j]] by {
                if j < i {
                    assert(buffer@.subrange(4 * j, 4 * j + 4) =~= before.subrange(4 * j, 4 * j + 4));
                } else {
                    assert(buffer@.subrange(4 * j, 4 * j + 4) =~= seq![255u8, 255u8, 255u8, data@[j]]);
                }
            }
        }
    }
}

} // verus!
