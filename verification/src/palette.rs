use vstd::prelude::*;

verus! {

/// The named colour schemes that the wallpaper can paint its triangles with.
#[derive(Clone, Copy, Debug, PartialEq, Eq, Structural)]
pub enum PaletteName {
    Ember,
    Ocean,
    Synth,
    Forest,
    Mono,
}

/// Shade `i` (0..4) of palette `p`, as red, green, blue and alpha bytes.
pub open spec fn shade(p: PaletteName, i: int) -> Seq<u8> {
    match p {
        PaletteName::Ember => if i == 0 {
            seq![255u8, 69, 0, 255]
        } else if i == 1 {
            seq![255u8, 106, 0, 255]
        } else if i == 2 {
            seq![255u8, 140, 66, 255]
        } else {
            seq![255u8, 196, 92, 255]
        },
        PaletteName::Ocean => if i == 0 {
            seq![0u8, 71, 171, 255]
        } else if i == 1 {
            seq![0u8, 180, 216, 255]
        } else if i == 2 {
            seq![72u8, 202, 228, 255]
        } else {
            seq![144u8, 224, 239, 255]
        },
        PaletteName::Synth => if i == 0 {
            seq![106u8, 13, 173, 255]
        } else if i == 1 {
            seq![201u8, 24, 74, 255]
        } else if i == 2 {
            seq![255u8, 93, 143, 255]
        } else {
            seq![255u8, 179, 198, 255]
        },
        PaletteName::Forest => if i == 0 {
            seq![45u8, 106, 79, 255]
        } else if i == 1 {
            seq![64u8, 145, 108, 255]
        } else if i == 2 {
            seq![82u8, 183, 136, 255]
        } else {
            seq![149u8, 213, 178, 255]
        },
        PaletteName::Mono => if i == 0 {
            seq![255u8, 255, 255, 255]
        } else if i == 1 {
            seq![217u8, 217, 217, 255]
        } else if i == 2 {
            seq![166u8, 166, 166, 255]
        } else {
            seq![115u8, 115, 115, 255]
        },
    }
}

impl PaletteName {
    /// The four RGBA shades of this palette, darkest-first for the warm and
    /// cool schemes and lightest-first for `Mono`.
    pub fn colors(self) -> (c: [[u8; 4]; 4])
        ensures
            forall|i: int| 0 <= i < 4 ==> (#[trigger] c@[i])@ == shade(self, i),
    {
        match self {
            PaletteName::Ember => [
                [255, 69, 0, 255],
                [255, 106, 0, 255],
                [255, 140, 66, 255],
                [255, 196, 92, 255],
            ],
            PaletteName::Ocean => [
                [0, 71, 171, 255],
                [0, 180, 216, 255],
                [72, 202, 228, 255],
                [144, 224, 239, 255],
            ],
            PaletteName::Synth => [
                [106, 13, 173, 255],
                [201, 24, 74, 255],
                [255, 93, 143, 255],
                [255, 179, 198, 255],
            ],
            PaletteName::Forest => [
                [45, 106, 79, 255],
                [64, 145, 108, 255],
                [82, 183, 136, 255],
                [149, 213, 178, 255],
            ],
            PaletteName::Mono => [
                [255, 255, 255, 255],
                [217, 217, 217, 255],
                [166, 166, 166, 255],
                [115, 115, 115, 255],
            ],
        }
    }
}

pub open spec fn brightness(rgba: Seq<u8>) -> int {
    rgba[0] + rgba[1] + rgba[2]
}

/// The shades of the coloured palettes run from darkest to lightest; the
/// shades of `Mono` are greys that run from white down to the darkest.
pub proof fn lemma_shade_order(p: PaletteName, i: int, j: int)
    requires
        0 <= i < j < 4,
    ensures
        p != PaletteName::Mono ==> brightness(shade(p, i)) < brightness(shade(p, j)),
        p == PaletteName::Mono ==> brightness(shade(p, i)) > brightness(shade(p, j)),
        p == PaletteName::Mono ==> shade(p, i)[0] == shade(p, i)[1] && shade(p, i)[1] == shade(
            p,
            i,
        )[2],
        shade(PaletteName::Mono, 0) == seq![255u8, 255, 255, 255],
{
}

/// Every shade of every palette is fully opaque.
pub proof fn lemma_shades_opaque(p: PaletteName, i: int)
    requires
        0 <= i < 4,
    ensures
        shade(p, i).len() == 4,
        shade(p, i)[3] == 255,
{
}

/// The four shades of a palette are four different colours.
pub proof fn lemma_shades_distinct(p: PaletteName, i: int, j: int)
    requires
        0 <= i < 4,
        0 <= j < 4,
        i != j,
    ensures
        shade(p, i) != shade(p, j),
{
    if shade(p, i) == shade(p, j) {
        assert(shade(p, i)[0] == shade(p, j)[0]);
        assert(shade(p, i)[1] == shade(p, j)[1]);
        assert(shade(p, i)[2] == shade(p, j)[2]);
    }
}

} // verus!
