//! Headphone template icon for the menu bar.
//!
//! A template image is monochrome: the system tints it to match the current
//! appearance. The icon is an 18x18 pixel headphone silhouette.

use vstd::prelude::*;

verus! {

/// Icon width in pixels.
pub const ICON_WIDTH: u32 = 18;

/// Icon height in pixels.
pub const ICON_HEIGHT: u32 = 18;

/// The headphone silhouette, row by row (1 = filled, 0 = transparent).
pub open spec fn headphone_bitmap() -> Seq<Seq<u8>> {
    seq![
        seq![0u8, 0u8, 0u8, 0u8, 0u8, 0u8, 1u8, 1u8, 1u8, 1u8, 1u8, 1u8, 0u8, 0u8, 0u8, 0u8, 0u8, 0u8],
        seq![0u8, 0u8, 0u8, 0u8, 0u8, 1u8, 1u8, 0u8, 0u8, 0u8, 0u8, 1u8, 1u8, 0u8, 0u8, 0u8, 0u8, 0u8],
        seq![0u8, 0u8, 0u8, 0u8, 1u8, 1u8, 0u8, 0u8, 0u8, 0u8, 0u8, 0u8, 1u8, 1u8, 0u8, 0u8, 0u8, 0u8],
        seq![0u8, 0u8, 0u8, 1u8, 1u8, 0u8, 0u8, 0u8, 0u8, 0u8, 0u8, 0u8, 0u8, 1u8, 1u8, 0u8, 0u8, 0u8],
        seq![0u8, 0u8, 0u8, 1u8, 0u8, 0u8, 0u8, 0u8, 0u8, 0u8, 0u8, 0u8, 0u8, 0u8, 1u8, 0u8, 0u8, 0u8],
        seq![0u8, 0u8, 1u8, 1u8, 0u8, 0u8, 0u8, 0u8, 0u8, 0u8, 0u8, 0u8, 0u8, 0u8, 1u8, 1u8, 0u8, 0u8],
        seq![0u8, 0u8, 1u8, 0u8, 0u8, 0u8, 0u8, 0u8, 0u8, 0u8, 0u8, 0u8, 0u8, 0u8, 0u8, 1u8, 0u8, 0u8],
        seq![0u8, 0u8, 1u8, 0u8, 0u8, 0u8, 0u8, 0u8, 0u8, 0u8, 0u8, 0u8, 0u8, 0u8, 0u8, 1u8, 0u8, 0u8],
        seq![0u8, 0u8, 1u8, 0u8, 0u8, 0u8, 0u8, 0u8, 0u8, 0u8, 0u8, 0u8, 0u8, 0u8, 0u8, 1u8, 0u8, 0u8],
        seq![0u8, 0u8, 1u8, 0u8, 0u8, 0u8, 0u8, 0u8, 0u8, 0u8, 0u8, 0u8, 0u8, 0u8, 0u8, 1u8, 0u8, 0u8],
        seq![0u8, 1u8, 1u8, 1u8, 0u8, 0u8, 0u8, 0u8, 0u8, 0u8, 0u8, 0u8, 0u8, 0u8, 1u8, 1u8, 1u8, 0u8],
        seq![0u8, 1u8, 1u8, 1u8, 1u8, 0u8, 0u8, 0u8, 0u8, 0u8, 0u8, 0u8, 0u8, 1u8, 1u8, 1u8, 1u8, 0u8],
        seq![0u8, 1u8, 1u8, 1u8, 1u8, 0u8, 0u8, 0u8, 0u8, 0u8, 0u8, 0u8, 0u8, 1u8, 1u8, 1u8, 1u8, 0u8],
        seq![0u8, 1u8, 1u8, 1u8, 1u8, 0u8, 0u8, 0u8, 0u8, 0u8, 0u8, 0u8, 0u8, 1u8, 1u8, 1u8, 1u8, 0u8],
        seq![0u8, 1u8, 1u8, 1u8, 1u8, 0u8, 0u8, 0u8, 0u8, 0u8, 0u8, 0u8, 0u8, 1u8, 1u8, 1u8, 1u8, 0u8],
        seq![0u8, 1u8, 1u8, 1u8, 1u8, 0u8, 0u8, 0u8, 0u8, 0u8, 0u8, 0u8, 0u8, 1u8, 1u8, 1u8, 1u8, 0u8],
        seq![0u8, 0u8, 1u8, 1u8, 1u8, 0u8, 0u8, 0u8, 0u8, 0u8, 0u8, 0u8, 0u8, 1u8, 1u8, 1u8, 0u8, 0u8],
        seq![0u8, 0u8, 0u8, 1u8, 0u8, 0u8, 0u8, 0u8, 0u8, 0u8, 0u8, 0u8, 0u8, 0u8, 1u8, 0u8, 0u8, 0u8]
    ]
}

/// Row `y` of the silhouette.
fn bitmap_row(y: usize) -> (row: [u8; 18])
    requires
        y < 18,
    ensures
        row@ == headphone_bitmap()[y as int],
{
    let row: [u8; 18] = if y == 0 { [0, 0, 0, 0, 0, 0, 1, 1, 1, 1, 1, 1, 0, 0, 0, 0, 0, 0] }
    else if y == 1 { [0, 0, 0, 0, 0, 1, 1, 0, 0, 0, 0, 1, 1, 0, 0, 0, 0, 0] }
    else if y == 2 { [0, 0, 0, 0, 1, 1, 0, 0, 0, 0, 0, 0, 1, 1, 0, 0, 0, 0] }
    else if y == 3 { [0, 0, 0, 1, 1, 0, 0, 0, 0, 0, 0, 0, 0, 1, 1, 0, 0, 0] }
    else if y == 4 { [0, 0, 0, 1, 0, 0, 0, 0, 0, 0, 0, 0, 0, 0, 1, 0, 0, 0] }
    else if y == 5 { [0, 0, 1, 1, 0, 0, 0, 0, 0, 0, 0, 0, 0, 0, 1, 1, 0, 0] }
    else if y == 6 { [0, 0, 1, 0, 0, 0, 0, 0, 0, 0, 0, 0, 0, 0, 0, 1, 0, 0] }
    else if y == 7 { [0, 0, 1, 0, 0, 0, 0, 0, 0, 0, 0, 0, 0, 0, 0, 1, 0, 0] }
    else if y == 8 { [0, 0, 1, 0, 0, 0, 0, 0, 0, 0, 0, 0, 0, 0, 0, 1, 0, 0] }
    else if y == 9 { [0, 0, 1, 0, 0, 0, 0, 0, 0, 0, 0, 0, 0, 0, 0, 1, 0, 0] }
    else if y == 10 { [0, 1, 1, 1, 0, 0, 0, 0, 0, 0, 0, 0, 0, 0, 1, 1, 1, 0] }
    else if y == 11 { [0, 1, 1, 1, 1, 0, 0, 0, 0, 0, 0, 0, 0, 1, 1, 1, 1, 0] }
    else if y == 12 { [0, 1, 1, 1, 1, 0, 0, 0, 0, 0, 0, 0, 0, 1, 1, 1, 1, 0] }
    else if y == 13 { [0, 1, 1, 1, 1, 0, 0, 0, 0, 0, 0, 0, 0, 1, 1, 1, 1, 0] }
    else if y == 14 { [0, 1, 1, 1, 1, 0, 0, 0, 0, 0, 0, 0, 0, 1, 1, 1, 1, 0] }
    else if y == 15 { [0, 1, 1, 1, 1, 0, 0, 0, 0, 0, 0, 0, 0, 1, 1, 1, 1, 0] }
    else if y == 16 { [0, 0, 1, 1, 1, 0, 0, 0, 0, 0, 0, 0, 0, 1, 1, 1, 0, 0] }
    else { [0, 0, 0, 1, 0, 0, 0, 0, 0, 0, 0, 0, 0, 0, 1, 0, 0, 0] };
    assert(row@ =~= headphone_bitmap()[y as int]);
    row
}

/// The RGBA bytes of pixel `i` (row-major): opaque black where the
/// silhouette is filled, fully transparent elsewhere.
pub open spec fn pixel_alpha(i: int) -> u8 {
    if headphone_bitmap()[i / 18][i % 18] == 1 { 255u8 } else { 0u8 }
}

/// The icon as 18x18 RGBA pixels, row by row: filled pixels are black with
/// full opacity, the others are transparent.
pub fn headphone_rgba() -> (rgba: Vec<u8>)
    ensures
        rgba@.len() == 18 * 18 * 4,
        forall|i: int| 0 <= i < 18 * 18 ==> {
            &&& #[trigger] rgba@[4 * i] == 0u8
            &&& rgba@[4 * i + 1] == 0u8
            &&& rgba@[4 * i + 2] == 0u8
            &&& rgba@[4 * i + 3] == pixel_alpha(i)
        },
{
    let mut rgba: Vec<u8> = Vec::new();
    let mut y: usize = 0;
    while y < 18
        invariant
            y <= 18,
            rgba@.len() == 72 * y,
            forall|i: int| 0 <= i < 18 * y ==> {
                &&& #[trigger] rgba@[4 * i] == 0u8
                &&& rgba@[4 * i + 1] == 0u8
                &&& rgba@[4 * i + 2] == 0u8
                &&& rgba@[4 * i + 3] == pixel_alpha(i)
            },
        decreases 18 - y,
    {
        let row = bitmap_row(y);
        let mut x: usize = 0;
        while x < 18
            invariant
                y < 18,
                x <= 18,
                row@ == headphone_bitmap()[y as int],
                rgba@.len() == 72 * y + 4 * x,
                forall|i: int| 0 <= i < 18 * y + x ==> {
                    &&& #[trigger] rgba@[4 * i] == 0u8
                    &&& rgba@[4 * i + 1] == 0u8
                    &&& rgba@[4 * i + 2] == 0u8
                    &&& rgba@[4 * i + 3] == pixel_alpha(i)
                },
            decreases 18 - x,
        {
            let alpha: u8 = if row[x] == 1 { 255 } else { 0 };
            let ghost k: int = 18 * y + x;
            let ghost before = rgba@;
            assert(k / 18 == y as int && k % 18 == x as int);
            rgba.push(0);
            rgba.push(0);
            rgba.push(0);
            rgba.push(alpha);
            assert(rgba@ == before + seq![0u8, 0u8, 0u8, alpha]);
            assert(rgba@[4 * k] == 0u8 && rgba@[4 * k + 1] == 0u8 && rgba@[4 * k + 2] == 0u8);
            assert(rgba@[4 * k + 3] == pixel_alpha(k));
            assert forall|i: int| 0 <= i < 18 * y + x + 1 implies {
                &&& #[trigger] rgba@[4 * i] == 0u8
                &&& rgba@[4 * i + 1] == 0u8
                &&& rgba@[4 * i + 2] == 0u8
                &&& rgba@[4 * i + 3] == pixel_alpha(i)
            } by {
                if i < k {
                    assert(rgba@[4 * i] == before[4 * i]);
                    assert(rgba@[4 * i + 1] == before[4 * i + 1]);
                    assert(rgba@[4 * i + 2] == before[4 * i + 2]);
                    assert(rgba@[4 * i + 3] == before[4 * i + 3]);
                }
            }
            x = x + 1;
        }
        y = y + 1;
    }
    rgba
}

} // verus!
