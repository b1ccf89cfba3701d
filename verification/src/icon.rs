//! The indicator bitmap: a deterministic pure function of the three
//! hardware states.
//!
//! The 32 × 32 RGBA image shows three LED bars on a dark background — the
//! left for the camera shutter, the middle for battery conservation, the
//! right for fn-lock — and is regenerated whenever a poll tick reports a
//! change. Turning the bytes into a toolkit icon happens outside.

use vstd::prelude::*;

verus! {

/// The colour of one pixel, four bytes, fully opaque. Rows 12 to 20 carry
/// the three bars: camera at columns 2 to 10 (red when blocked, green when
/// live), battery conservation at 12 to 20 and fn-lock at 22 to 30 (each
/// lit in its own colour, grey when off); everything else is background.
pub open spec fn pixel_rgba(cam: bool, bat: bool, fnl: bool, x: int, y: int) -> Seq<u8> {
    if 12 <= y && y <= 20 && 2 <= x && x <= 10 {
        if cam {
            seq![255u8, 80u8, 80u8, 255u8]
        } else {
            seq![80u8, 255u8, 80u8, 255u8]
        }
    } else if 12 <= y && y <= 20 && 12 <= x && x <= 20 {
        if bat {
            seq![50u8, 200u8, 100u8, 255u8]
        } else {
            seq![100u8, 100u8, 100u8, 255u8]
        }
    } else if 12 <= y && y <= 20 && 22 <= x && x <= 30 {
        if fnl {
            seq![50u8, 200u8, 255u8, 255u8]
        } else {
            seq![100u8, 100u8, 100u8, 255u8]
        }
    } else {
        seq![40u8, 40u8, 40u8, 255u8]
    }
}

/// The whole indicator bitmap, row by row, four bytes per pixel: every
/// aligned four-byte window is the colour `pixel_rgba` gives its pixel.
pub fn icon_rgba(cam: bool, bat: bool, fnl: bool) -> (r: Vec<u8>)
    ensures
        r@.len() == 4096,
        forall|x: int, y: int|
            0 <= x < 32 && 0 <= y < 32 ==> r@.subrange(4 * (32 * y + x), 4 * (32 * y + x) + 4)
                == pixel_rgba(cam, bat, fnl, x, y),
{
    let mut rgba: Vec<u8> = Vec::new();
    let mut y: usize = 0;
    while y < 32
        invariant
            y <= 32,
            rgba@.len() == 128 * y,
            forall|xx: int, yy: int|
                0 <= xx < 32 && 0 <= yy < y ==> rgba@.subrange(
                    4 * (32 * yy + xx),
                    4 * (32 * yy + xx) + 4,
                ) == pixel_rgba(cam, bat, fnl, xx, yy),
        decreases 32 - y,
    {
        let mut x: usize = 0;
        while x < 32
            invariant
                y < 32,
                x <= 32,
                rgba@.len() == 128 * y + 4 * x,
                forall|xx: int, yy: int|
                    0 <= xx < 32 && 0 <= yy < y ==> rgba@.subrange(
                        4 * (32 * yy + xx),
                        4 * (32 * yy + xx) + 4,
                    ) == pixel_rgba(cam, bat, fnl, xx, yy),
                forall|xx: int|
                    0 <= xx < x ==> rgba@.subrange(4 * (32 * y + xx), 4 * (32 * y + xx) + 4)
                        == pixel_rgba(cam, bat, fnl, xx, y as int),
            decreases 32 - x,
        {
            let ghost prev = rgba@;
            let rgb: (u8, u8, u8) = if y >= 12 && y <= 20 && x >= 2 && x <= 10 {
                if cam {
                    (255, 80, 80)
                } else {
                    (80, 255, 80)
                }
            } else if y >= 12 && y <= 20 && x >= 12 && x <= 20 {
                if bat {
                    (50, 200, 100)
                } else {
                    (100, 100, 100)
                }
            } else if y >= 12 && y <= 20 && x >= 22 && x <= 30 {
                if fnl {
                    (50, 200, 255)
                } else {
                    (100, 100, 100)
                }
            } else {
                (40, 40, 40)
            };
            rgba.push(rgb.0);
            rgba.push(rgb.1);
            rgba.push(rgb.2);
            rgba.push(255);
            proof {
                let xi = x as int;
                let yi = y as int;
                assert(rgba@ =~= prev + seq![rgb.0, rgb.1, rgb.2, 255u8]);
                assert(rgba@.subrange(4 * (32 * yi + xi), 4 * (32 * yi + xi) + 4) =~= pixel_rgba(
                    cam,
                    bat,
                    fnl,
                    xi,
                    yi,
                ));
                assert forall|xx: int, yy: int|
                    0 <= xx < 32 && 0 <= yy < yi implies rgba@.subrange(
                    4 * (32 * yy + xx),
                    4 * (32 * yy + xx) + 4,
                ) == pixel_rgba(cam, bat, fnl, xx, yy) by {
                    assert(rgba@.subrange(4 * (32 * yy + xx), 4 * (32 * yy + xx) + 4)
                        =~= prev.subrange(4 * (32 * yy + xx), 4 * (32 * yy + xx) + 4));
                }
                assert forall|xx: int| 0 <= xx < xi implies rgba@.subrange(
                    4 * (32 * yi + xx),
                    4 * (32 * yi + xx) + 4,
                ) == pixel_rgba(cam, bat, fnl, xx, yi) by {
                    assert(rgba@.subrange(4 * (32 * yi + xx), 4 * (32 * yi + xx) + 4)
                        =~= prev.subrange(4 * (32 * yi + xx), 4 * (32 * yi + xx) + 4));
                }
            }
            x += 1;
        }
        y += 1;
    }
    rgba
}

} // verus!
