//! Procedurally drawn tray icons (32 x 32 pixels, four bytes per pixel in
//! A, R, G, B order), so that no image files are needed: a clock face while
//! idle and an hourglass while a timer runs.
//!
//! Pixel `(x, y)` covers the square whose centre lies at `(x + 0.5, y + 0.5)`;
//! the geometry below is stated in doubled coordinates, where that centre is
//! `(2x + 1, 2y + 1)`, so that every test is exact integer arithmetic.
use vstd::prelude::*;

verus! {

/// Width and height of an icon, in pixels.
pub const SIZE: i32 = 32;

/// Number of bytes of an icon's pixel data.
pub const DATA_LEN: usize = 4096;

/// Clock face.
pub const FACE: [u8; 4] = [255, 84, 110, 122];

/// Rim of the clock face.
pub const RIM: [u8; 4] = [255, 38, 50, 56];

/// Clock hands.
pub const HAND: [u8; 4] = [255, 236, 239, 241];

/// Sand in the hourglass.
pub const GLASS: [u8; 4] = [255, 255, 152, 0];

/// Top and bottom bars of the hourglass.
pub const FRAME: [u8; 4] = [255, 66, 66, 66];

/// An ARGB32 image: `width` by `height` pixels, row by row.
pub struct Icon {
    pub width: i32,
    pub height: i32,
    pub data: Vec<u8>,
}

/// A fully transparent pixel.
pub open spec fn clear() -> Seq<u8> {
    seq![0u8, 0u8, 0u8, 0u8]
}

/// `(x, y)` lies on the canvas.
pub open spec fn in_canvas(x: int, y: int) -> bool {
    0 <= x < 32 && 0 <= y < 32
}

/// Column of the pixel that byte `i` belongs to.
pub open spec fn column_of(i: int) -> int {
    (i / 4) % 32
}

/// Row of the pixel that byte `i` belongs to.
pub open spec fn row_of(i: int) -> int {
    (i / 4) / 32
}

/// `data` with the four bytes of pixel `(x, y)` replaced by `argb`; unchanged
/// when `(x, y)` lies off the canvas.
pub open spec fn painted(data: Seq<u8>, x: int, y: int, argb: Seq<u8>) -> Seq<u8> {
    if in_canvas(x, y) {
        Seq::new(data.len(), |i: int| if i / 4 == y * 32 + x { argb[i % 4] } else { data[i] })
    } else {
        data
    }
}

/// The pixel data of a whole icon whose pixel `(x, y)` has colour `color(x, y)`.
pub open spec fn picture(color: spec_fn(int, int) -> Seq<u8>) -> Seq<u8> {
    Seq::new(4096, |i: int| color(column_of(i), row_of(i))[i % 4])
}

/// Squared distance from the centre of pixel `(x, y)` to the centre of the
/// canvas, in doubled coordinates (four times the true squared distance).
pub open spec fn dist_sq2(x: int, y: int) -> int {
    (2 * x - 31) * (2 * x - 31) + (2 * y - 31) * (2 * y - 31)
}

/// The pixel's centre lies within the clock face, radius 14: `4·d² <= 28²`.
pub open spec fn on_face(x: int, y: int) -> bool {
    dist_sq2(x, y) <= 784
}

/// The pixel's centre lies at least 12.4 from the centre, on the rim:
/// `4·d² >= (2 · 12.4)²`, that is `25 · 4·d² >= 15376`.
pub open spec fn on_rim(x: int, y: int) -> bool {
    25 * dist_sq2(x, y) >= 15376
}

/// The hands point to 12 (column 16, rows 7 to 16) and to 3 (row 16,
/// columns 16 to 21).
pub open spec fn on_hands(x: int, y: int) -> bool {
    (x == 16 && 7 <= y <= 16) || (y == 16 && 16 <= x <= 21)
}

/// Colour of pixel `(x, y)` in the idle icon.
pub open spec fn idle_color(x: int, y: int) -> Seq<u8> {
    if on_hands(x, y) {
        HAND@
    } else if on_face(x, y) {
        if on_rim(x, y) {
            RIM@
        } else {
            FACE@
        }
    } else {
        clear()
    }
}

/// Absolute value.
pub open spec fn abs(v: int) -> int {
    if v < 0 {
        -v
    } else {
        v
    }
}

/// Rows 0 to 7 and 24 to 31 hold the bars of the hourglass.
pub open spec fn bar_row(y: int) -> bool {
    y <= 7 || y >= 24
}

/// Colour of pixel `(x, y)` in the running icon: the bars span columns 6 to
/// 25; between them the glass is as wide on each side of the middle as the
/// row lies away from the waist.
pub open spec fn running_color(x: int, y: int) -> Seq<u8> {
    if bar_row(y) {
        if 6 <= x <= 25 {
            FRAME@
        } else {
            clear()
        }
    } else if abs(2 * x - 31) <= abs(2 * y - 31) {
        GLASS@
    } else {
        clear()
    }
}

/// The whole idle icon.
pub open spec fn idle_picture() -> Seq<u8> {
    picture(|x: int, y: int| idle_color(x, y))
}

/// The whole running icon.
pub open spec fn running_picture() -> Seq<u8> {
    picture(|x: int, y: int| running_color(x, y))
}

/// Pixel data of a fully transparent icon.
pub fn blank_argb() -> (data: Vec<u8>)
    ensures
        data@ == Seq::new(4096, |i: int| 0u8),
{
    let data = vec![0u8; DATA_LEN];
    assert(data@ =~= Seq::new(4096, |i: int| 0u8));
    data
}

/// Paints pixel `(x, y)` with `argb`; does nothing when the pixel lies off
/// the canvas.
pub fn set_pixel(data: &mut [u8], x: i32, y: i32, argb: [u8; 4])
    requires
        in_canvas(x as int, y as int) ==> (y * 32 + x) * 4 + 4 <= old(data)@.len(),
    ensures
        final(data)@ == painted(old(data)@, x as int, y as int, argb@),
{
    if x < 0 || y < 0 || x >= SIZE || y >= SIZE {
        return ;
    }
    let idx = ((y * SIZE + x) * 4) as usize;
    data[idx] = argb[0];
    data[idx + 1] = argb[1];
    data[idx + 2] = argb[2];
    data[idx + 3] = argb[3];
    assert(data@ =~= painted(old(data)@, x as int, y as int, argb@));
}

/// Colour that the first pass of the idle icon gives pixel `(x, y)`: the
/// face with its rim, before the hands are drawn.
pub open spec fn disk_color(x: int, y: int) -> Seq<u8> {
    if on_face(x, y) {
        if on_rim(x, y) {
            RIM@
        } else {
            FACE@
        }
    } else {
        clear()
    }
}

/// The idle icon once the first `up` pixels of the hand to 12 (drawn upwards
/// from the centre) and the first `right` pixels of the hand to 3 (drawn
/// rightwards) are painted.
pub open spec fn idle_stage(x: int, y: int, up: int, right: int) -> Seq<u8> {
    if (x == 16 && 16 - up < y <= 16) || (y == 16 && 16 <= x < 16 + right) {
        HAND@
    } else {
        disk_color(x, y)
    }
}

/// Byte `i` lies in pixel `(x, y)`.
proof fn lemma_byte_in_pixel(i: int, x: int, y: int)
    requires
        0 <= i,
        0 <= x < 32,
        0 <= y < 32,
        i / 4 == y * 32 + x,
    ensures
        column_of(i) == x,
        row_of(i) == y,
{
}

/// The idle icon: a clock face with a darker rim and two hands, on a
/// transparent background.
pub fn idle_icon() -> (icon: Icon)
    ensures
        icon.width == 32,
        icon.height == 32,
        icon.data@ == idle_picture(),
{
    let mut data = blank_argb();
    let center: i32 = SIZE / 2;
    let radius: i32 = center - 2;
    // In doubled coordinates the face reaches out to `2 * radius`, and the
    // rim starts at `2 * (radius - 1.6)`; five times that is `rim_start5`.
    let face_reach: i32 = 2 * radius;
    let rim_start5: i32 = 10 * radius - 16;
    let mut y: i32 = 0;
    while y < SIZE
        invariant
            center == 16,
            face_reach == 28,
            rim_start5 == 124,
            0 <= y <= 32,
            data@.len() == 4096,
            forall|i: int|
                0 <= i < 4096 ==> #[trigger] data@[i] == (if i / 4 < 32 * y {
                    disk_color(column_of(i), row_of(i))[i % 4]
                } else {
                    0u8
                }),
        decreases 32 - y,
    {
        let mut x: i32 = 0;
        while x < SIZE
            invariant
                face_reach == 28,
                rim_start5 == 124,
                0 <= y < 32,
                0 <= x <= 32,
                data@.len() == 4096,
                forall|i: int|
                    0 <= i < 4096 ==> #[trigger] data@[i] == (if i / 4 < 32 * y + x {
                        disk_color(column_of(i), row_of(i))[i % 4]
                    } else {
                        0u8
                    }),
            decreases 32 - x,
        {
            let ghost before = data@;
            let dx: i32 = 2 * x - 31;
            let dy: i32 = 2 * y - 31;
            assert(0 <= dx * dx <= 961 && 0 <= dy * dy <= 961) by (nonlinear_arith)
                requires
                    -31 <= dx <= 31,
                    -31 <= dy <= 31,
            ;
            let q: i32 = dx * dx + dy * dy;
            assert(q == dist_sq2(x as int, y as int));
            if q <= face_reach * face_reach {
                let color = if 25 * q >= rim_start5 * rim_start5 {
                    RIM
                } else {
                    FACE
                };
                assert(color@ == disk_color(x as int, y as int));
                set_pixel(data.as_mut_slice(), x, y, color);
            }
            assert forall|i: int| 0 <= i < 4096 implies #[trigger] data@[i] == (if i / 4 < 32 * y + x
                + 1 {
                disk_color(column_of(i), row_of(i))[i % 4]
            } else {
                0u8
            }) by {
                if i / 4 == 32 * y + x {
                    lemma_byte_in_pixel(i, x as int, y as int);
                    if !on_face(x as int, y as int) {
                        assert(before[i] == 0u8);
                        assert(clear()[i % 4] == 0u8);
                    }
                }
            }
            x = x + 1;
        }
        y = y + 1;
    }
    assert forall|i: int| 0 <= i < 4096 implies #[trigger] data@[i] == idle_stage(
        column_of(i),
        row_of(i),
        0,
        0,
    )[i % 4] by {}
    let mut k: i32 = 0;
    while k < radius - 4
        invariant
            center == 16,
            radius == 14,
            0 <= k <= 10,
            data@.len() == 4096,
            forall|i: int|
                0 <= i < 4096 ==> #[trigger] data@[i] == idle_stage(
                    column_of(i),
                    row_of(i),
                    k as int,
                    0,
                )[i % 4],
        decreases 10 - k,
    {
        set_pixel(data.as_mut_slice(), center, center - k, HAND);
        assert forall|i: int| 0 <= i < 4096 implies #[trigger] data@[i] == idle_stage(
            column_of(i),
            row_of(i),
            k + 1,
            0,
        )[i % 4] by {
            if i / 4 == 32 * (16 - k) + 16 {
                lemma_byte_in_pixel(i, 16, 16 - k);
            }
        }
        k = k + 1;
    }
    let mut k: i32 = 0;
    while k < (radius - 4) * 6 / 10
        invariant
            center == 16,
            radius == 14,
            0 <= k <= 6,
            data@.len() == 4096,
            forall|i: int|
                0 <= i < 4096 ==> #[trigger] data@[i] == idle_stage(
                    column_of(i),
                    row_of(i),
                    10,
                    k as int,
                )[i % 4],
        decreases 6 - k,
    {
        set_pixel(data.as_mut_slice(), center + k, center, HAND);
        assert forall|i: int| 0 <= i < 4096 implies #[trigger] data@[i] == idle_stage(
            column_of(i),
            row_of(i),
            10,
            k + 1,
        )[i % 4] by {
            if i / 4 == 32 * 16 + 16 + k {
                lemma_byte_in_pixel(i, 16 + k, 16);
            }
        }
        k = k + 1;
    }
    assert(data@ =~= idle_picture());
    Icon { width: SIZE, height: SIZE, data }
}

/// The running icon: an hourglass, wide at the top and bottom and pinched to
/// a thin waist in the middle, between two bars.
pub fn running_icon() -> (icon: Icon)
    ensures
        icon.width == 32,
        icon.height == 32,
        icon.data@ == running_picture(),
{
    let mut data = blank_argb();
    let margin: i32 = 6;
    let top: i32 = margin;
    let bottom: i32 = SIZE - margin;
    let left: i32 = margin;
    let right: i32 = SIZE - margin;
    let mid: i32 = SIZE / 2;
    // Half the width of the bars, and the height of each half of the glass;
    // the two are equal, so the scaled fraction of the height is the
    // distance from the waist itself.
    let max_half: i32 = (right - left) / 2;
    let half_range: i32 = mid - top;
    let mut y: i32 = 0;
    while y < SIZE
        invariant
            top == 6,
            bottom == 26,
            left == 6,
            right == 26,
            mid == 16,
            max_half == 10,
            half_range == 10,
            0 <= y <= 32,
            data@.len() == 4096,
            forall|i: int|
                0 <= i < 4096 ==> #[trigger] data@[i] == (if i / 4 < 32 * y {
                    running_color(column_of(i), row_of(i))[i % 4]
                } else {
                    0u8
                }),
        decreases 32 - y,
    {
        // Twice the row's centre, `2 * (y + 0.5)`.
        let yf2: i32 = 2 * y + 1;
        if yf2 <= 2 * top + 3 || yf2 >= 2 * bottom - 3 {
            let mut x: i32 = 0;
            while x < SIZE
                invariant
                    left == 6,
                    right == 26,
                    0 <= y < 32,
                    bar_row(y as int),
                    0 <= x <= 32,
                    data@.len() == 4096,
                    forall|i: int|
                        0 <= i < 4096 ==> #[trigger] data@[i] == (if i / 4 < 32 * y + x {
                            running_color(column_of(i), row_of(i))[i % 4]
                        } else {
                            0u8
                        }),
                decreases 32 - x,
            {
                let ghost before = data@;
                let xf2: i32 = 2 * x + 1;
                if xf2 >= 2 * left && xf2 <= 2 * right {
                    set_pixel(data.as_mut_slice(), x, y, FRAME);
                }
                assert forall|i: int| 0 <= i < 4096 implies #[trigger] data@[i] == (if i / 4 < 32
                    * y + x + 1 {
                    running_color(column_of(i), row_of(i))[i % 4]
                } else {
                    0u8
                }) by {
                    if i / 4 == 32 * y + x {
                        lemma_byte_in_pixel(i, x as int, y as int);
                        if !(6 <= x <= 25) {
                            assert(before[i] == 0u8);
                            assert(clear()[i % 4] == 0u8);
                        }
                    }
                }
                x = x + 1;
            }
        } else {
            let from_waist: i32 = if yf2 >= 2 * mid {
                yf2 - 2 * mid
            } else {
                2 * mid - yf2
            };
            let clamped: i32 = if from_waist > 2 * half_range {
                2 * half_range
            } else {
                from_waist
            };
            let scaled: i32 = clamped * max_half / half_range;
            let half_width: i32 = if scaled < 2 {
                2
            } else {
                scaled
            };
            assert(half_width == if abs(2 * y - 31) < 2 {
                2
            } else {
                abs(2 * y - 31)
            });
            let mut x: i32 = 0;
            while x < SIZE
                invariant
                    mid == 16,
                    half_width == if abs(2 * y - 31) < 2 {
                        2
                    } else {
                        abs(2 * y - 31)
                    },
                    0 <= y < 32,
                    !bar_row(y as int),
                    0 <= x <= 32,
                    data@.len() == 4096,
                    forall|i: int|
                        0 <= i < 4096 ==> #[trigger] data@[i] == (if i / 4 < 32 * y + x {
                            running_color(column_of(i), row_of(i))[i % 4]
                        } else {
                            0u8
                        }),
                decreases 32 - x,
            {
                let ghost before = data@;
                let xf2: i32 = 2 * x + 1;
                let off: i32 = if xf2 >= 2 * mid {
                    xf2 - 2 * mid
                } else {
                    2 * mid - xf2
                };
                if off <= half_width {
                    set_pixel(data.as_mut_slice(), x, y, GLASS);
                }
                assert forall|i: int| 0 <= i < 4096 implies #[trigger] data@[i] == (if i / 4 < 32
                    * y + x + 1 {
                    running_color(column_of(i), row_of(i))[i % 4]
                } else {
                    0u8
                }) by {
                    if i / 4 == 32 * y + x {
                        lemma_byte_in_pixel(i, x as int, y as int);
                        if off > half_width {
                            assert(before[i] == 0u8);
                            assert(clear()[i % 4] == 0u8);
                        }
                    }
                }
                x = x + 1;
            }
        }
        y = y + 1;
    }
    assert(data@ =~= running_picture());
    Icon { width: SIZE, height: SIZE, data }
}

} // verus!
