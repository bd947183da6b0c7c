use tempo_shortcut::icons::{
    blank_argb, idle_icon, running_icon, set_pixel, FACE, FRAME, GLASS, HAND, RIM,
};

const SIZE: i32 = 32;

fn put(data: &mut [u8], x: i32, y: i32, argb: [u8; 4]) {
    if x < 0 || y < 0 || x >= SIZE || y >= SIZE {
        return;
    }
    let idx = ((y * SIZE + x) * 4) as usize;
    data[idx..idx + 4].copy_from_slice(&argb);
}

/// The clock face drawn with floating-point geometry.
fn idle_with_floats() -> Vec<u8> {
    let mut data = vec![0u8; (SIZE * SIZE * 4) as usize];
    let center = SIZE as f64 / 2.0;
    let radius = center - 2.0;
    for y in 0..SIZE {
        for x in 0..SIZE {
            let dx = x as f64 + 0.5 - center;
            let dy = y as f64 + 0.5 - center;
            let dist = (dx * dx + dy * dy).sqrt();
            if dist <= radius {
                put(&mut data, x, y, if dist >= radius - 1.6 { RIM } else { FACE });
            }
        }
    }
    let c = center as i32;
    for i in 0..(radius as i32 - 4) {
        put(&mut data, c, c - i, HAND);
    }
    for i in 0..((radius as i32 - 4) * 6 / 10) {
        put(&mut data, c + i, c, HAND);
    }
    data
}

/// The hourglass drawn with floating-point geometry.
fn running_with_floats() -> Vec<u8> {
    let mut data = vec![0u8; (SIZE * SIZE * 4) as usize];
    let margin = 6.0;
    let top = margin;
    let bottom = SIZE as f64 - margin;
    let left = margin;
    let right = SIZE as f64 - margin;
    let mid = SIZE as f64 / 2.0;
    let max_half = (right - left) / 2.0;
    let half_range = mid - top;
    for y in 0..SIZE {
        let yf = y as f64 + 0.5;
        if yf <= top + 1.5 || yf >= bottom - 1.5 {
            for x in 0..SIZE {
                let xf = x as f64 + 0.5;
                if xf >= left && xf <= right {
                    put(&mut data, x, y, FRAME);
                }
            }
            continue;
        }
        let frac = ((yf - mid).abs() / half_range).clamp(0.0, 1.0);
        let half_width = 1.0f64.max(frac * max_half);
        for x in 0..SIZE {
            let xf = x as f64 + 0.5;
            if (xf - mid).abs() <= half_width {
                put(&mut data, x, y, GLASS);
            }
        }
    }
    data
}

fn pixel(data: &[u8], x: usize, y: usize) -> [u8; 4] {
    let i = (y * 32 + x) * 4;
    [data[i], data[i + 1], data[i + 2], data[i + 3]]
}

#[test]
fn blank_icon_is_transparent() {
    let data = blank_argb();
    assert_eq!(data.len(), 4096);
    assert!(data.iter().all(|b| *b == 0));
}

#[test]
fn set_pixel_paints_four_bytes() {
    let mut data = blank_argb();
    set_pixel(&mut data, 3, 2, [1, 2, 3, 4]);
    let i = (2 * 32 + 3) * 4;
    assert_eq!(&data[i..i + 4], &[1, 2, 3, 4]);
    assert_eq!(data.iter().filter(|b| **b != 0).count(), 4);
}

#[test]
fn set_pixel_off_canvas_changes_nothing() {
    let mut data = blank_argb();
    set_pixel(&mut data, -1, 0, [9, 9, 9, 9]);
    set_pixel(&mut data, 0, -1, [9, 9, 9, 9]);
    set_pixel(&mut data, 32, 0, [9, 9, 9, 9]);
    set_pixel(&mut data, 0, 32, [9, 9, 9, 9]);
    assert!(data.iter().all(|b| *b == 0));
}

#[test]
fn set_pixel_off_canvas_on_short_data() {
    let mut data = vec![0u8; 4];
    set_pixel(&mut data, 40, 40, [9, 9, 9, 9]);
    assert_eq!(data, vec![0u8; 4]);
}

#[test]
fn idle_icon_matches_float_geometry() {
    let icon = idle_icon();
    assert_eq!(icon.width, 32);
    assert_eq!(icon.height, 32);
    assert_eq!(icon.data, idle_with_floats());
}

#[test]
fn running_icon_matches_float_geometry() {
    let icon = running_icon();
    assert_eq!(icon.width, 32);
    assert_eq!(icon.height, 32);
    assert_eq!(icon.data, running_with_floats());
}

#[test]
fn idle_icon_pixels() {
    let data = idle_icon().data;
    // corners are outside the face
    assert_eq!(pixel(&data, 0, 0), [0, 0, 0, 0]);
    // the hands
    assert_eq!(pixel(&data, 16, 7), HAND);
    assert_eq!(pixel(&data, 16, 16), HAND);
    assert_eq!(pixel(&data, 21, 16), HAND);
    assert_eq!(pixel(&data, 22, 16), FACE);
    assert_eq!(pixel(&data, 16, 6), FACE);
    // rim near the edge, face inside
    assert_eq!(pixel(&data, 16, 2), RIM);
    assert_eq!(pixel(&data, 10, 10), FACE);
    assert_eq!(pixel(&data, 16, 1), [0, 0, 0, 0]);
}

#[test]
fn running_icon_pixels() {
    let data = running_icon().data;
    assert_eq!(pixel(&data, 6, 0), FRAME);
    assert_eq!(pixel(&data, 25, 31), FRAME);
    assert_eq!(pixel(&data, 5, 0), [0, 0, 0, 0]);
    assert_eq!(pixel(&data, 26, 7), [0, 0, 0, 0]);
    // the waist is two pixels wide
    assert_eq!(pixel(&data, 15, 15), GLASS);
    assert_eq!(pixel(&data, 16, 16), GLASS);
    assert_eq!(pixel(&data, 14, 15), [0, 0, 0, 0]);
    // rows 8 and 23 are sixteen pixels wide
    assert_eq!(pixel(&data, 8, 8), GLASS);
    assert_eq!(pixel(&data, 23, 23), GLASS);
    assert_eq!(pixel(&data, 7, 8), [0, 0, 0, 0]);
}
