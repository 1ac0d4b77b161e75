use raster_core::color::PremultipliedColorU8;
use raster_core::mipmap::{
    compute_required_levels, downsample_2_2, downsample_2_3, downsample_3_2, downsample_3_3, halve,
    halve_side, level_sizes, Mipmaps,
};
use raster_core::pixmap::{Pixmap, PixmapRef};
use raster_core::scalar::Scalar;

fn gray(v: u8) -> PremultipliedColorU8 {
    PremultipliedColorU8::from_rgba_unchecked(v, v, v, 255)
}

fn px(r: u8, g: u8, b: u8, a: u8) -> PremultipliedColorU8 {
    PremultipliedColorU8::from_rgba_unchecked(r, g, b, a)
}

fn ramp(width: u32, height: u32) -> Vec<PremultipliedColorU8> {
    let mut v = Vec::new();
    for y in 0..height {
        for x in 0..width {
            let r = ((x * 37 + y * 11) % 251) as u8;
            let g = ((x * 5 + y * 97) % 241) as u8;
            let b = ((x * x + y) % 239) as u8;
            v.push(px(r, g, b, 255));
        }
    }
    v
}

fn want(src: &[PremultipliedColorU8], w: usize, x: usize, y: usize, wide: bool, tall: bool)
    -> PremultipliedColorU8 {
    let xs: &[(usize, u16)] = if wide { &[(0, 1), (1, 2), (2, 1)] } else { &[(0, 1), (1, 1)] };
    let ys: &[(usize, u16)] = if tall { &[(0, 1), (1, 2), (2, 1)] } else { &[(0, 1), (1, 1)] };
    let mut sum = [0u16; 4];
    let mut total = 0u16;
    for &(dy, wy) in ys {
        for &(dx, wx) in xs {
            let p = src[(2 * y + dy) * w + 2 * x + dx];
            let weight = wx * wy;
            total += weight;
            sum[0] += weight * p.red() as u16;
            sum[1] += weight * p.green() as u16;
            sum[2] += weight * p.blue() as u16;
            sum[3] += weight * p.alpha() as u16;
        }
    }
    px(
        (sum[0] / total) as u8,
        (sum[1] / total) as u8,
        (sum[2] / total) as u8,
        (sum[3] / total) as u8,
    )
}

#[test]
fn box_filter_takes_the_mean_of_four() {
    let src = vec![gray(10), gray(20), gray(100), gray(200), gray(30), gray(41), gray(0), gray(3)];
    let mut dst = vec![px(9, 9, 9, 9); 4];
    downsample_2_2(&src, 0, 4, &mut dst, 1, 2);
    assert_eq!(dst, vec![px(9, 9, 9, 9), px(9, 9, 9, 9), gray(25), gray(75)]);
    let colors = vec![px(1, 2, 3, 4), px(3, 4, 5, 6), px(5, 6, 7, 8), px(8, 9, 10, 11)];
    let mut out = vec![px(0, 0, 0, 0)];
    downsample_2_2(&colors, 0, 2, &mut out, 0, 1);
    assert_eq!(out, vec![px(4, 5, 6, 7)]);
}

#[test]
fn tall_filter_counts_the_middle_row_twice() {
    let src = vec![gray(8), gray(16), gray(80), gray(40), gray(0), gray(24)];
    let mut dst = vec![gray(1)];
    downsample_2_3(&src, 0, 2, &mut dst, 0, 1);
    assert_eq!(dst, vec![gray(36)]);
}

#[test]
fn wide_filter_counts_the_middle_column_twice() {
    let src = vec![gray(8), gray(80), gray(0), gray(16), gray(40), gray(24)];
    let mut dst = vec![gray(1)];
    downsample_3_2(&src, 0, 3, &mut dst, 0, 1);
    assert_eq!(dst, vec![gray(36)]);
}

#[test]
fn triangle_filter_weighs_nine_pixels() {
    let src = vec![
        gray(16), gray(32), gray(48), gray(64), gray(80), gray(96), gray(112), gray(128), gray(255),
    ];
    let mut dst = vec![gray(1)];
    downsample_3_3(&src, 0, 3, &mut dst, 0, 1);
    let sum = 16 + 2 * 32 + 48 + 2 * 64 + 4 * 80 + 2 * 96 + 112 + 2 * 128 + 255;
    assert_eq!(dst, vec![gray((sum / 16) as u8)]);
    assert_eq!(dst, vec![gray(86)]);
}

#[test]
fn filters_read_the_rows_they_are_given() {
    let src = ramp(7, 9);
    let mut dst = vec![px(0, 0, 0, 0); 3 * 4];
    for dst_y in 0..4 {
        downsample_3_3(&src, 2 * dst_y, 7, &mut dst, dst_y, 3);
    }
    for y in 0..4 {
        for x in 0..3 {
            assert_eq!(dst[y * 3 + x], want(&src, 7, x, y, true, true));
        }
    }
}

#[test]
fn halving_picks_the_filter_by_parity() {
    for (w, h) in [(4u32, 4u32), (4, 5), (5, 4), (5, 5), (2, 2), (3, 3), (2, 7), (9, 2)] {
        let pixels = ramp(w, h);
        let src = PixmapRef::from_pixels(&pixels, w, h).unwrap();
        let dst = halve(src);
        assert_eq!(dst.width(), w / 2);
        assert_eq!(dst.height(), h / 2);
        let out = dst.pixels();
        for y in 0..(h / 2) as usize {
            for x in 0..(w / 2) as usize {
                assert_eq!(
                    out[y * (w / 2) as usize + x],
                    want(&pixels, w as usize, x, y, w % 2 == 1, h % 2 == 1),
                    "{w}x{h} at {x},{y}"
                );
            }
        }
    }
}

#[test]
fn levels_are_built_once_and_kept() {
    let pixels = ramp(20, 12);
    let base = PixmapRef::from_pixels(&pixels, 20, 12).unwrap();
    let mut mipmaps = Mipmaps::new(base);
    assert_eq!(mipmaps.len(), 0);
    assert_eq!(mipmaps.get(0).width(), 20);
    assert_eq!(mipmaps.build(0), 0);
    assert_eq!(mipmaps.build(2), 2);
    assert_eq!(mipmaps.len(), 2);
    assert_eq!((mipmaps.get(1).width(), mipmaps.get(1).height()), (10, 6));
    assert_eq!((mipmaps.get(2).width(), mipmaps.get(2).height()), (5, 3));
    let first: Vec<PremultipliedColorU8> = mipmaps.get(1).pixels().to_vec();
    assert_eq!(first, halve(base).pixels().to_vec());
    assert_eq!(mipmaps.build(1), 2);
    assert_eq!(mipmaps.len(), 2);
    assert_eq!(mipmaps.build(3), 3);
    assert_eq!((mipmaps.get(3).width(), mipmaps.get(3).height()), (2, 1));
    assert_eq!(mipmaps.get(1).pixels().to_vec(), first);
    let level2 = Pixmap::from_vec(mipmaps.get(2).pixels().to_vec(), 5, 3).unwrap();
    assert_eq!(mipmaps.get(3).pixels().to_vec(), halve(level2.as_ref()).pixels().to_vec());
}

#[test]
fn levels_go_on_while_the_scale_stays_small() {
    let pixels = ramp(64, 16);
    let base = PixmapRef::from_pixels(&pixels, 64, 16).unwrap();
    let s = |x: f32, y: f32| (Scalar::from_bits(x.to_bits()), Scalar::from_bits(y.to_bits()));
    assert_eq!(compute_required_levels(base, &vec![]), 0);
    assert_eq!(compute_required_levels(base, &vec![s(0.5, 0.1)]), 0);
    assert_eq!(compute_required_levels(base, &vec![s(0.1, 0.5)]), 0);
    assert_eq!(compute_required_levels(base, &vec![s(0.1, 0.1)]), 1);
    assert_eq!(
        compute_required_levels(base, &vec![s(0.1, 0.1), s(0.2, 0.2), s(0.4, 0.4), s(0.8, 0.8)]),
        3
    );
    let small = vec![s(0.0, 0.0); 10];
    assert_eq!(compute_required_levels(base, &small), 4);
    let one = ramp(1, 40);
    let thin = PixmapRef::from_pixels(&one, 1, 40).unwrap();
    assert_eq!(compute_required_levels(thin, &small), 0);
    assert_eq!(compute_required_levels(base, &vec![s(f32::NAN, 0.1)]), 0);
}

#[test]
fn levels_agree_with_the_search_in_single_precision() {
    for (w, h, scale_x, scale_y) in
        [(64u32, 16u32, 0.1f32, 0.1f32), (100, 100, 0.3, 0.05), (7, 300, 0.01, 0.01), (1000, 999, 0.2, 0.26)]
    {
        let mut required = 0usize;
        let (mut level_w, mut level_h) = (w, h);
        let (mut prescale_x, mut prescale_y) = (1.0f32, 1.0f32);
        let mut scaled = vec![(scale_x * prescale_x, scale_y * prescale_y)];
        while scale_x * prescale_x < 0.5 && level_w > 1 && scale_y * prescale_y < 0.5 && level_h > 1 {
            required += 1;
            level_w = (level_w as f32 / 2.0).floor() as u32;
            level_h = (level_h as f32 / 2.0).floor() as u32;
            prescale_x = w as f32 / level_w as f32;
            prescale_y = h as f32 / level_h as f32;
            scaled.push((scale_x * prescale_x, scale_y * prescale_y));
        }
        let pixels = ramp(w, h);
        let base = PixmapRef::from_pixels(&pixels, w, h).unwrap();
        let scaled: Vec<(Scalar, Scalar)> = scaled
            .into_iter()
            .map(|(x, y)| (Scalar::from_bits(x.to_bits()), Scalar::from_bits(y.to_bits())))
            .collect();
        assert_eq!(compute_required_levels(base, &scaled), required, "{w}x{h}");
    }
}

#[test]
fn sides_halve_down_to_nothing() {
    assert_eq!(halve_side(20, 0), 20);
    assert_eq!(halve_side(20, 1), 10);
    assert_eq!(halve_side(20, 2), 5);
    assert_eq!(halve_side(20, 3), 2);
    assert_eq!(halve_side(20, 4), 1);
    assert_eq!(halve_side(20, 5), 0);
    assert_eq!(halve_side(20, usize::MAX), 0);
    assert_eq!(halve_side(u32::MAX, 31), 1);
    assert_eq!(halve_side(u32::MAX, 32), 0);
    assert_eq!(halve_side(0, 0), 0);
    for side in [1u32, 2, 3, 7, 100, 16_777_216, 16_777_215] {
        assert_eq!(halve_side(side, 1), (side as f32 / 2.0).floor() as u32);
    }
}

#[test]
fn level_sizes_end_at_a_side_of_one_pixel() {
    let size_list = |w: u32, h: u32| {
        let pixels = ramp(w, h);
        level_sizes(PixmapRef::from_pixels(&pixels, w, h).unwrap())
    };
    assert_eq!(size_list(64, 16), vec![(64, 16), (32, 8), (16, 4), (8, 2), (4, 1)]);
    assert_eq!(size_list(1, 40), vec![(1, 40)]);
    assert_eq!(size_list(3, 3), vec![(3, 3), (1, 1)]);
    assert_eq!(size_list(2, 9), vec![(2, 9), (1, 4)]);
    assert_eq!(size_list(1, 1), vec![(1, 1)]);
}

#[test]
fn levels_can_be_built_while_both_sides_last() {
    let pixels = ramp(20, 12);
    let base = PixmapRef::from_pixels(&pixels, 20, 12).unwrap();
    let mut mipmaps = Mipmaps::new(base);
    assert!(mipmaps.can_build(0));
    assert!(mipmaps.can_build(1));
    assert!(mipmaps.can_build(3));
    assert!(!mipmaps.can_build(4));
    assert!(!mipmaps.can_build(usize::MAX));
    assert_eq!(mipmaps.build(3), 3);
    assert!(mipmaps.can_build(3));
    assert!(!mipmaps.can_build(4));
    let one = ramp(1, 1);
    let dot = Mipmaps::new(PixmapRef::from_pixels(&one, 1, 1).unwrap());
    assert!(dot.can_build(0));
    assert!(!dot.can_build(1));
}
