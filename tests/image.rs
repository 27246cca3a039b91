use productiondeck::image::{
    apply_transformations, flip_horizontal, flip_vertical, rgb888_to_rgb565, rotate_270,
};

fn numbered(w: usize, h: usize) -> Vec<u8> {
    (0..w * h * 3).map(|i| (i % 251) as u8).collect()
}

#[test]
fn rgb565_pure_red_is_f800() {
    assert_eq!(rgb888_to_rgb565(&[0xFF, 0x00, 0x00]), vec![0xF8, 0x00]);
}

#[test]
fn rgb565_packs_each_channel() {
    assert_eq!(rgb888_to_rgb565(&[0x00, 0xFF, 0x00]), vec![0x07, 0xE0]);
    assert_eq!(rgb888_to_rgb565(&[0x00, 0x00, 0xFF]), vec![0x00, 0x1F]);
    assert_eq!(rgb888_to_rgb565(&[0xFF, 0xFF, 0xFF, 0x12, 0x34, 0x56]), vec![0xFF, 0xFF, 0x11, 0xAA]);
}

#[test]
fn rgb565_ignores_partial_pixel() {
    assert_eq!(rgb888_to_rgb565(&[0xFF, 0x00, 0x00, 0x01, 0x02]), vec![0xF8, 0x00]);
    assert!(rgb888_to_rgb565(&[]).is_empty());
}

#[test]
fn rotate_270_moves_pixels() {
    // 2 wide, 1 high: pixels A B become a column B over A? new[y][x] = old[x][w-1-y]
    let img = vec![1, 1, 1, 2, 2, 2];
    assert_eq!(rotate_270(&img, 2, 1), vec![2, 2, 2, 1, 1, 1]);
    // 2x2: [a b; c d] -> [b d; a c]
    let img = vec![1, 1, 1, 2, 2, 2, 3, 3, 3, 4, 4, 4];
    assert_eq!(rotate_270(&img, 2, 2), vec![2, 2, 2, 4, 4, 4, 1, 1, 1, 3, 3, 3]);
}

#[test]
fn rotate_270_four_times_is_identity() {
    for (w, h) in [(1, 1), (3, 2), (4, 7), (80, 80)] {
        let img = numbered(w, h);
        let r = rotate_270(&rotate_270(&rotate_270(&rotate_270(&img, w, h), h, w), w, h), h, w);
        assert_eq!(r, img);
    }
}

#[test]
fn flips_mirror_axes() {
    let img = vec![1, 1, 1, 2, 2, 2, 3, 3, 3, 4, 4, 4];
    assert_eq!(flip_horizontal(&img, 2, 2), vec![2, 2, 2, 1, 1, 1, 4, 4, 4, 3, 3, 3]);
    assert_eq!(flip_vertical(&img, 2, 2), vec![3, 3, 3, 4, 4, 4, 1, 1, 1, 2, 2, 2]);
    let img = numbered(5, 3);
    assert_eq!(flip_horizontal(&flip_horizontal(&img, 5, 3), 5, 3), img);
    assert_eq!(flip_vertical(&flip_vertical(&img, 5, 3), 5, 3), img);
}

#[test]
fn short_input_drops_missing_pixels() {
    let img = vec![1, 1, 1, 2, 2, 2, 3, 3, 3];
    assert_eq!(flip_horizontal(&img, 2, 2), vec![2, 2, 2, 1, 1, 1, 3, 3, 3]);
    assert!(rotate_270(&[], 3, 3).is_empty());
}

#[test]
fn transformations_apply_in_order() {
    let img = vec![1, 1, 1, 2, 2, 2, 3, 3, 3, 4, 4, 4];
    assert_eq!(apply_transformations(&img, 2, 2, false, false, false), img);
    assert_eq!(apply_transformations(&img, 2, 2, true, false, false), rotate_270(&img, 2, 2));
    let both = apply_transformations(&img, 2, 2, false, true, true);
    assert_eq!(both, vec![4, 4, 4, 3, 3, 3, 2, 2, 2, 1, 1, 1]);
    let all = apply_transformations(&img, 2, 2, true, true, false);
    assert_eq!(all, flip_horizontal(&rotate_270(&img, 2, 2), 2, 2));
    assert_eq!(all, vec![4, 4, 4, 2, 2, 2, 3, 3, 3, 1, 1, 1]);
}
