use std::time::Duration;

use leftwm_display_servers::cursor::{
    copy_image, cursor_size, cursor_theme_name, find_cached_image, frame, images_equal, nearest_images, nearest_index,
    Cursor, CursorImage,
};

fn img(size: u32, w: u32, h: u32, delay: u32, tag: u8) -> CursorImage {
    CursorImage {
        size,
        width: w,
        height: h,
        xhot: 0,
        yhot: 0,
        delay,
        pixels_rgba: vec![tag],
        pixels_argb: vec![tag],
    }
}

fn theme() -> Vec<CursorImage> {
    vec![
        img(24, 24, 24, 100, 1),
        img(48, 48, 48, 50, 2),
        img(24, 24, 24, 200, 3),
        img(32, 32, 32, 10, 4),
    ]
}

#[test]
fn nearest_image_is_the_first_closest() {
    let t = theme();
    assert_eq!(nearest_index(24, &t), 0);
    // 40 is as far from 48 as from 32: the first of them wins.
    assert_eq!(nearest_index(40, &t), 1);
    assert_eq!(nearest_index(47, &t), 1);
    assert_eq!(nearest_index(36, &t), 3);
    // 36 is as far from 24 as from 48: the first of them wins.
    assert_eq!(nearest_index(36, &t[..2]), 0);
    assert_eq!(nearest_images(24, &t), vec![0, 2]);
    assert_eq!(nearest_images(100, &t), vec![1]);
}

#[test]
fn animation_frames_follow_delays() {
    let t = theme();
    assert_eq!(frame(0, 24, &t).pixels_rgba, vec![1]);
    assert_eq!(frame(99, 24, &t).pixels_rgba, vec![1]);
    assert_eq!(frame(100, 24, &t).pixels_rgba, vec![3]);
    assert_eq!(frame(299, 24, &t).pixels_rgba, vec![3]);
    // The animation loops every 300 ms.
    assert_eq!(frame(300, 24, &t).pixels_rgba, vec![1]);
    for ms in [7u32, 150, 299] {
        assert_eq!(frame(ms, 24, &t).pixels_rgba, frame(ms + 3 * 300, 24, &t).pixels_rgba);
    }
}

#[test]
fn copies_are_equal() {
    let a = img(1, 2, 3, 4, 5);
    let b = copy_image(&a);
    assert_eq!((b.size, b.width, b.height, b.delay), (1, 2, 3, 4));
    assert_eq!(b.pixels_rgba, vec![5]);
}

#[test]
fn cursor_loads_theme_or_fallback() {
    let c = Cursor::load(Some(theme()), None, vec![]);
    // Default size 24, scale 2 asks for 48.
    assert_eq!(c.get_image(2, 0).pixels_rgba, vec![2]);
    assert_eq!(c.get_image(1, 120).pixels_rgba, vec![3]);
    // The time counts modulo 2^32 milliseconds.
    assert_eq!(c.get_image(1, (1u128 << 32) + 120).pixels_rgba, vec![3]);
    assert_eq!(c.get_image(1, Duration::from_millis(350).as_millis()).pixels_rgba, vec![1]);
    let f = Cursor::load(None, Some(16), vec![9, 9]);
    let i = f.get_image(1, 12345);
    assert_eq!((i.size, i.width, i.height, i.xhot, i.yhot, i.delay), (32, 64, 64, 1, 1, 1));
    assert_eq!(i.pixels_rgba, vec![9, 9]);
    assert!(i.pixels_argb.is_empty());
}

#[test]
fn uploaded_images_are_found_again() {
    let cache = theme();
    assert!(images_equal(&cache[0], &img(24, 24, 24, 100, 1)));
    assert!(!images_equal(&cache[0], &img(24, 24, 24, 100, 7)));
    assert_eq!(find_cached_image(&cache, &img(24, 24, 24, 200, 3)), Some(2));
    assert_eq!(find_cached_image(&cache, &img(24, 24, 24, 200, 9)), None);
    let mut twice = theme();
    twice.push(img(24, 24, 24, 100, 1));
    assert_eq!(find_cached_image(&twice, &img(24, 24, 24, 100, 1)), Some(0));
}

fn le(v: u32) -> [u8; 4] {
    v.to_le_bytes()
}

fn one_image_file() -> Vec<u8> {
    let mut f = Vec::new();
    f.extend_from_slice(b"Xcur");
    for v in [16, 0x1_0000, 1, 0xfffd_0002, 24, 28, 36, 0xfffd_0002, 24, 1, 1, 1, 0, 0, 50] {
        f.extend_from_slice(&le(v));
    }
    f.extend_from_slice(&[1, 2, 3, 4]);
    f
}

#[test]
fn cursor_from_theme_file() {
    let bytes = one_image_file();
    let c = Cursor::cursor_from_file(Some(&bytes[..]), Some(24), vec![9]);
    let i = c.get_image(1, 0);
    assert_eq!((i.size, i.width, i.height, i.xhot, i.yhot, i.delay), (24, 1, 1, 0, 0, 50));
    assert_eq!(i.pixels_rgba, vec![1, 2, 3, 4]);
    assert_eq!(i.pixels_argb, vec![4, 1, 2, 3]);
    // A file that does not parse, or no file, gives the fallback image.
    let bad = Cursor::cursor_from_file(Some(&bytes[..20]), None, vec![9]);
    assert_eq!(bad.get_image(1, 0).pixels_rgba, vec![9]);
    let none = Cursor::cursor_from_file(None, None, vec![7]);
    assert_eq!(none.get_image(1, 0).width, 64);
}

#[test]
fn animation_repeats_every_round() {
    let c = Cursor::load(Some(theme()), None, vec![]);
    // At size 24 the round is 100 + 200 milliseconds.
    for t in [0u128, 99, 100, 250, 299] {
        for rounds in 1..4u128 {
            let a = c.get_image(1, t);
            let b = c.get_image(1, t + rounds * 300);
            assert!(images_equal(&a, &b));
        }
    }
    assert_eq!(c.get_image(1, 99).pixels_rgba, vec![1]);
    assert_eq!(c.get_image(1, 100).pixels_rgba, vec![3]);
}

#[test]
fn cursor_size_from_environment() {
    assert_eq!(cursor_size(None), 24);
    assert_eq!(cursor_size(Some("32")), 32);
    assert_eq!(cursor_size(Some("+48")), 48);
    assert_eq!(cursor_size(Some("4294967295")), u32::MAX);
    assert_eq!(cursor_size(Some("4294967296")), 24);
    assert_eq!(cursor_size(Some("")), 24);
    assert_eq!(cursor_size(Some("+")), 24);
    assert_eq!(cursor_size(Some("-1")), 24);
    assert_eq!(cursor_size(Some(" 32")), 24);
    assert_eq!(cursor_size(Some("3x")), 24);
}

#[test]
fn cursor_theme_from_environment() {
    assert_eq!(cursor_theme_name(None), "default");
    assert_eq!(cursor_theme_name(Some("Adwaita")), "Adwaita");
}
