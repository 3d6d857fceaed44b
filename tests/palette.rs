use mandelzoom::palette::{colorize, gen_colormap, pixel_color, PALETTE_LEN};

#[test]
fn test_gen_colormap() {
    let res = gen_colormap();
    assert_eq!(res.len(), 256);
    println!("{:?}", res);
}

#[test]
fn colormap_entries_are_triples_and_ramp_ends() {
    let res = gen_colormap();
    assert_eq!(res.len(), PALETTE_LEN);
    for entry in res.iter() {
        assert_eq!(entry.len(), 3);
    }
    assert_eq!(res[0], vec![48, 18, 59]);
    assert_eq!(res[128], vec![164, 252, 60]);
    assert_eq!(res[254], vec![126, 5, 2]);
    assert_eq!(res[255], vec![122, 4, 3]);
}

#[test]
fn not_escaped_is_black() {
    let map = gen_colormap();
    assert_eq!(pixel_color(None, &map), vec![0, 0, 0]);
}

#[test]
fn escaped_at_zero_is_first_entry() {
    let map = gen_colormap();
    assert_eq!(pixel_color(Some(0), &map), vec![48, 18, 59]);
}

#[test]
fn escape_count_wraps_at_255() {
    let map = gen_colormap();
    assert_eq!(pixel_color(Some(255), &map), map[0]);
    assert_eq!(pixel_color(Some(254), &map), map[254]);
    assert_eq!(pixel_color(Some(256), &map), map[1]);
    assert_eq!(pixel_color(Some(510 + 7), &map), map[7]);
    assert_eq!(pixel_color(Some(u64::MAX), &map), map[(u64::MAX % 255) as usize]);
}

#[test]
fn colorize_keeps_order_of_pixels() {
    let map = gen_colormap();
    let escapes = vec![Some(0), None, Some(2), Some(300)];
    let px = colorize(&escapes, &map);
    assert_eq!(px.len(), 4);
    assert_eq!(px[0], map[0]);
    assert_eq!(px[1], vec![0, 0, 0]);
    assert_eq!(px[2], map[2]);
    assert_eq!(px[3], map[45]);
    assert!(colorize(&Vec::new(), &map).is_empty());
}

#[test]
fn corner_and_centre_pixels_of_small_frame() {
    // corners of a 4x4 frame over [-1,1]^2 escape at the first step; the centre never does
    let map = gen_colormap();
    let escapes = vec![Some(0), None, None, Some(0)];
    let px = colorize(&escapes, &map);
    assert_eq!(px[0], vec![48, 18, 59]);
    assert_eq!(px[1], vec![0, 0, 0]);
    assert_eq!(px[3], vec![48, 18, 59]);
}
