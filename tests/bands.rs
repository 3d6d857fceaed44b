use mandelzoom::bands::band_layout;
use mandelzoom::palette::{colorize, gen_colormap};

fn check_cover(bands: &[(usize, usize)], height: usize) {
    let mut next = 0;
    for &(top, rows) in bands {
        assert_eq!(top, next);
        assert!(rows > 0);
        next = top + rows;
    }
    assert_eq!(next, height);
}

#[test]
fn eight_workers_on_hundred_rows() {
    let b = band_layout((100, 100), 8);
    assert_eq!(b, vec![(0, 13), (13, 13), (26, 13), (39, 13), (52, 13), (65, 13), (78, 13), (91, 9)]);
    check_cover(&b, 100);
}

#[test]
fn fewer_bands_than_workers() {
    // rows_per_band = 16 / 8 + 1 = 3, so only six bands are emitted
    let b = band_layout((5, 16), 8);
    assert_eq!(b, vec![(0, 3), (3, 3), (6, 3), (9, 3), (12, 3), (15, 1)]);
    check_cover(&b, 16);
}

#[test]
fn single_worker_takes_every_row() {
    assert_eq!(band_layout((4, 4), 1), vec![(0, 4)]);
    assert_eq!(band_layout((7, 400), 1), vec![(0, 400)]);
}

#[test]
fn empty_frame_has_no_band() {
    assert!(band_layout((10, 0), 8).is_empty());
}

#[test]
fn exact_multiple_of_workers() {
    let b = band_layout((3, 8), 4);
    assert_eq!(b, vec![(0, 3), (3, 3), (6, 2)]);
    check_cover(&b, 8);
}

#[test]
fn layouts_cover_rows_for_many_worker_counts() {
    for t in 1..20 {
        for h in 0..50 {
            let b = band_layout((2, h), t);
            assert!(b.len() <= t);
            check_cover(&b, h);
        }
    }
}

#[test]
fn banded_colouring_matches_whole_frame() {
    let map = gen_colormap();
    let (w, h) = (7usize, 23usize);
    let escapes: Vec<Option<u64>> = (0..w * h)
        .map(|i| if i % 5 == 0 { None } else { Some((i * i) as u64 % 1000) })
        .collect();
    let serial = colorize(&escapes, &map);
    for t in 1..12 {
        let mut joined: Vec<Vec<u8>> = Vec::new();
        for (top, rows) in band_layout((w, h), t) {
            let part: Vec<Option<u64>> = escapes[top * w..(top + rows) * w].to_vec();
            joined.extend(colorize(&part, &map));
        }
        assert_eq!(joined, serial);
    }
}
