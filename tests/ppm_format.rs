use raytracer::ppm::{pixel_at, pixel_line, ppm_header};

fn text(bytes: Vec<u8>) -> String {
    String::from_utf8(bytes).unwrap()
}

#[test]
fn header_of_wide_image() {
    assert_eq!(text(ppm_header(1200, 675)), "P3\n1200 675\n255\n");
}

#[test]
fn header_of_single_pixel() {
    assert_eq!(text(ppm_header(1, 1)), "P3\n1 1\n255\n");
}

#[test]
fn header_of_empty_and_largest_sizes() {
    assert_eq!(text(ppm_header(0, 0)), "P3\n0 0\n255\n");
    assert_eq!(
        text(ppm_header(u32::MAX, 10)),
        "P3\n4294967295 10\n255\n"
    );
}

#[test]
fn pixel_line_black() {
    assert_eq!(text(pixel_line(0, 0, 0)), "0 0 0\n");
}

#[test]
fn pixel_line_white() {
    assert_eq!(text(pixel_line(255, 255, 255)), "255 255 255\n");
}

#[test]
fn pixel_line_mixed_widths() {
    assert_eq!(text(pixel_line(7, 128, 64)), "7 128 64\n");
    assert_eq!(text(pixel_line(10, 9, 100)), "10 9 100\n");
}

#[test]
fn scan_goes_top_row_first_left_to_right() {
    let order: Vec<(u32, u32)> = (0..6u64).map(|k| pixel_at(k, 3, 2)).collect();
    assert_eq!(order, vec![(0, 1), (1, 1), (2, 1), (0, 0), (1, 0), (2, 0)]);
}

#[test]
fn scan_visits_every_pixel_once() {
    let (w, h) = (7u32, 5u32);
    let mut seen = vec![false; (w * h) as usize];
    for k in 0..(w as u64 * h as u64) {
        let (x, y) = pixel_at(k, w, h);
        assert!(x < w && y < h);
        let cell = (y * w + x) as usize;
        assert!(!seen[cell]);
        seen[cell] = true;
    }
    assert!(seen.iter().all(|s| *s));
}

#[test]
fn scan_of_single_column() {
    assert_eq!(pixel_at(0, 1, 4), (0, 3));
    assert_eq!(pixel_at(3, 1, 4), (0, 0));
}
