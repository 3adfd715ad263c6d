use raytracer::ppm::{encode_ppm, pixel_text, ppm_header, push_decimal, PpmError};

fn text(bytes: Vec<u8>) -> String {
    String::from_utf8(bytes).unwrap()
}

#[test]
fn decimal_digits() {
    for n in [0u64, 7, 10, 99, 100, 255, 1234567890, u64::MAX] {
        let mut out = b"x".to_vec();
        push_decimal(&mut out, n);
        assert_eq!(text(out), format!("x{}", n));
    }
}

#[test]
fn header_lines() {
    assert_eq!(text(ppm_header(256, 144)), "P3\n256 144\n255\n");
    assert_eq!(text(ppm_header(1, 1)), "P3\n1 1\n255\n");
}

#[test]
fn pixel_channels_in_decimal() {
    assert_eq!(text(pixel_text(0, 128, 255)), "0 128 255");
    assert_eq!(text(pixel_text(9, 10, 99)), "9 10 99");
}

#[test]
fn whole_image() {
    let pixels = vec![(255, 0, 0), (0, 255, 0), (0, 0, 255), (12, 34, 56)];
    assert_eq!(
        text(encode_ppm(2, 2, &pixels).unwrap()),
        "P3\n2 2\n255\n255 0 0\n0 255 0\n0 0 255\n12 34 56\n"
    );
}

#[test]
fn wrong_pixel_count_is_rejected() {
    let pixels = vec![(1, 2, 3); 3];
    assert_eq!(encode_ppm(2, 2, &pixels), Err(PpmError::PixelCountMismatch));
    assert_eq!(encode_ppm(u64::MAX, 2, &pixels), Err(PpmError::PixelCountMismatch));
    assert_eq!(text(encode_ppm(0, 7, &Vec::new()).unwrap()), "P3\n0 7\n255\n");
}
