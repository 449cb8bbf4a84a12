use rxing_wasm::luma::{convert_image_to_luma, luma_of_pixel, CHANNELS, TRANSPARENT_LUMA};

fn fixed_point(red: u8, green: u8, blue: u8) -> u8 {
    ((306 * red as u32 + 601 * green as u32 + 117 * blue as u32 + 512) / 1024) as u8
}

#[test]
fn opaque_black_is_zero() {
    assert_eq!(convert_image_to_luma(&[0, 0, 0, 255]), vec![0]);
}

#[test]
fn opaque_white_is_full() {
    assert_eq!(convert_image_to_luma(&[255, 255, 255, 255]), vec![255]);
}

#[test]
fn transparent_pixel_is_white() {
    assert_eq!(convert_image_to_luma(&[10, 20, 30, 0]), vec![255]);
}

#[test]
fn empty_input_gives_empty_output() {
    let empty: [u8; 0] = [];
    assert_eq!(convert_image_to_luma(&empty), Vec::<u8>::new());
}

#[test]
fn seven_bytes_give_one_pixel() {
    let luma = convert_image_to_luma(&[0, 0, 0, 255, 9, 9, 9]);
    assert_eq!(luma, vec![0]);
}

#[test]
fn fewer_than_four_bytes_give_nothing() {
    assert_eq!(convert_image_to_luma(&[1]), Vec::<u8>::new());
    assert_eq!(convert_image_to_luma(&[1, 2]), Vec::<u8>::new());
    assert_eq!(convert_image_to_luma(&[1, 2, 3]), Vec::<u8>::new());
}

#[test]
fn output_length_is_input_length_over_four() {
    for len in 0..64usize {
        let data: Vec<u8> = (0..len).map(|i| (i * 37 % 256) as u8).collect();
        assert_eq!(convert_image_to_luma(&data).len(), len / 4);
    }
}

#[test]
fn trailing_bytes_are_ignored() {
    let whole: Vec<u8> = vec![200, 100, 50, 255, 1, 2, 3, 4, 90, 80, 70, 0];
    let expected = convert_image_to_luma(&whole);
    for extra in 1..4usize {
        let mut data = whole.clone();
        for k in 0..extra {
            data.push(k as u8);
        }
        assert_eq!(convert_image_to_luma(&data), expected);
    }
}

#[test]
fn pixels_are_converted_in_order() {
    let head: Vec<u8> = vec![255, 0, 0, 255, 0, 255, 0, 255];
    let rest: Vec<u8> = vec![0, 0, 255, 255, 7, 7, 7, 0, 5];
    let mut all = head.clone();
    all.extend_from_slice(&rest);
    let mut joined = convert_image_to_luma(&head);
    joined.extend(convert_image_to_luma(&rest));
    assert_eq!(convert_image_to_luma(&all), joined);
    assert_eq!(joined, vec![76, 150, 29, 255]);
}

#[test]
fn primary_colours_have_their_weights() {
    assert_eq!(luma_of_pixel(255, 0, 0, 255), 76);
    assert_eq!(luma_of_pixel(0, 255, 0, 255), 150);
    assert_eq!(luma_of_pixel(0, 0, 255, 255), 29);
}

#[test]
fn rounding_is_to_nearest() {
    // 306 + 512 = 818 < 1024, and 306 * 2 + 512 = 1124 >= 1024
    assert_eq!(luma_of_pixel(1, 0, 0, 255), 0);
    assert_eq!(luma_of_pixel(2, 0, 0, 255), 1);
    // 601 + 512 = 1113 >= 1024
    assert_eq!(luma_of_pixel(0, 1, 0, 255), 1);
    // 117 * 4 + 512 = 980 < 1024, and 117 * 5 + 512 = 1097 >= 1024
    assert_eq!(luma_of_pixel(0, 0, 4, 255), 0);
    assert_eq!(luma_of_pixel(0, 0, 5, 255), 1);
    assert_eq!(luma_of_pixel(10, 20, 30, 255), 18);
}

#[test]
fn alpha_zero_overrides_every_colour() {
    for red in (0..=255u16).step_by(15) {
        for green in (0..=255u16).step_by(17) {
            for blue in (0..=255u16).step_by(51) {
                assert_eq!(luma_of_pixel(red as u8, green as u8, blue as u8, 0), 255);
            }
        }
    }
    assert_eq!(luma_of_pixel(0, 0, 0, 0), TRANSPARENT_LUMA);
}

#[test]
fn any_other_alpha_leaves_the_colour_in_charge() {
    for alpha in 1..=255u8 {
        assert_eq!(luma_of_pixel(10, 20, 30, alpha), 18);
        assert_eq!(luma_of_pixel(0, 0, 0, alpha), 0);
    }
}

#[test]
fn luma_is_the_fixed_point_formula() {
    for red in (0..=255u16).step_by(5) {
        for green in (0..=255u16).step_by(5) {
            for blue in (0..=255u16).step_by(5) {
                let (r, g, b) = (red as u8, green as u8, blue as u8);
                assert_eq!(luma_of_pixel(r, g, b, 255), fixed_point(r, g, b));
            }
        }
    }
}

#[test]
fn luma_is_within_one_of_the_rounded_luminance() {
    for red in (0..=255u16).step_by(3) {
        for green in (0..=255u16).step_by(3) {
            for blue in (0..=255u16).step_by(3) {
                let exact = 0.299 * red as f64 + 0.587 * green as f64 + 0.114 * blue as f64;
                let luma = luma_of_pixel(red as u8, green as u8, blue as u8, 128) as f64;
                assert!((luma - exact.round()).abs() <= 1.0);
                assert!((luma - exact).abs() <= 0.567);
            }
        }
    }
}

#[test]
fn grey_keeps_its_level() {
    for level in 0..=255u8 {
        assert_eq!(convert_image_to_luma(&[level, level, level, 255]), vec![level]);
    }
}

#[test]
fn buffer_of_mixed_pixels() {
    let data = [0, 0, 0, 255, 255, 255, 255, 255, 10, 20, 30, 0, 10, 20, 30, 1];
    assert_eq!(data.len(), 4 * CHANNELS);
    assert_eq!(convert_image_to_luma(&data), vec![0, 255, 255, 18]);
}

#[test]
fn input_is_left_as_it_was() {
    let data = vec![9u8, 8, 7, 6, 5];
    let before = data.clone();
    let _ = convert_image_to_luma(&data);
    assert_eq!(data, before);
}
