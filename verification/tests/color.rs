use cores3::board::camera::{captured_rows, preview_pixel, preview_rows, yuyv_to_rgb565, FRAME_HEIGHT, FRAME_WIDTH};
use cores3::color::{yuv_to_rgb565, Rgb565};

#[test]
fn neutral_chroma_is_gray() {
    let c = yuv_to_rgb565(0, 128, 128);
    assert_eq!((c.r(), c.g(), c.b()), (0, 0, 0));

    let c = yuv_to_rgb565(255, 128, 128);
    assert_eq!((c.r(), c.g(), c.b()), (31, 63, 31));
}

#[test]
fn chroma_pushes_the_expected_channel() {
    let red = yuv_to_rgb565(128, 128, 255);
    assert_eq!((red.r(), red.g(), red.b()), (31, 9, 16));

    let blue = yuv_to_rgb565(128, 255, 128);
    assert_eq!((blue.r(), blue.g(), blue.b()), (16, 21, 31));
}

#[test]
fn out_of_range_results_are_clamped_not_wrapped() {
    // red would be 433 here, blue -227 in the next one
    assert_eq!(yuv_to_rgb565(255, 0, 255).r(), 31);
    assert_eq!(yuv_to_rgb565(0, 0, 128).b(), 0);
}

#[test]
fn every_gray_level_maps_to_its_top_bits() {
    for y in 0..=255u8 {
        let c = yuv_to_rgb565(y, 128, 128);
        assert_eq!((c.r(), c.g(), c.b()), (y >> 3, y >> 2, y >> 3));
    }
}

#[test]
fn negative_chroma_rounds_towards_minus_infinity() {
    // cb = 127 - 128 = -1: 454 * -1 >> 8 = -2, so blue = 100 - 2 = 98 -> 98 >> 3 = 12
    let c = yuv_to_rgb565(100, 127, 128);
    assert_eq!(c.b(), 12);
    // g = 100 - ((88 * -1) >> 8) = 100 - (-1) = 101 -> 101 >> 2 = 25
    assert_eq!(c.g(), 25);
}

#[test]
fn rgb565_packs_red_high_and_masks_channels() {
    let c = Rgb565::new(0b10001, 0, 0);
    assert_eq!(c.into_storage(), 0b10001 << 11);
    let c = Rgb565::new(0, 0b100001, 0);
    assert_eq!(c.into_storage(), 0b100001 << 5);
    let c = Rgb565::new(0, 0, 0b10001);
    assert_eq!(c.into_storage(), 0b10001);
    let c = Rgb565::new(0xff, 0xff, 0xff);
    assert_eq!(c.into_storage(), 0xffff);
    assert_eq!((c.r(), c.g(), c.b()), (31, 63, 31));
    let c = Rgb565::new(0x21, 0x41, 0x22);
    assert_eq!((c.r(), c.g(), c.b()), (1, 1, 2));
    let c = Rgb565::from_storage(0xf800);
    assert_eq!((c.r(), c.g(), c.b()), (31, 0, 0));
}

#[test]
fn yuyv_quad_gives_two_pixels_sharing_chroma() {
    let (a, b) = yuyv_to_rgb565([0, 128, 255, 128]);
    assert_eq!((a.r(), a.g(), a.b()), (0, 0, 0));
    assert_eq!((b.r(), b.g(), b.b()), (31, 63, 31));
}

#[test]
fn captured_rows_are_whole_and_bounded() {
    assert_eq!(captured_rows(0), 0);
    assert_eq!(captured_rows(FRAME_WIDTH * 2 - 1), 0);
    assert_eq!(captured_rows(FRAME_WIDTH * 2 * 3 + 5), 3);
    assert_eq!(captured_rows(FRAME_WIDTH * 2 * (FRAME_HEIGHT + 7)), FRAME_HEIGHT);
    assert_eq!(preview_rows(FRAME_WIDTH * 2 * 5), 2);
}

#[test]
fn preview_samples_every_other_row_and_quad() {
    let mut frame = vec![128u8; FRAME_WIDTH * 2 * 4];
    // luma of the quad at preview pixel (3, 1): row 2, byte 12
    let i = 2 * FRAME_WIDTH * 2 + 3 * 4;
    frame[i] = 255;
    let c = preview_pixel(&frame, 3, 1);
    assert_eq!((c.r(), c.g(), c.b()), (31, 63, 31));
    let c = preview_pixel(&frame, 2, 1);
    assert_eq!((c.r(), c.g(), c.b()), (16, 32, 16));
}
