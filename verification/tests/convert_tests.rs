use v4l2_capture::convert::{convert, convert_grayscale, Rgb};

fn rgb(r: u8, g: u8, b: u8) -> Rgb {
    Rgb { r, g, b }
}

#[test]
fn bias_point_converts_to_black() {
    // Y at the bias point with neutral chroma is exactly (0, 0, 0).
    let data = vec![16u8, 128, 16, 128];
    let out = convert(&data, 2, 1);
    assert_eq!(out, vec![rgb(0, 0, 0), rgb(0, 0, 0)]);
}

#[test]
fn top_luma_converts_to_equal_gray() {
    // Y = 235 with neutral chroma: every channel is 1.164 * 219
    // truncated toward zero, so all three channels are equal.
    let data = vec![235u8, 128, 235, 128];
    let out = convert(&data, 2, 1);
    assert_eq!(out[0].r, out[0].g);
    assert_eq!(out[0].g, out[0].b);
    assert_eq!(out[0], rgb(254, 254, 254));
    assert_eq!(out[1], rgb(254, 254, 254));
}

#[test]
fn two_group_scenario() {
    // Two 4-byte groups: a bias-point pair then a top-luma pair. The
    // bright pixels hold truncate(1.164 * 219) = 254 in each channel.
    let data = vec![16u8, 128, 16, 128, 235, 128, 235, 128];
    let out = convert(&data, 4, 1);
    assert_eq!(
        out,
        vec![rgb(0, 0, 0), rgb(0, 0, 0), rgb(254, 254, 254), rgb(254, 254, 254)]
    );
}

#[test]
fn conversion_is_pure() {
    let data = vec![10u8, 50, 200, 250, 16, 128, 235, 128];
    let a = convert(&data, 2, 2);
    let b = convert(&data, 2, 2);
    assert_eq!(a, b);
}

#[test]
fn convert_empty_frame() {
    let data: Vec<u8> = Vec::new();
    let out = convert(&data, 0, 0);
    assert!(out.is_empty());
}

#[test]
fn chroma_offsets_move_channels() {
    // A saturated red-ish sample: high V raises R, lowers G.
    let data = vec![81u8, 90, 81, 240];
    let out = convert(&data, 2, 1);
    // scaled red = 1164 * 65 + 1596 * 112 = 254412 -> 254
    // scaled green = 1164 * 65 + 392 * 38 - 813 * 112 = -500; clamped to 0
    // scaled blue = 1164 * 65 - 2017 * 38 = -986; clamped to 0
    assert_eq!(out[0], rgb(254, 0, 0));
    assert_eq!(out[1], rgb(254, 0, 0));
}

#[test]
fn channels_clamp_at_extremes() {
    // Y = 255 with neutral chroma overshoots: 1.164 * 239 = 278.196,
    // clamped to 255. Y = 0 undershoots: negative, clamped to 0.
    let data = vec![255u8, 128, 0, 128];
    let out = convert(&data, 2, 1);
    assert_eq!(out[0], rgb(255, 255, 255));
    assert_eq!(out[1], rgb(0, 0, 0));
}

#[test]
fn grayscale_samples_only_luma() {
    let data = vec![7u8, 0, 200, 255];
    let out = convert_grayscale(&data, 2, 1);
    assert_eq!(out, vec![rgb(7, 7, 7), rgb(200, 200, 200)]);
}
