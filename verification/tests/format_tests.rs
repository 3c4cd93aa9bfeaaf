use v4l2_capture::errors::{CapabilityError, FormatError};
use v4l2_capture::format::{
    check_capabilities, check_format, pixel_format_to_string, size_to_str, u32_to_string,
    CAP_STREAMING, CAP_VIDEO_CAPTURE, FIELD_NONE, PIX_FMT_ARGB444, PIX_FMT_ARGB555,
    PIX_FMT_ARGB555X, PIX_FMT_MJPEG, PIX_FMT_NV12, PIX_FMT_SBGGR10P, PIX_FMT_SQ905C,
    PIX_FMT_Y16, PIX_FMT_Y16_BE, PIX_FMT_YUV420M, PIX_FMT_YUYV,
};

#[test]
fn capabilities_accept_both_flags() {
    assert_eq!(check_capabilities(CAP_VIDEO_CAPTURE | CAP_STREAMING), Ok(()));
    // extra flags do not hurt
    assert_eq!(
        check_capabilities(CAP_VIDEO_CAPTURE | CAP_STREAMING | 0x00200000),
        Ok(())
    );
}

#[test]
fn capabilities_reject_missing_capture() {
    assert_eq!(
        check_capabilities(CAP_STREAMING),
        Err(CapabilityError::MissingCapture)
    );
    assert_eq!(check_capabilities(0), Err(CapabilityError::MissingCapture));
}

#[test]
fn capabilities_reject_missing_streaming() {
    assert_eq!(
        check_capabilities(CAP_VIDEO_CAPTURE),
        Err(CapabilityError::MissingStreaming)
    );
}

#[test]
fn format_accepts_packed_yuyv_progressive() {
    assert_eq!(check_format(PIX_FMT_YUYV, FIELD_NONE), Ok(()));
}

#[test]
fn format_rejects_other_layout() {
    assert_eq!(
        check_format(PIX_FMT_NV12, FIELD_NONE),
        Err(FormatError::UnsupportedLayout)
    );
}

#[test]
fn format_rejects_interlacing() {
    // field value 4 is an interlaced mode
    assert_eq!(check_format(PIX_FMT_YUYV, 4), Err(FormatError::Interlaced));
}

#[test]
fn format_names_known_codes() {
    assert_eq!(pixel_format_to_string(PIX_FMT_YUYV), "V4L2_PIX_FMT_YUYV");
    assert_eq!(pixel_format_to_string(PIX_FMT_MJPEG), "V4L2_PIX_FMT_MJPEG");
    assert_eq!(pixel_format_to_string(PIX_FMT_NV12), "V4L2_PIX_FMT_NV12");
    // the fourcc of "YUYV" packs little endian
    assert_eq!(PIX_FMT_YUYV, u32::from_le_bytes(*b"YUYV"));
}

#[test]
fn format_names_cover_the_registry_families() {
    // packed RGB, Bayer, planar YUV and vendor entries resolve too
    assert_eq!(pixel_format_to_string(PIX_FMT_ARGB444), "V4L2_PIX_FMT_ARGB444");
    assert_eq!(PIX_FMT_ARGB444, u32::from_le_bytes(*b"AR12"));
    assert_eq!(
        pixel_format_to_string(PIX_FMT_SBGGR10P),
        "V4L2_PIX_FMT_SBGGR10P"
    );
    assert_eq!(PIX_FMT_SBGGR10P, u32::from_le_bytes(*b"pBAA"));
    assert_eq!(
        pixel_format_to_string(PIX_FMT_YUV420M),
        "V4L2_PIX_FMT_YUV420M"
    );
    assert_eq!(pixel_format_to_string(PIX_FMT_SQ905C), "V4L2_PIX_FMT_SQ905C");
    assert_eq!(PIX_FMT_SQ905C, u32::from_le_bytes(*b"905C"));
}

#[test]
fn format_names_distinguish_big_endian_codes() {
    // a big-endian variant carries the same packed code with the
    // highest bit set, and resolves to its own name
    assert_eq!(PIX_FMT_ARGB555X, PIX_FMT_ARGB555 | 0x8000_0000);
    assert_eq!(
        pixel_format_to_string(PIX_FMT_ARGB555X),
        "V4L2_PIX_FMT_ARGB555X"
    );
    assert_eq!(PIX_FMT_Y16_BE, PIX_FMT_Y16 | 0x8000_0000);
    assert_eq!(pixel_format_to_string(PIX_FMT_Y16_BE), "V4L2_PIX_FMT_Y16_BE");
}

#[test]
fn format_names_unknown_code() {
    assert_eq!(pixel_format_to_string(0xDEAD_BEEF), "unknown");
}

#[test]
fn decimal_rendering() {
    assert_eq!(u32_to_string(0), "0");
    assert_eq!(u32_to_string(7), "7");
    assert_eq!(u32_to_string(480), "480");
    assert_eq!(u32_to_string(4294967295), "4294967295");
}

#[test]
fn size_rendering() {
    assert_eq!(size_to_str(&(640, 480)), "640x480");
    assert_eq!(size_to_str(&(0, 0)), "0x0");
    assert_eq!(size_to_str(&(1920, 1080)), "1920x1080");
}
