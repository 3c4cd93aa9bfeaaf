//! Capability and pixel-format negotiation.
//!
//! The numeric codes below mirror the kernel's video-capture ABI: two
//! capability flag bits, the four-character code of the one packed
//! luma/chroma layout this core understands, and the non-interlaced
//! field marker. The core deliberately refuses every other layout
//! rather than silently reinterpreting it.

use vstd::prelude::*;
use vstd::string::StringExecFns;

use crate::errors::{CapabilityError, FormatError};

verus! {

/// Capability flag bit: the device can capture video.
pub const CAP_VIDEO_CAPTURE: u32 = 0x0000_0001;

/// Capability flag bit: the device supports streaming I/O.
pub const CAP_STREAMING: u32 = 0x0400_0000;

/// Four-character code of the packed Y0-U-Y1-V layout ("YUYV", little endian).
pub const PIX_FMT_YUYV: u32 = 0x5659_5559;

/// Field value for a non-interlaced (progressive) frame.
pub const FIELD_NONE: u32 = 1;

/// True when both required capability flag bits are present.
pub open spec fn spec_capabilities_ok(caps: u32) -> bool {
    caps & CAP_VIDEO_CAPTURE != 0 && caps & CAP_STREAMING != 0
}

/// Rejects a device unless it reports both the capture and the
/// streaming capability flags.
pub fn check_capabilities(caps: u32) -> (r: Result<(), CapabilityError>)
    ensures
        r is Ok <==> spec_capabilities_ok(caps),
        caps & CAP_VIDEO_CAPTURE == 0 ==> r == Result::<(), CapabilityError>::Err(
            CapabilityError::MissingCapture,
        ),
        caps & CAP_VIDEO_CAPTURE != 0 && caps & CAP_STREAMING == 0 ==> r == Result::<
            (),
            CapabilityError,
        >::Err(CapabilityError::MissingStreaming),
{
    if caps & CAP_VIDEO_CAPTURE == 0 {
        Err(CapabilityError::MissingCapture)
    } else if caps & CAP_STREAMING == 0 {
        Err(CapabilityError::MissingStreaming)
    } else {
        Ok(())
    }
}

/// What the device reports as its active format: dimensions, pixel
/// format code, interlacing field, and the total byte size of one
/// frame.
#[derive(Clone, Copy, Debug, PartialEq, Eq, Structural)]
pub struct FormatInfo {
    pub width: u32,
    pub height: u32,
    pub pixelformat: u32,
    pub field: u32,
    pub sizeimage: u32,
}

/// True when the active format is the supported layout: packed YUYV,
/// non-interlaced.
pub open spec fn spec_format_ok(pixelformat: u32, field: u32) -> bool {
    pixelformat == PIX_FMT_YUYV && field == FIELD_NONE
}

/// Rejects every active format except non-interlaced packed YUYV.
pub fn check_format(pixelformat: u32, field: u32) -> (r: Result<(), FormatError>)
    ensures
        r is Ok <==> spec_format_ok(pixelformat, field),
        pixelformat != PIX_FMT_YUYV ==> r == Result::<(), FormatError>::Err(
            FormatError::UnsupportedLayout,
        ),
        pixelformat == PIX_FMT_YUYV && field != FIELD_NONE ==> r == Result::<(), FormatError>::Err(
            FormatError::Interlaced,
        ),
{
    if pixelformat != PIX_FMT_YUYV {
        Err(FormatError::UnsupportedLayout)
    } else if field != FIELD_NONE {
        Err(FormatError::Interlaced)
    } else {
        Ok(())
    }
}

// Four-character codes of the kernel pixel-format registry, one
// constant per entry this viewer can name. Each value packs the
// code's four ASCII bytes little endian, first character in the
// lowest byte; a big-endian variant of a format carries the same
// packed code with the highest bit set.
/// Code "RGB1".
pub const PIX_FMT_RGB332: u32 = 0x31424752;

/// Code "R444".
pub const PIX_FMT_RGB444: u32 = 0x34343452;

/// Code "AR12".
pub const PIX_FMT_ARGB444: u32 = 0x32315241;

/// Code "XR12".
pub const PIX_FMT_XRGB444: u32 = 0x32315258;

/// Code "RA12".
pub const PIX_FMT_RGBA444: u32 = 0x32314152;

/// Code "RX12".
pub const PIX_FMT_RGBX444: u32 = 0x32315852;

/// Code "AB12".
pub const PIX_FMT_ABGR444: u32 = 0x32314241;

/// Code "XB12".
pub const PIX_FMT_XBGR444: u32 = 0x32314258;

/// Code "GA12".
pub const PIX_FMT_BGRA444: u32 = 0x32314147;

/// Code "BX12".
pub const PIX_FMT_BGRX444: u32 = 0x32315842;

/// Code "RGBO".
pub const PIX_FMT_RGB555: u32 = 0x4F424752;

/// Code "AR15".
pub const PIX_FMT_ARGB555: u32 = 0x35315241;

/// Code "XR15".
pub const PIX_FMT_XRGB555: u32 = 0x35315258;

/// Code "RA15".
pub const PIX_FMT_RGBA555: u32 = 0x35314152;

/// Code "RX15".
pub const PIX_FMT_RGBX555: u32 = 0x35315852;

/// Code "AB15".
pub const PIX_FMT_ABGR555: u32 = 0x35314241;

/// Code "XB15".
pub const PIX_FMT_XBGR555: u32 = 0x35314258;

/// Code "BA15".
pub const PIX_FMT_BGRA555: u32 = 0x35314142;

/// Code "BX15".
pub const PIX_FMT_BGRX555: u32 = 0x35315842;

/// Code "RGBP".
pub const PIX_FMT_RGB565: u32 = 0x50424752;

/// Code "RGBQ".
pub const PIX_FMT_RGB555X: u32 = 0x51424752;

/// Code "AR15", big-endian flag set.
pub const PIX_FMT_ARGB555X: u32 = 0xB5315241;

/// Code "XR15", big-endian flag set.
pub const PIX_FMT_XRGB555X: u32 = 0xB5315258;

/// Code "RGBR".
pub const PIX_FMT_RGB565X: u32 = 0x52424752;

/// Code "BGRH".
pub const PIX_FMT_BGR666: u32 = 0x48524742;

/// Code "BGR3".
pub const PIX_FMT_BGR24: u32 = 0x33524742;

/// Code "RGB3".
pub const PIX_FMT_RGB24: u32 = 0x33424752;

/// Code "BGR4".
pub const PIX_FMT_BGR32: u32 = 0x34524742;

/// Code "AR24".
pub const PIX_FMT_ABGR32: u32 = 0x34325241;

/// Code "XR24".
pub const PIX_FMT_XBGR32: u32 = 0x34325258;

/// Code "RA24".
pub const PIX_FMT_BGRA32: u32 = 0x34324152;

/// Code "RX24".
pub const PIX_FMT_BGRX32: u32 = 0x34325852;

/// Code "RGB4".
pub const PIX_FMT_RGB32: u32 = 0x34424752;

/// Code "AB24".
pub const PIX_FMT_RGBA32: u32 = 0x34324241;

/// Code "XB24".
pub const PIX_FMT_RGBX32: u32 = 0x34324258;

/// Code "BA24".
pub const PIX_FMT_ARGB32: u32 = 0x34324142;

/// Code "BX24".
pub const PIX_FMT_XRGB32: u32 = 0x34325842;

/// Code "RX30".
pub const PIX_FMT_RGBX1010102: u32 = 0x30335852;

/// Code "RA30".
pub const PIX_FMT_RGBA1010102: u32 = 0x30334152;

/// Code "AR30".
pub const PIX_FMT_ARGB2101010: u32 = 0x30335241;

/// Code "B312".
pub const PIX_FMT_BGR48_12: u32 = 0x32313342;

/// Code "B412".
pub const PIX_FMT_ABGR64_12: u32 = 0x32313442;

/// Code "GREY".
pub const PIX_FMT_GREY: u32 = 0x59455247;

/// Code "Y04 ".
pub const PIX_FMT_Y4: u32 = 0x20343059;

/// Code "Y06 ".
pub const PIX_FMT_Y6: u32 = 0x20363059;

/// Code "Y10 ".
pub const PIX_FMT_Y10: u32 = 0x20303159;

/// Code "Y12 ".
pub const PIX_FMT_Y12: u32 = 0x20323159;

/// Code "Y012".
pub const PIX_FMT_Y012: u32 = 0x32313059;

/// Code "Y14 ".
pub const PIX_FMT_Y14: u32 = 0x20343159;

/// Code "Y16 ".
pub const PIX_FMT_Y16: u32 = 0x20363159;

/// Code "Y16 ", big-endian flag set.
pub const PIX_FMT_Y16_BE: u32 = 0xA0363159;

/// Code "Y10B".
pub const PIX_FMT_Y10BPACK: u32 = 0x42303159;

/// Code "Y10P".
pub const PIX_FMT_Y10P: u32 = 0x50303159;

/// Code "ip3y".
pub const PIX_FMT_IPU3_Y10: u32 = 0x79337069;

/// Code "PAL8".
pub const PIX_FMT_PAL8: u32 = 0x384C4150;

/// Code "UV8 ".
pub const PIX_FMT_UV8: u32 = 0x20385655;

/// Code "YYUV".
pub const PIX_FMT_YYUV: u32 = 0x56555959;

/// Code "YVYU".
pub const PIX_FMT_YVYU: u32 = 0x55595659;

/// Code "UYVY".
pub const PIX_FMT_UYVY: u32 = 0x59565955;

/// Code "VYUY".
pub const PIX_FMT_VYUY: u32 = 0x59555956;

/// Code "Y41P".
pub const PIX_FMT_Y41P: u32 = 0x50313459;

/// Code "Y444".
pub const PIX_FMT_YUV444: u32 = 0x34343459;

/// Code "YUVO".
pub const PIX_FMT_YUV555: u32 = 0x4F565559;

/// Code "YUVP".
pub const PIX_FMT_YUV565: u32 = 0x50565559;

/// Code "YUV3".
pub const PIX_FMT_YUV24: u32 = 0x33565559;

/// Code "YUV4".
pub const PIX_FMT_YUV32: u32 = 0x34565559;

/// Code "AYUV".
pub const PIX_FMT_AYUV32: u32 = 0x56555941;

/// Code "XYUV".
pub const PIX_FMT_XYUV32: u32 = 0x56555958;

/// Code "VUYA".
pub const PIX_FMT_VUYA32: u32 = 0x41595556;

/// Code "VUYX".
pub const PIX_FMT_VUYX32: u32 = 0x58595556;

/// Code "YUVA".
pub const PIX_FMT_YUVA32: u32 = 0x41565559;

/// Code "YUVX".
pub const PIX_FMT_YUVX32: u32 = 0x58565559;

/// Code "M420".
pub const PIX_FMT_M420: u32 = 0x3032344D;

/// Code "Y312".
pub const PIX_FMT_YUV48_12: u32 = 0x32313359;

/// Code "Y210".
pub const PIX_FMT_Y210: u32 = 0x30313259;

/// Code "Y212".
pub const PIX_FMT_Y212: u32 = 0x32313259;

/// Code "Y216".
pub const PIX_FMT_Y216: u32 = 0x36313259;

/// Code "NV12".
pub const PIX_FMT_NV12: u32 = 0x3231564E;

/// Code "NV21".
pub const PIX_FMT_NV21: u32 = 0x3132564E;

/// Code "NV16".
pub const PIX_FMT_NV16: u32 = 0x3631564E;

/// Code "NV61".
pub const PIX_FMT_NV61: u32 = 0x3136564E;

/// Code "NV24".
pub const PIX_FMT_NV24: u32 = 0x3432564E;

/// Code "NV42".
pub const PIX_FMT_NV42: u32 = 0x3234564E;

/// Code "P010".
pub const PIX_FMT_P010: u32 = 0x30313050;

/// Code "P012".
pub const PIX_FMT_P012: u32 = 0x32313050;

/// Code "NM12".
pub const PIX_FMT_NV12M: u32 = 0x32314D4E;

/// Code "NM21".
pub const PIX_FMT_NV21M: u32 = 0x31324D4E;

/// Code "NM16".
pub const PIX_FMT_NV16M: u32 = 0x36314D4E;

/// Code "NM61".
pub const PIX_FMT_NV61M: u32 = 0x31364D4E;

/// Code "PM12".
pub const PIX_FMT_P012M: u32 = 0x32314D50;

/// Code "YUV9".
pub const PIX_FMT_YUV410: u32 = 0x39565559;

/// Code "YVU9".
pub const PIX_FMT_YVU410: u32 = 0x39555659;

/// Code "411P".
pub const PIX_FMT_YUV411P: u32 = 0x50313134;

/// Code "YU12".
pub const PIX_FMT_YUV420: u32 = 0x32315559;

/// Code "YV12".
pub const PIX_FMT_YVU420: u32 = 0x32315659;

/// Code "422P".
pub const PIX_FMT_YUV422P: u32 = 0x50323234;

/// Code "YM12".
pub const PIX_FMT_YUV420M: u32 = 0x32314D59;

/// Code "YM21".
pub const PIX_FMT_YVU420M: u32 = 0x31324D59;

/// Code "YM16".
pub const PIX_FMT_YUV422M: u32 = 0x36314D59;

/// Code "YM61".
pub const PIX_FMT_YVU422M: u32 = 0x31364D59;

/// Code "YM24".
pub const PIX_FMT_YUV444M: u32 = 0x34324D59;

/// Code "YM42".
pub const PIX_FMT_YVU444M: u32 = 0x32344D59;

/// Code "VT12".
pub const PIX_FMT_NV12_4L4: u32 = 0x32315456;

/// Code "HM12".
pub const PIX_FMT_NV12_16L16: u32 = 0x32314D48;

/// Code "ST12".
pub const PIX_FMT_NV12_32L32: u32 = 0x32315453;

/// Code "VT15".
pub const PIX_FMT_NV15_4L4: u32 = 0x35315456;

/// Code "T010".
pub const PIX_FMT_P010_4L4: u32 = 0x30313054;

/// Code "AT12".
pub const PIX_FMT_NV12_8L128: u32 = 0x32315441;

/// Code "AX12", big-endian flag set.
pub const PIX_FMT_NV12_10BE_8L128: u32 = 0xB2315841;

/// Code "TM12".
pub const PIX_FMT_NV12MT: u32 = 0x32314D54;

/// Code "VM12".
pub const PIX_FMT_NV12MT_16X16: u32 = 0x32314D56;

/// Code "NA12".
pub const PIX_FMT_NV12M_8L128: u32 = 0x3231414E;

/// Code "NT12", big-endian flag set.
pub const PIX_FMT_NV12M_10BE_8L128: u32 = 0xB231544E;

/// Code "BA81".
pub const PIX_FMT_SBGGR8: u32 = 0x31384142;

/// Code "GBRG".
pub const PIX_FMT_SGBRG8: u32 = 0x47524247;

/// Code "GRBG".
pub const PIX_FMT_SGRBG8: u32 = 0x47425247;

/// Code "RGGB".
pub const PIX_FMT_SRGGB8: u32 = 0x42474752;

/// Code "BG10".
pub const PIX_FMT_SBGGR10: u32 = 0x30314742;

/// Code "GB10".
pub const PIX_FMT_SGBRG10: u32 = 0x30314247;

/// Code "BA10".
pub const PIX_FMT_SGRBG10: u32 = 0x30314142;

/// Code "RG10".
pub const PIX_FMT_SRGGB10: u32 = 0x30314752;

/// Code "pBAA".
pub const PIX_FMT_SBGGR10P: u32 = 0x41414270;

/// Code "pGAA".
pub const PIX_FMT_SGBRG10P: u32 = 0x41414770;

/// Code "pgAA".
pub const PIX_FMT_SGRBG10P: u32 = 0x41416770;

/// Code "pRAA".
pub const PIX_FMT_SRGGB10P: u32 = 0x41415270;

/// Code "aBA8".
pub const PIX_FMT_SBGGR10ALAW8: u32 = 0x38414261;

/// Code "aGA8".
pub const PIX_FMT_SGBRG10ALAW8: u32 = 0x38414761;

/// Code "agA8".
pub const PIX_FMT_SGRBG10ALAW8: u32 = 0x38416761;

/// Code "aRA8".
pub const PIX_FMT_SRGGB10ALAW8: u32 = 0x38415261;

/// Code "bBA8".
pub const PIX_FMT_SBGGR10DPCM8: u32 = 0x38414262;

/// Code "bGA8".
pub const PIX_FMT_SGBRG10DPCM8: u32 = 0x38414762;

/// Code "BD10".
pub const PIX_FMT_SGRBG10DPCM8: u32 = 0x30314442;

/// Code "bRA8".
pub const PIX_FMT_SRGGB10DPCM8: u32 = 0x38415262;

/// Code "BG12".
pub const PIX_FMT_SBGGR12: u32 = 0x32314742;

/// Code "GB12".
pub const PIX_FMT_SGBRG12: u32 = 0x32314247;

/// Code "BA12".
pub const PIX_FMT_SGRBG12: u32 = 0x32314142;

/// Code "RG12".
pub const PIX_FMT_SRGGB12: u32 = 0x32314752;

/// Code "pBCC".
pub const PIX_FMT_SBGGR12P: u32 = 0x43434270;

/// Code "pGCC".
pub const PIX_FMT_SGBRG12P: u32 = 0x43434770;

/// Code "pgCC".
pub const PIX_FMT_SGRBG12P: u32 = 0x43436770;

/// Code "pRCC".
pub const PIX_FMT_SRGGB12P: u32 = 0x43435270;

/// Code "BG14".
pub const PIX_FMT_SBGGR14: u32 = 0x34314742;

/// Code "GB14".
pub const PIX_FMT_SGBRG14: u32 = 0x34314247;

/// Code "GR14".
pub const PIX_FMT_SGRBG14: u32 = 0x34315247;

/// Code "RG14".
pub const PIX_FMT_SRGGB14: u32 = 0x34314752;

/// Code "pBEE".
pub const PIX_FMT_SBGGR14P: u32 = 0x45454270;

/// Code "pGEE".
pub const PIX_FMT_SGBRG14P: u32 = 0x45454770;

/// Code "pgEE".
pub const PIX_FMT_SGRBG14P: u32 = 0x45456770;

/// Code "pREE".
pub const PIX_FMT_SRGGB14P: u32 = 0x45455270;

/// Code "BYR2".
pub const PIX_FMT_SBGGR16: u32 = 0x32525942;

/// Code "GB16".
pub const PIX_FMT_SGBRG16: u32 = 0x36314247;

/// Code "GR16".
pub const PIX_FMT_SGRBG16: u32 = 0x36315247;

/// Code "RG16".
pub const PIX_FMT_SRGGB16: u32 = 0x36314752;

/// Code "HSV3".
pub const PIX_FMT_HSV24: u32 = 0x33565348;

/// Code "HSV4".
pub const PIX_FMT_HSV32: u32 = 0x34565348;

/// Code "MJPG".
pub const PIX_FMT_MJPEG: u32 = 0x47504A4D;

/// Code "JPEG".
pub const PIX_FMT_JPEG: u32 = 0x4745504A;

/// Code "dvsd".
pub const PIX_FMT_DV: u32 = 0x64737664;

/// Code "MPEG".
pub const PIX_FMT_MPEG: u32 = 0x4745504D;

/// Code "H264".
pub const PIX_FMT_H264: u32 = 0x34363248;

/// Code "AVC1".
pub const PIX_FMT_H264_NO_SC: u32 = 0x31435641;

/// Code "M264".
pub const PIX_FMT_H264_MVC: u32 = 0x3436324D;

/// Code "H263".
pub const PIX_FMT_H263: u32 = 0x33363248;

/// Code "MPG1".
pub const PIX_FMT_MPEG1: u32 = 0x3147504D;

/// Code "MPG2".
pub const PIX_FMT_MPEG2: u32 = 0x3247504D;

/// Code "MG2S".
pub const PIX_FMT_MPEG2_SLICE: u32 = 0x5332474D;

/// Code "MPG4".
pub const PIX_FMT_MPEG4: u32 = 0x3447504D;

/// Code "XVID".
pub const PIX_FMT_XVID: u32 = 0x44495658;

/// Code "VC1G".
pub const PIX_FMT_VC1_ANNEX_G: u32 = 0x47314356;

/// Code "VC1L".
pub const PIX_FMT_VC1_ANNEX_L: u32 = 0x4C314356;

/// Code "VP80".
pub const PIX_FMT_VP8: u32 = 0x30385056;

/// Code "VP8F".
pub const PIX_FMT_VP8_FRAME: u32 = 0x46385056;

/// Code "VP90".
pub const PIX_FMT_VP9: u32 = 0x30395056;

/// Code "VP9F".
pub const PIX_FMT_VP9_FRAME: u32 = 0x46395056;

/// Code "HEVC".
pub const PIX_FMT_HEVC: u32 = 0x43564548;

/// Code "FWHT".
pub const PIX_FMT_FWHT: u32 = 0x54485746;

/// Code "SFWH".
pub const PIX_FMT_FWHT_STATELESS: u32 = 0x48574653;

/// Code "S264".
pub const PIX_FMT_H264_SLICE: u32 = 0x34363253;

/// Code "S265".
pub const PIX_FMT_HEVC_SLICE: u32 = 0x35363253;

/// Code "AV1F".
pub const PIX_FMT_AV1_FRAME: u32 = 0x46315641;

/// Code "SPK0".
pub const PIX_FMT_SPK: u32 = 0x304B5053;

/// Code "RV30".
pub const PIX_FMT_RV30: u32 = 0x30335652;

/// Code "RV40".
pub const PIX_FMT_RV40: u32 = 0x30345652;

/// Code "CPIA".
pub const PIX_FMT_CPIA1: u32 = 0x41495043;

/// Code "WNVA".
pub const PIX_FMT_WNVA: u32 = 0x41564E57;

/// Code "S910".
pub const PIX_FMT_SN9C10X: u32 = 0x30313953;

/// Code "S920".
pub const PIX_FMT_SN9C20X_I420: u32 = 0x30323953;

/// Code "PWC1".
pub const PIX_FMT_PWC1: u32 = 0x31435750;

/// Code "PWC2".
pub const PIX_FMT_PWC2: u32 = 0x32435750;

/// Code "E625".
pub const PIX_FMT_ET61X251: u32 = 0x35323645;

/// Code "S501".
pub const PIX_FMT_SPCA501: u32 = 0x31303553;

/// Code "S505".
pub const PIX_FMT_SPCA505: u32 = 0x35303553;

/// Code "S508".
pub const PIX_FMT_SPCA508: u32 = 0x38303553;

/// Code "S561".
pub const PIX_FMT_SPCA561: u32 = 0x31363553;

/// Code "P207".
pub const PIX_FMT_PAC207: u32 = 0x37303250;

/// Code "M310".
pub const PIX_FMT_MR97310A: u32 = 0x3031334D;

/// Code "JL20".
pub const PIX_FMT_JL2005BCD: u32 = 0x30324C4A;

/// Code "SONX".
pub const PIX_FMT_SN9C2028: u32 = 0x584E4F53;

/// Code "905C".
pub const PIX_FMT_SQ905C: u32 = 0x43353039;

/// Code "PJPG".
pub const PIX_FMT_PJPG: u32 = 0x47504A50;

/// Code "O511".
pub const PIX_FMT_OV511: u32 = 0x3131354F;

/// Code "O518".
pub const PIX_FMT_OV518: u32 = 0x3831354F;

/// Code "S680".
pub const PIX_FMT_STV0680: u32 = 0x30383653;

/// Code "TM60".
pub const PIX_FMT_TM6000: u32 = 0x30364D54;

/// Code "CITV".
pub const PIX_FMT_CIT_YYVYUY: u32 = 0x56544943;

/// Code "KONI".
pub const PIX_FMT_KONICA420: u32 = 0x494E4F4B;

/// Code "JPGL".
pub const PIX_FMT_JPGL: u32 = 0x4C47504A;

/// Code "S401".
pub const PIX_FMT_SE401: u32 = 0x31303453;

/// Code "S5CI".
pub const PIX_FMT_S5C_UYVY_JPG: u32 = 0x49433553;

/// Code "Y8I ".
pub const PIX_FMT_Y8I: u32 = 0x20493859;

/// Code "Y12I".
pub const PIX_FMT_Y12I: u32 = 0x49323159;

/// Code "Z16 ".
pub const PIX_FMT_Z16: u32 = 0x2036315A;

/// Code "MT21".
pub const PIX_FMT_MT21C: u32 = 0x3132544D;

/// Code "MM21".
pub const PIX_FMT_MM21: u32 = 0x31324D4D;

/// Code "MT2T".
pub const PIX_FMT_MT2110T: u32 = 0x5432544D;

/// Code "MT2R".
pub const PIX_FMT_MT2110R: u32 = 0x5232544D;

/// Code "INZI".
pub const PIX_FMT_INZI: u32 = 0x495A4E49;

/// Code "CNF4".
pub const PIX_FMT_CNF4: u32 = 0x34464E43;

/// Code "HI24".
pub const PIX_FMT_HI240: u32 = 0x34324948;

/// Code "Q08C".
pub const PIX_FMT_QC08C: u32 = 0x43383051;

/// Code "Q10C".
pub const PIX_FMT_QC10C: u32 = 0x43303151;

/// Code "AJPG".
pub const PIX_FMT_AJPG: u32 = 0x47504A41;

/// Code "HXTL".
pub const PIX_FMT_HEXTILE: u32 = 0x4C545848;

/// Code "ip3b".
pub const PIX_FMT_IPU3_SBGGR10: u32 = 0x62337069;

/// Code "ip3g".
pub const PIX_FMT_IPU3_SGBRG10: u32 = 0x67337069;

/// Code "ip3G".
pub const PIX_FMT_IPU3_SGRBG10: u32 = 0x47337069;

/// Code "ip3r".
pub const PIX_FMT_IPU3_SRGGB10: u32 = 0x72337069;

/// The symbolic registry name of a pixel-format code, or "unknown" for
/// a code outside the registry.
pub open spec fn spec_pixel_format_name(format: u32) -> Seq<char> {
    if format == PIX_FMT_RGB332 {
        "V4L2_PIX_FMT_RGB332"@
    } else if format == PIX_FMT_RGB444 {
        "V4L2_PIX_FMT_RGB444"@
    } else if format == PIX_FMT_ARGB444 {
        "V4L2_PIX_FMT_ARGB444"@
    } else if format == PIX_FMT_XRGB444 {
        "V4L2_PIX_FMT_XRGB444"@
    } else if format == PIX_FMT_RGBA444 {
        "V4L2_PIX_FMT_RGBA444"@
    } else if format == PIX_FMT_RGBX444 {
        "V4L2_PIX_FMT_RGBX444"@
    } else if format == PIX_FMT_ABGR444 {
        "V4L2_PIX_FMT_ABGR444"@
    } else if format == PIX_FMT_XBGR444 {
        "V4L2_PIX_FMT_XBGR444"@
    } else if format == PIX_FMT_BGRA444 {
        "V4L2_PIX_FMT_BGRA444"@
    } else if format == PIX_FMT_BGRX444 {
        "V4L2_PIX_FMT_BGRX444"@
    } else if format == PIX_FMT_RGB555 {
        "V4L2_PIX_FMT_RGB555"@
    } else if format == PIX_FMT_ARGB555 {
        "V4L2_PIX_FMT_ARGB555"@
    } else if format == PIX_FMT_XRGB555 {
        "V4L2_PIX_FMT_XRGB555"@
    } else if format == PIX_FMT_RGBA555 {
        "V4L2_PIX_FMT_RGBA555"@
    } else if format == PIX_FMT_RGBX555 {
        "V4L2_PIX_FMT_RGBX555"@
    } else if format == PIX_FMT_ABGR555 {
        "V4L2_PIX_FMT_ABGR555"@
    } else if format == PIX_FMT_XBGR555 {
        "V4L2_PIX_FMT_XBGR555"@
    } else if format == PIX_FMT_BGRA555 {
        "V4L2_PIX_FMT_BGRA555"@
    } else if format == PIX_FMT_BGRX555 {
        "V4L2_PIX_FMT_BGRX555"@
    } else if format == PIX_FMT_RGB565 {
        "V4L2_PIX_FMT_RGB565"@
    } else if format == PIX_FMT_RGB555X {
        "V4L2_PIX_FMT_RGB555X"@
    } else if format == PIX_FMT_ARGB555X {
        "V4L2_PIX_FMT_ARGB555X"@
    } else if format == PIX_FMT_XRGB555X {
        "V4L2_PIX_FMT_XRGB555X"@
    } else if format == PIX_FMT_RGB565X {
        "V4L2_PIX_FMT_RGB565X"@
    } else if format == PIX_FMT_BGR666 {
        "V4L2_PIX_FMT_BGR666"@
    } else if format == PIX_FMT_BGR24 {
        "V4L2_PIX_FMT_BGR24"@
    } else if format == PIX_FMT_RGB24 {
        "V4L2_PIX_FMT_RGB24"@
    } else if format == PIX_FMT_BGR32 {
        "V4L2_PIX_FMT_BGR32"@
    } else if format == PIX_FMT_ABGR32 {
        "V4L2_PIX_FMT_ABGR32"@
    } else if format == PIX_FMT_XBGR32 {
        "V4L2_PIX_FMT_XBGR32"@
    } else if format == PIX_FMT_BGRA32 {
        "V4L2_PIX_FMT_BGRA32"@
    } else if format == PIX_FMT_BGRX32 {
        "V4L2_PIX_FMT_BGRX32"@
    } else if format == PIX_FMT_RGB32 {
        "V4L2_PIX_FMT_RGB32"@
    } else if format == PIX_FMT_RGBA32 {
        "V4L2_PIX_FMT_RGBA32"@
    } else if format == PIX_FMT_RGBX32 {
        "V4L2_PIX_FMT_RGBX32"@
    } else if format == PIX_FMT_ARGB32 {
        "V4L2_PIX_FMT_ARGB32"@
    } else if format == PIX_FMT_XRGB32 {
        "V4L2_PIX_FMT_XRGB32"@
    } else if format == PIX_FMT_RGBX1010102 {
        "V4L2_PIX_FMT_RGBX1010102"@
    } else if format == PIX_FMT_RGBA1010102 {
        "V4L2_PIX_FMT_RGBA1010102"@
    } else if format == PIX_FMT_ARGB2101010 {
        "V4L2_PIX_FMT_ARGB2101010"@
    } else if format == PIX_FMT_BGR48_12 {
        "V4L2_PIX_FMT_BGR48_12"@
    } else if format == PIX_FMT_ABGR64_12 {
        "V4L2_PIX_FMT_ABGR64_12"@
    } else if format == PIX_FMT_GREY {
        "V4L2_PIX_FMT_GREY"@
    } else if format == PIX_FMT_Y4 {
        "V4L2_PIX_FMT_Y4"@
    } else if format == PIX_FMT_Y6 {
        "V4L2_PIX_FMT_Y6"@
    } else if format == PIX_FMT_Y10 {
        "V4L2_PIX_FMT_Y10"@
    } else if format == PIX_FMT_Y12 {
        "V4L2_PIX_FMT_Y12"@
    } else if format == PIX_FMT_Y012 {
        "V4L2_PIX_FMT_Y012"@
    } else if format == PIX_FMT_Y14 {
        "V4L2_PIX_FMT_Y14"@
    } else if format == PIX_FMT_Y16 {
        "V4L2_PIX_FMT_Y16"@
    } else if format == PIX_FMT_Y16_BE {
        "V4L2_PIX_FMT_Y16_BE"@
    } else if format == PIX_FMT_Y10BPACK {
        "V4L2_PIX_FMT_Y10BPACK"@
    } else if format == PIX_FMT_Y10P {
        "V4L2_PIX_FMT_Y10P"@
    } else if format == PIX_FMT_IPU3_Y10 {
        "V4L2_PIX_FMT_IPU3_Y10"@
    } else if format == PIX_FMT_PAL8 {
        "V4L2_PIX_FMT_PAL8"@
    } else if format == PIX_FMT_UV8 {
        "V4L2_PIX_FMT_UV8"@
    } else if format == PIX_FMT_YUYV {
        "V4L2_PIX_FMT_YUYV"@
    } else if format == PIX_FMT_YYUV {
        "V4L2_PIX_FMT_YYUV"@
    } else if format == PIX_FMT_YVYU {
        "V4L2_PIX_FMT_YVYU"@
    } else if format == PIX_FMT_UYVY {
        "V4L2_PIX_FMT_UYVY"@
    } else if format == PIX_FMT_VYUY {
        "V4L2_PIX_FMT_VYUY"@
    } else if format == PIX_FMT_Y41P {
        "V4L2_PIX_FMT_Y41P"@
    } else if format == PIX_FMT_YUV444 {
        "V4L2_PIX_FMT_YUV444"@
    } else if format == PIX_FMT_YUV555 {
        "V4L2_PIX_FMT_YUV555"@
    } else if format == PIX_FMT_YUV565 {
        "V4L2_PIX_FMT_YUV565"@
    } else if format == PIX_FMT_YUV24 {
        "V4L2_PIX_FMT_YUV24"@
    } else if format == PIX_FMT_YUV32 {
        "V4L2_PIX_FMT_YUV32"@
    } else if format == PIX_FMT_AYUV32 {
        "V4L2_PIX_FMT_AYUV32"@
    } else if format == PIX_FMT_XYUV32 {
        "V4L2_PIX_FMT_XYUV32"@
    } else if format == PIX_FMT_VUYA32 {
        "V4L2_PIX_FMT_VUYA32"@
    } else if format == PIX_FMT_VUYX32 {
        "V4L2_PIX_FMT_VUYX32"@
    } else if format == PIX_FMT_YUVA32 {
        "V4L2_PIX_FMT_YUVA32"@
    } else if format == PIX_FMT_YUVX32 {
        "V4L2_PIX_FMT_YUVX32"@
    } else if format == PIX_FMT_M420 {
        "V4L2_PIX_FMT_M420"@
    } else if format == PIX_FMT_YUV48_12 {
        "V4L2_PIX_FMT_YUV48_12"@
    } else if format == PIX_FMT_Y210 {
        "V4L2_PIX_FMT_Y210"@
    } else if format == PIX_FMT_Y212 {
        "V4L2_PIX_FMT_Y212"@
    } else if format == PIX_FMT_Y216 {
        "V4L2_PIX_FMT_Y216"@
    } else if format == PIX_FMT_NV12 {
        "V4L2_PIX_FMT_NV12"@
    } else if format == PIX_FMT_NV21 {
        "V4L2_PIX_FMT_NV21"@
    } else if format == PIX_FMT_NV16 {
        "V4L2_PIX_FMT_NV16"@
    } else if format == PIX_FMT_NV61 {
        "V4L2_PIX_FMT_NV61"@
    } else if format == PIX_FMT_NV24 {
        "V4L2_PIX_FMT_NV24"@
    } else if format == PIX_FMT_NV42 {
        "V4L2_PIX_FMT_NV42"@
    } else if format == PIX_FMT_P010 {
        "V4L2_PIX_FMT_P010"@
    } else if format == PIX_FMT_P012 {
        "V4L2_PIX_FMT_P012"@
    } else if format == PIX_FMT_NV12M {
        "V4L2_PIX_FMT_NV12M"@
    } else if format == PIX_FMT_NV21M {
        "V4L2_PIX_FMT_NV21M"@
    } else if format == PIX_FMT_NV16M {
        "V4L2_PIX_FMT_NV16M"@
    } else if format == PIX_FMT_NV61M {
        "V4L2_PIX_FMT_NV61M"@
    } else if format == PIX_FMT_P012M {
        "V4L2_PIX_FMT_P012M"@
    } else if format == PIX_FMT_YUV410 {
        "V4L2_PIX_FMT_YUV410"@
    } else if format == PIX_FMT_YVU410 {
        "V4L2_PIX_FMT_YVU410"@
    } else if format == PIX_FMT_YUV411P {
        "V4L2_PIX_FMT_YUV411P"@
    } else if format == PIX_FMT_YUV420 {
        "V4L2_PIX_FMT_YUV420"@
    } else if format == PIX_FMT_YVU420 {
        "V4L2_PIX_FMT_YVU420"@
    } else if format == PIX_FMT_YUV422P {
        "V4L2_PIX_FMT_YUV422P"@
    } else if format == PIX_FMT_YUV420M {
        "V4L2_PIX_FMT_YUV420M"@
    } else if format == PIX_FMT_YVU420M {
        "V4L2_PIX_FMT_YVU420M"@
    } else if format == PIX_FMT_YUV422M {
        "V4L2_PIX_FMT_YUV422M"@
    } else if format == PIX_FMT_YVU422M {
        "V4L2_PIX_FMT_YVU422M"@
    } else if format == PIX_FMT_YUV444M {
        "V4L2_PIX_FMT_YUV444M"@
    } else if format == PIX_FMT_YVU444M {
        "V4L2_PIX_FMT_YVU444M"@
    } else if format == PIX_FMT_NV12_4L4 {
        "V4L2_PIX_FMT_NV12_4L4"@
    } else if format == PIX_FMT_NV12_16L16 {
        "V4L2_PIX_FMT_NV12_16L16"@
    } else if format == PIX_FMT_NV12_32L32 {
        "V4L2_PIX_FMT_NV12_32L32"@
    } else if format == PIX_FMT_NV15_4L4 {
        "V4L2_PIX_FMT_NV15_4L4"@
    } else if format == PIX_FMT_P010_4L4 {
        "V4L2_PIX_FMT_P010_4L4"@
    } else if format == PIX_FMT_NV12_8L128 {
        "V4L2_PIX_FMT_NV12_8L128"@
    } else if format == PIX_FMT_NV12_10BE_8L128 {
        "V4L2_PIX_FMT_NV12_10BE_8L128"@
    } else if format == PIX_FMT_NV12MT {
        "V4L2_PIX_FMT_NV12MT"@
    } else if format == PIX_FMT_NV12MT_16X16 {
        "V4L2_PIX_FMT_NV12MT_16X16"@
    } else if format == PIX_FMT_NV12M_8L128 {
        "V4L2_PIX_FMT_NV12M_8L128"@
    } else if format == PIX_FMT_NV12M_10BE_8L128 {
        "V4L2_PIX_FMT_NV12M_10BE_8L128"@
    } else if format == PIX_FMT_SBGGR8 {
        "V4L2_PIX_FMT_SBGGR8"@
    } else if format == PIX_FMT_SGBRG8 {
        "V4L2_PIX_FMT_SGBRG8"@
    } else if format == PIX_FMT_SGRBG8 {
        "V4L2_PIX_FMT_SGRBG8"@
    } else if format == PIX_FMT_SRGGB8 {
        "V4L2_PIX_FMT_SRGGB8"@
    } else if format == PIX_FMT_SBGGR10 {
        "V4L2_PIX_FMT_SBGGR10"@
    } else if format == PIX_FMT_SGBRG10 {
        "V4L2_PIX_FMT_SGBRG10"@
    } else if format == PIX_FMT_SGRBG10 {
        "V4L2_PIX_FMT_SGRBG10"@
    } else if format == PIX_FMT_SRGGB10 {
        "V4L2_PIX_FMT_SRGGB10"@
    } else if format == PIX_FMT_SBGGR10P {
        "V4L2_PIX_FMT_SBGGR10P"@
    } else if format == PIX_FMT_SGBRG10P {
        "V4L2_PIX_FMT_SGBRG10P"@
    } else if format == PIX_FMT_SGRBG10P {
        "V4L2_PIX_FMT_SGRBG10P"@
    } else if format == PIX_FMT_SRGGB10P {
        "V4L2_PIX_FMT_SRGGB10P"@
    } else if format == PIX_FMT_SBGGR10ALAW8 {
        "V4L2_PIX_FMT_SBGGR10ALAW8"@
    } else if format == PIX_FMT_SGBRG10ALAW8 {
        "V4L2_PIX_FMT_SGBRG10ALAW8"@
    } else if format == PIX_FMT_SGRBG10ALAW8 {
        "V4L2_PIX_FMT_SGRBG10ALAW8"@
    } else if format == PIX_FMT_SRGGB10ALAW8 {
        "V4L2_PIX_FMT_SRGGB10ALAW8"@
    } else if format == PIX_FMT_SBGGR10DPCM8 {
        "V4L2_PIX_FMT_SBGGR10DPCM8"@
    } else if format == PIX_FMT_SGBRG10DPCM8 {
        "V4L2_PIX_FMT_SGBRG10DPCM8"@
    } else if format == PIX_FMT_SGRBG10DPCM8 {
        "V4L2_PIX_FMT_SGRBG10DPCM8"@
    } else if format == PIX_FMT_SRGGB10DPCM8 {
        "V4L2_PIX_FMT_SRGGB10DPCM8"@
    } else if format == PIX_FMT_SBGGR12 {
        "V4L2_PIX_FMT_SBGGR12"@
    } else if format == PIX_FMT_SGBRG12 {
        "V4L2_PIX_FMT_SGBRG12"@
    } else if format == PIX_FMT_SGRBG12 {
        "V4L2_PIX_FMT_SGRBG12"@
    } else if format == PIX_FMT_SRGGB12 {
        "V4L2_PIX_FMT_SRGGB12"@
    } else if format == PIX_FMT_SBGGR12P {
        "V4L2_PIX_FMT_SBGGR12P"@
    } else if format == PIX_FMT_SGBRG12P {
        "V4L2_PIX_FMT_SGBRG12P"@
    } else if format == PIX_FMT_SGRBG12P {
        "V4L2_PIX_FMT_SGRBG12P"@
    } else if format == PIX_FMT_SRGGB12P {
        "V4L2_PIX_FMT_SRGGB12P"@
    } else if format == PIX_FMT_SBGGR14 {
        "V4L2_PIX_FMT_SBGGR14"@
    } else if format == PIX_FMT_SGBRG14 {
        "V4L2_PIX_FMT_SGBRG14"@
    } else if format == PIX_FMT_SGRBG14 {
        "V4L2_PIX_FMT_SGRBG14"@
    } else if format == PIX_FMT_SRGGB14 {
        "V4L2_PIX_FMT_SRGGB14"@
    } else if format == PIX_FMT_SBGGR14P {
        "V4L2_PIX_FMT_SBGGR14P"@
    } else if format == PIX_FMT_SGBRG14P {
        "V4L2_PIX_FMT_SGBRG14P"@
    } else if format == PIX_FMT_SGRBG14P {
        "V4L2_PIX_FMT_SGRBG14P"@
    } else if format == PIX_FMT_SRGGB14P {
        "V4L2_PIX_FMT_SRGGB14P"@
    } else if format == PIX_FMT_SBGGR16 {
        "V4L2_PIX_FMT_SBGGR16"@
    } else if format == PIX_FMT_SGBRG16 {
        "V4L2_PIX_FMT_SGBRG16"@
    } else if format == PIX_FMT_SGRBG16 {
        "V4L2_PIX_FMT_SGRBG16"@
    } else if format == PIX_FMT_SRGGB16 {
        "V4L2_PIX_FMT_SRGGB16"@
    } else if format == PIX_FMT_HSV24 {
        "V4L2_PIX_FMT_HSV24"@
    } else if format == PIX_FMT_HSV32 {
        "V4L2_PIX_FMT_HSV32"@
    } else if format == PIX_FMT_MJPEG {
        "V4L2_PIX_FMT_MJPEG"@
    } else if format == PIX_FMT_JPEG {
        "V4L2_PIX_FMT_JPEG"@
    } else if format == PIX_FMT_DV {
        "V4L2_PIX_FMT_DV"@
    } else if format == PIX_FMT_MPEG {
        "V4L2_PIX_FMT_MPEG"@
    } else if format == PIX_FMT_H264 {
        "V4L2_PIX_FMT_H264"@
    } else if format == PIX_FMT_H264_NO_SC {
        "V4L2_PIX_FMT_H264_NO_SC"@
    } else if format == PIX_FMT_H264_MVC {
        "V4L2_PIX_FMT_H264_MVC"@
    } else if format == PIX_FMT_H263 {
        "V4L2_PIX_FMT_H263"@
    } else if format == PIX_FMT_MPEG1 {
        "V4L2_PIX_FMT_MPEG1"@
    } else if format == PIX_FMT_MPEG2 {
        "V4L2_PIX_FMT_MPEG2"@
    } else if format == PIX_FMT_MPEG2_SLICE {
        "V4L2_PIX_FMT_MPEG2_SLICE"@
    } else if format == PIX_FMT_MPEG4 {
        "V4L2_PIX_FMT_MPEG4"@
    } else if format == PIX_FMT_XVID {
        "V4L2_PIX_FMT_XVID"@
    } else if format == PIX_FMT_VC1_ANNEX_G {
        "V4L2_PIX_FMT_VC1_ANNEX_G"@
    } else if format == PIX_FMT_VC1_ANNEX_L {
        "V4L2_PIX_FMT_VC1_ANNEX_L"@
    } else if format == PIX_FMT_VP8 {
        "V4L2_PIX_FMT_VP8"@
    } else if format == PIX_FMT_VP8_FRAME {
        "V4L2_PIX_FMT_VP8_FRAME"@
    } else if format == PIX_FMT_VP9 {
        "V4L2_PIX_FMT_VP9"@
    } else if format == PIX_FMT_VP9_FRAME {
        "V4L2_PIX_FMT_VP9_FRAME"@
    } else if format == PIX_FMT_HEVC {
        "V4L2_PIX_FMT_HEVC"@
    } else if format == PIX_FMT_FWHT {
        "V4L2_PIX_FMT_FWHT"@
    } else if format == PIX_FMT_FWHT_STATELESS {
        "V4L2_PIX_FMT_FWHT_STATELESS"@
    } else if format == PIX_FMT_H264_SLICE {
        "V4L2_PIX_FMT_H264_SLICE"@
    } else if format == PIX_FMT_HEVC_SLICE {
        "V4L2_PIX_FMT_HEVC_SLICE"@
    } else if format == PIX_FMT_AV1_FRAME {
        "V4L2_PIX_FMT_AV1_FRAME"@
    } else if format == PIX_FMT_SPK {
        "V4L2_PIX_FMT_SPK"@
    } else if format == PIX_FMT_RV30 {
        "V4L2_PIX_FMT_RV30"@
    } else if format == PIX_FMT_RV40 {
        "V4L2_PIX_FMT_RV40"@
    } else if format == PIX_FMT_CPIA1 {
        "V4L2_PIX_FMT_CPIA1"@
    } else if format == PIX_FMT_WNVA {
        "V4L2_PIX_FMT_WNVA"@
    } else if format == PIX_FMT_SN9C10X {
        "V4L2_PIX_FMT_SN9C10X"@
    } else if format == PIX_FMT_SN9C20X_I420 {
        "V4L2_PIX_FMT_SN9C20X_I420"@
    } else if format == PIX_FMT_PWC1 {
        "V4L2_PIX_FMT_PWC1"@
    } else if format == PIX_FMT_PWC2 {
        "V4L2_PIX_FMT_PWC2"@
    } else if format == PIX_FMT_ET61X251 {
        "V4L2_PIX_FMT_ET61X251"@
    } else if format == PIX_FMT_SPCA501 {
        "V4L2_PIX_FMT_SPCA501"@
    } else if format == PIX_FMT_SPCA505 {
        "V4L2_PIX_FMT_SPCA505"@
    } else if format == PIX_FMT_SPCA508 {
        "V4L2_PIX_FMT_SPCA508"@
    } else if format == PIX_FMT_SPCA561 {
        "V4L2_PIX_FMT_SPCA561"@
    } else if format == PIX_FMT_PAC207 {
        "V4L2_PIX_FMT_PAC207"@
    } else if format == PIX_FMT_MR97310A {
        "V4L2_PIX_FMT_MR97310A"@
    } else if format == PIX_FMT_JL2005BCD {
        "V4L2_PIX_FMT_JL2005BCD"@
    } else if format == PIX_FMT_SN9C2028 {
        "V4L2_PIX_FMT_SN9C2028"@
    } else if format == PIX_FMT_SQ905C {
        "V4L2_PIX_FMT_SQ905C"@
    } else if format == PIX_FMT_PJPG {
        "V4L2_PIX_FMT_PJPG"@
    } else if format == PIX_FMT_OV511 {
        "V4L2_PIX_FMT_OV511"@
    } else if format == PIX_FMT_OV518 {
        "V4L2_PIX_FMT_OV518"@
    } else if format == PIX_FMT_STV0680 {
        "V4L2_PIX_FMT_STV0680"@
    } else if format == PIX_FMT_TM6000 {
        "V4L2_PIX_FMT_TM6000"@
    } else if format == PIX_FMT_CIT_YYVYUY {
        "V4L2_PIX_FMT_CIT_YYVYUY"@
    } else if format == PIX_FMT_KONICA420 {
        "V4L2_PIX_FMT_KONICA420"@
    } else if format == PIX_FMT_JPGL {
        "V4L2_PIX_FMT_JPGL"@
    } else if format == PIX_FMT_SE401 {
        "V4L2_PIX_FMT_SE401"@
    } else if format == PIX_FMT_S5C_UYVY_JPG {
        "V4L2_PIX_FMT_S5C_UYVY_JPG"@
    } else if format == PIX_FMT_Y8I {
        "V4L2_PIX_FMT_Y8I"@
    } else if format == PIX_FMT_Y12I {
        "V4L2_PIX_FMT_Y12I"@
    } else if format == PIX_FMT_Z16 {
        "V4L2_PIX_FMT_Z16"@
    } else if format == PIX_FMT_MT21C {
        "V4L2_PIX_FMT_MT21C"@
    } else if format == PIX_FMT_MM21 {
        "V4L2_PIX_FMT_MM21"@
    } else if format == PIX_FMT_MT2110T {
        "V4L2_PIX_FMT_MT2110T"@
    } else if format == PIX_FMT_MT2110R {
        "V4L2_PIX_FMT_MT2110R"@
    } else if format == PIX_FMT_INZI {
        "V4L2_PIX_FMT_INZI"@
    } else if format == PIX_FMT_CNF4 {
        "V4L2_PIX_FMT_CNF4"@
    } else if format == PIX_FMT_HI240 {
        "V4L2_PIX_FMT_HI240"@
    } else if format == PIX_FMT_QC08C {
        "V4L2_PIX_FMT_QC08C"@
    } else if format == PIX_FMT_QC10C {
        "V4L2_PIX_FMT_QC10C"@
    } else if format == PIX_FMT_AJPG {
        "V4L2_PIX_FMT_AJPG"@
    } else if format == PIX_FMT_HEXTILE {
        "V4L2_PIX_FMT_HEXTILE"@
    } else if format == PIX_FMT_IPU3_SBGGR10 {
        "V4L2_PIX_FMT_IPU3_SBGGR10"@
    } else if format == PIX_FMT_IPU3_SGBRG10 {
        "V4L2_PIX_FMT_IPU3_SGBRG10"@
    } else if format == PIX_FMT_IPU3_SGRBG10 {
        "V4L2_PIX_FMT_IPU3_SGRBG10"@
    } else if format == PIX_FMT_IPU3_SRGGB10 {
        "V4L2_PIX_FMT_IPU3_SRGGB10"@
    } else {
        "unknown"@
    }
}

/// Names a pixel-format code after its symbolic registry entry;
/// returns "unknown" for a code outside the registry.
pub fn pixel_format_to_string(format: u32) -> (r: &'static str)
    ensures
        r@ == spec_pixel_format_name(format),
{
    if format == PIX_FMT_RGB332 {
        "V4L2_PIX_FMT_RGB332"
    } else if format == PIX_FMT_RGB444 {
        "V4L2_PIX_FMT_RGB444"
    } else if format == PIX_FMT_ARGB444 {
        "V4L2_PIX_FMT_ARGB444"
    } else if format == PIX_FMT_XRGB444 {
        "V4L2_PIX_FMT_XRGB444"
    } else if format == PIX_FMT_RGBA444 {
        "V4L2_PIX_FMT_RGBA444"
    } else if format == PIX_FMT_RGBX444 {
        "V4L2_PIX_FMT_RGBX444"
    } else if format == PIX_FMT_ABGR444 {
        "V4L2_PIX_FMT_ABGR444"
    } else if format == PIX_FMT_XBGR444 {
        "V4L2_PIX_FMT_XBGR444"
    } else if format == PIX_FMT_BGRA444 {
        "V4L2_PIX_FMT_BGRA444"
    } else if format == PIX_FMT_BGRX444 {
        "V4L2_PIX_FMT_BGRX444"
    } else if format == PIX_FMT_RGB555 {
        "V4L2_PIX_FMT_RGB555"
    } else if format == PIX_FMT_ARGB555 {
        "V4L2_PIX_FMT_ARGB555"
    } else if format == PIX_FMT_XRGB555 {
        "V4L2_PIX_FMT_XRGB555"
    } else if format == PIX_FMT_RGBA555 {
        "V4L2_PIX_FMT_RGBA555"
    } else if format == PIX_FMT_RGBX555 {
        "V4L2_PIX_FMT_RGBX555"
    } else if format == PIX_FMT_ABGR555 {
        "V4L2_PIX_FMT_ABGR555"
    } else if format == PIX_FMT_XBGR555 {
        "V4L2_PIX_FMT_XBGR555"
    } else if format == PIX_FMT_BGRA555 {
        "V4L2_PIX_FMT_BGRA555"
    } else if format == PIX_FMT_BGRX555 {
        "V4L2_PIX_FMT_BGRX555"
    } else if format == PIX_FMT_RGB565 {
        "V4L2_PIX_FMT_RGB565"
    } else if format == PIX_FMT_RGB555X {
        "V4L2_PIX_FMT_RGB555X"
    } else if format == PIX_FMT_ARGB555X {
        "V4L2_PIX_FMT_ARGB555X"
    } else if format == PIX_FMT_XRGB555X {
        "V4L2_PIX_FMT_XRGB555X"
    } else if format == PIX_FMT_RGB565X {
        "V4L2_PIX_FMT_RGB565X"
    } else if format == PIX_FMT_BGR666 {
        "V4L2_PIX_FMT_BGR666"
    } else if format == PIX_FMT_BGR24 {
        "V4L2_PIX_FMT_BGR24"
    } else if format == PIX_FMT_RGB24 {
        "V4L2_PIX_FMT_RGB24"
    } else if format == PIX_FMT_BGR32 {
        "V4L2_PIX_FMT_BGR32"
    } else if format == PIX_FMT_ABGR32 {
        "V4L2_PIX_FMT_ABGR32"
    } else if format == PIX_FMT_XBGR32 {
        "V4L2_PIX_FMT_XBGR32"
    } else if format == PIX_FMT_BGRA32 {
        "V4L2_PIX_FMT_BGRA32"
    } else if format == PIX_FMT_BGRX32 {
        "V4L2_PIX_FMT_BGRX32"
    } else if format == PIX_FMT_RGB32 {
        "V4L2_PIX_FMT_RGB32"
    } else if format == PIX_FMT_RGBA32 {
        "V4L2_PIX_FMT_RGBA32"
    } else if format == PIX_FMT_RGBX32 {
        "V4L2_PIX_FMT_RGBX32"
    } else if format == PIX_FMT_ARGB32 {
        "V4L2_PIX_FMT_ARGB32"
    } else if format == PIX_FMT_XRGB32 {
        "V4L2_PIX_FMT_XRGB32"
    } else if format == PIX_FMT_RGBX1010102 {
        "V4L2_PIX_FMT_RGBX1010102"
    } else if format == PIX_FMT_RGBA1010102 {
        "V4L2_PIX_FMT_RGBA1010102"
    } else if format == PIX_FMT_ARGB2101010 {
        "V4L2_PIX_FMT_ARGB2101010"
    } else if format == PIX_FMT_BGR48_12 {
        "V4L2_PIX_FMT_BGR48_12"
    } else if format == PIX_FMT_ABGR64_12 {
        "V4L2_PIX_FMT_ABGR64_12"
    } else if format == PIX_FMT_GREY {
        "V4L2_PIX_FMT_GREY"
    } else if format == PIX_FMT_Y4 {
        "V4L2_PIX_FMT_Y4"
    } else if format == PIX_FMT_Y6 {
        "V4L2_PIX_FMT_Y6"
    } else if format == PIX_FMT_Y10 {
        "V4L2_PIX_FMT_Y10"
    } else if format == PIX_FMT_Y12 {
        "V4L2_PIX_FMT_Y12"
    } else if format == PIX_FMT_Y012 {
        "V4L2_PIX_FMT_Y012"
    } else if format == PIX_FMT_Y14 {
        "V4L2_PIX_FMT_Y14"
    } else if format == PIX_FMT_Y16 {
        "V4L2_PIX_FMT_Y16"
    } else if format == PIX_FMT_Y16_BE {
        "V4L2_PIX_FMT_Y16_BE"
    } else if format == PIX_FMT_Y10BPACK {
        "V4L2_PIX_FMT_Y10BPACK"
    } else if format == PIX_FMT_Y10P {
        "V4L2_PIX_FMT_Y10P"
    } else if format == PIX_FMT_IPU3_Y10 {
        "V4L2_PIX_FMT_IPU3_Y10"
    } else if format == PIX_FMT_PAL8 {
        "V4L2_PIX_FMT_PAL8"
    } else if format == PIX_FMT_UV8 {
        "V4L2_PIX_FMT_UV8"
    } else if format == PIX_FMT_YUYV {
        "V4L2_PIX_FMT_YUYV"
    } else if format == PIX_FMT_YYUV {
        "V4L2_PIX_FMT_YYUV"
    } else if format == PIX_FMT_YVYU {
        "V4L2_PIX_FMT_YVYU"
    } else if format == PIX_FMT_UYVY {
        "V4L2_PIX_FMT_UYVY"
    } else if format == PIX_FMT_VYUY {
        "V4L2_PIX_FMT_VYUY"
    } else if format == PIX_FMT_Y41P {
        "V4L2_PIX_FMT_Y41P"
    } else if format == PIX_FMT_YUV444 {
        "V4L2_PIX_FMT_YUV444"
    } else if format == PIX_FMT_YUV555 {
        "V4L2_PIX_FMT_YUV555"
    } else if format == PIX_FMT_YUV565 {
        "V4L2_PIX_FMT_YUV565"
    } else if format == PIX_FMT_YUV24 {
        "V4L2_PIX_FMT_YUV24"
    } else if format == PIX_FMT_YUV32 {
        "V4L2_PIX_FMT_YUV32"
    } else if format == PIX_FMT_AYUV32 {
        "V4L2_PIX_FMT_AYUV32"
    } else if format == PIX_FMT_XYUV32 {
        "V4L2_PIX_FMT_XYUV32"
    } else if format == PIX_FMT_VUYA32 {
        "V4L2_PIX_FMT_VUYA32"
    } else if format == PIX_FMT_VUYX32 {
        "V4L2_PIX_FMT_VUYX32"
    } else if format == PIX_FMT_YUVA32 {
        "V4L2_PIX_FMT_YUVA32"
    } else if format == PIX_FMT_YUVX32 {
        "V4L2_PIX_FMT_YUVX32"
    } else if format == PIX_FMT_M420 {
        "V4L2_PIX_FMT_M420"
    } else if format == PIX_FMT_YUV48_12 {
        "V4L2_PIX_FMT_YUV48_12"
    } else if format == PIX_FMT_Y210 {
        "V4L2_PIX_FMT_Y210"
    } else if format == PIX_FMT_Y212 {
        "V4L2_PIX_FMT_Y212"
    } else if format == PIX_FMT_Y216 {
        "V4L2_PIX_FMT_Y216"
    } else if format == PIX_FMT_NV12 {
        "V4L2_PIX_FMT_NV12"
    } else if format == PIX_FMT_NV21 {
        "V4L2_PIX_FMT_NV21"
    } else if format == PIX_FMT_NV16 {
        "V4L2_PIX_FMT_NV16"
    } else if format == PIX_FMT_NV61 {
        "V4L2_PIX_FMT_NV61"
    } else if format == PIX_FMT_NV24 {
        "V4L2_PIX_FMT_NV24"
    } else if format == PIX_FMT_NV42 {
        "V4L2_PIX_FMT_NV42"
    } else if format == PIX_FMT_P010 {
        "V4L2_PIX_FMT_P010"
    } else if format == PIX_FMT_P012 {
        "V4L2_PIX_FMT_P012"
    } else if format == PIX_FMT_NV12M {
        "V4L2_PIX_FMT_NV12M"
    } else if format == PIX_FMT_NV21M {
        "V4L2_PIX_FMT_NV21M"
    } else if format == PIX_FMT_NV16M {
        "V4L2_PIX_FMT_NV16M"
    } else if format == PIX_FMT_NV61M {
        "V4L2_PIX_FMT_NV61M"
    } else if format == PIX_FMT_P012M {
        "V4L2_PIX_FMT_P012M"
    } else if format == PIX_FMT_YUV410 {
        "V4L2_PIX_FMT_YUV410"
    } else if format == PIX_FMT_YVU410 {
        "V4L2_PIX_FMT_YVU410"
    } else if format == PIX_FMT_YUV411P {
        "V4L2_PIX_FMT_YUV411P"
    } else if format == PIX_FMT_YUV420 {
        "V4L2_PIX_FMT_YUV420"
    } else if format == PIX_FMT_YVU420 {
        "V4L2_PIX_FMT_YVU420"
    } else if format == PIX_FMT_YUV422P {
        "V4L2_PIX_FMT_YUV422P"
    } else if format == PIX_FMT_YUV420M {
        "V4L2_PIX_FMT_YUV420M"
    } else if format == PIX_FMT_YVU420M {
        "V4L2_PIX_FMT_YVU420M"
    } else if format == PIX_FMT_YUV422M {
        "V4L2_PIX_FMT_YUV422M"
    } else if format == PIX_FMT_YVU422M {
        "V4L2_PIX_FMT_YVU422M"
    } else if format == PIX_FMT_YUV444M {
        "V4L2_PIX_FMT_YUV444M"
    } else if format == PIX_FMT_YVU444M {
        "V4L2_PIX_FMT_YVU444M"
    } else if format == PIX_FMT_NV12_4L4 {
        "V4L2_PIX_FMT_NV12_4L4"
    } else if format == PIX_FMT_NV12_16L16 {
        "V4L2_PIX_FMT_NV12_16L16"
    } else if format == PIX_FMT_NV12_32L32 {
        "V4L2_PIX_FMT_NV12_32L32"
    } else if format == PIX_FMT_NV15_4L4 {
        "V4L2_PIX_FMT_NV15_4L4"
    } else if format == PIX_FMT_P010_4L4 {
        "V4L2_PIX_FMT_P010_4L4"
    } else if format == PIX_FMT_NV12_8L128 {
        "V4L2_PIX_FMT_NV12_8L128"
    } else if format == PIX_FMT_NV12_10BE_8L128 {
        "V4L2_PIX_FMT_NV12_10BE_8L128"
    } else if format == PIX_FMT_NV12MT {
        "V4L2_PIX_FMT_NV12MT"
    } else if format == PIX_FMT_NV12MT_16X16 {
        "V4L2_PIX_FMT_NV12MT_16X16"
    } else if format == PIX_FMT_NV12M_8L128 {
        "V4L2_PIX_FMT_NV12M_8L128"
    } else if format == PIX_FMT_NV12M_10BE_8L128 {
        "V4L2_PIX_FMT_NV12M_10BE_8L128"
    } else if format == PIX_FMT_SBGGR8 {
        "V4L2_PIX_FMT_SBGGR8"
    } else if format == PIX_FMT_SGBRG8 {
        "V4L2_PIX_FMT_SGBRG8"
    } else if format == PIX_FMT_SGRBG8 {
        "V4L2_PIX_FMT_SGRBG8"
    } else if format == PIX_FMT_SRGGB8 {
        "V4L2_PIX_FMT_SRGGB8"
    } else if format == PIX_FMT_SBGGR10 {
        "V4L2_PIX_FMT_SBGGR10"
    } else if format == PIX_FMT_SGBRG10 {
        "V4L2_PIX_FMT_SGBRG10"
    } else if format == PIX_FMT_SGRBG10 {
        "V4L2_PIX_FMT_SGRBG10"
    } else if format == PIX_FMT_SRGGB10 {
        "V4L2_PIX_FMT_SRGGB10"
    } else if format == PIX_FMT_SBGGR10P {
        "V4L2_PIX_FMT_SBGGR10P"
    } else if format == PIX_FMT_SGBRG10P {
        "V4L2_PIX_FMT_SGBRG10P"
    } else if format == PIX_FMT_SGRBG10P {
        "V4L2_PIX_FMT_SGRBG10P"
    } else if format == PIX_FMT_SRGGB10P {
        "V4L2_PIX_FMT_SRGGB10P"
    } else if format == PIX_FMT_SBGGR10ALAW8 {
        "V4L2_PIX_FMT_SBGGR10ALAW8"
    } else if format == PIX_FMT_SGBRG10ALAW8 {
        "V4L2_PIX_FMT_SGBRG10ALAW8"
    } else if format == PIX_FMT_SGRBG10ALAW8 {
        "V4L2_PIX_FMT_SGRBG10ALAW8"
    } else if format == PIX_FMT_SRGGB10ALAW8 {
        "V4L2_PIX_FMT_SRGGB10ALAW8"
    } else if format == PIX_FMT_SBGGR10DPCM8 {
        "V4L2_PIX_FMT_SBGGR10DPCM8"
    } else if format == PIX_FMT_SGBRG10DPCM8 {
        "V4L2_PIX_FMT_SGBRG10DPCM8"
    } else if format == PIX_FMT_SGRBG10DPCM8 {
        "V4L2_PIX_FMT_SGRBG10DPCM8"
    } else if format == PIX_FMT_SRGGB10DPCM8 {
        "V4L2_PIX_FMT_SRGGB10DPCM8"
    } else if format == PIX_FMT_SBGGR12 {
        "V4L2_PIX_FMT_SBGGR12"
    } else if format == PIX_FMT_SGBRG12 {
        "V4L2_PIX_FMT_SGBRG12"
    } else if format == PIX_FMT_SGRBG12 {
        "V4L2_PIX_FMT_SGRBG12"
    } else if format == PIX_FMT_SRGGB12 {
        "V4L2_PIX_FMT_SRGGB12"
    } else if format == PIX_FMT_SBGGR12P {
        "V4L2_PIX_FMT_SBGGR12P"
    } else if format == PIX_FMT_SGBRG12P {
        "V4L2_PIX_FMT_SGBRG12P"
    } else if format == PIX_FMT_SGRBG12P {
        "V4L2_PIX_FMT_SGRBG12P"
    } else if format == PIX_FMT_SRGGB12P {
        "V4L2_PIX_FMT_SRGGB12P"
    } else if format == PIX_FMT_SBGGR14 {
        "V4L2_PIX_FMT_SBGGR14"
    } else if format == PIX_FMT_SGBRG14 {
        "V4L2_PIX_FMT_SGBRG14"
    } else if format == PIX_FMT_SGRBG14 {
        "V4L2_PIX_FMT_SGRBG14"
    } else if format == PIX_FMT_SRGGB14 {
        "V4L2_PIX_FMT_SRGGB14"
    } else if format == PIX_FMT_SBGGR14P {
        "V4L2_PIX_FMT_SBGGR14P"
    } else if format == PIX_FMT_SGBRG14P {
        "V4L2_PIX_FMT_SGBRG14P"
    } else if format == PIX_FMT_SGRBG14P {
        "V4L2_PIX_FMT_SGRBG14P"
    } else if format == PIX_FMT_SRGGB14P {
        "V4L2_PIX_FMT_SRGGB14P"
    } else if format == PIX_FMT_SBGGR16 {
        "V4L2_PIX_FMT_SBGGR16"
    } else if format == PIX_FMT_SGBRG16 {
        "V4L2_PIX_FMT_SGBRG16"
    } else if format == PIX_FMT_SGRBG16 {
        "V4L2_PIX_FMT_SGRBG16"
    } else if format == PIX_FMT_SRGGB16 {
        "V4L2_PIX_FMT_SRGGB16"
    } else if format == PIX_FMT_HSV24 {
        "V4L2_PIX_FMT_HSV24"
    } else if format == PIX_FMT_HSV32 {
        "V4L2_PIX_FMT_HSV32"
    } else if format == PIX_FMT_MJPEG {
        "V4L2_PIX_FMT_MJPEG"
    } else if format == PIX_FMT_JPEG {
        "V4L2_PIX_FMT_JPEG"
    } else if format == PIX_FMT_DV {
        "V4L2_PIX_FMT_DV"
    } else if format == PIX_FMT_MPEG {
        "V4L2_PIX_FMT_MPEG"
    } else if format == PIX_FMT_H264 {
        "V4L2_PIX_FMT_H264"
    } else if format == PIX_FMT_H264_NO_SC {
        "V4L2_PIX_FMT_H264_NO_SC"
    } else if format == PIX_FMT_H264_MVC {
        "V4L2_PIX_FMT_H264_MVC"
    } else if format == PIX_FMT_H263 {
        "V4L2_PIX_FMT_H263"
    } else if format == PIX_FMT_MPEG1 {
        "V4L2_PIX_FMT_MPEG1"
    } else if format == PIX_FMT_MPEG2 {
        "V4L2_PIX_FMT_MPEG2"
    } else if format == PIX_FMT_MPEG2_SLICE {
        "V4L2_PIX_FMT_MPEG2_SLICE"
    } else if format == PIX_FMT_MPEG4 {
        "V4L2_PIX_FMT_MPEG4"
    } else if format == PIX_FMT_XVID {
        "V4L2_PIX_FMT_XVID"
    } else if format == PIX_FMT_VC1_ANNEX_G {
        "V4L2_PIX_FMT_VC1_ANNEX_G"
    } else if format == PIX_FMT_VC1_ANNEX_L {
        "V4L2_PIX_FMT_VC1_ANNEX_L"
    } else if format == PIX_FMT_VP8 {
        "V4L2_PIX_FMT_VP8"
    } else if format == PIX_FMT_VP8_FRAME {
        "V4L2_PIX_FMT_VP8_FRAME"
    } else if format == PIX_FMT_VP9 {
        "V4L2_PIX_FMT_VP9"
    } else if format == PIX_FMT_VP9_FRAME {
        "V4L2_PIX_FMT_VP9_FRAME"
    } else if format == PIX_FMT_HEVC {
        "V4L2_PIX_FMT_HEVC"
    } else if format == PIX_FMT_FWHT {
        "V4L2_PIX_FMT_FWHT"
    } else if format == PIX_FMT_FWHT_STATELESS {
        "V4L2_PIX_FMT_FWHT_STATELESS"
    } else if format == PIX_FMT_H264_SLICE {
        "V4L2_PIX_FMT_H264_SLICE"
    } else if format == PIX_FMT_HEVC_SLICE {
        "V4L2_PIX_FMT_HEVC_SLICE"
    } else if format == PIX_FMT_AV1_FRAME {
        "V4L2_PIX_FMT_AV1_FRAME"
    } else if format == PIX_FMT_SPK {
        "V4L2_PIX_FMT_SPK"
    } else if format == PIX_FMT_RV30 {
        "V4L2_PIX_FMT_RV30"
    } else if format == PIX_FMT_RV40 {
        "V4L2_PIX_FMT_RV40"
    } else if format == PIX_FMT_CPIA1 {
        "V4L2_PIX_FMT_CPIA1"
    } else if format == PIX_FMT_WNVA {
        "V4L2_PIX_FMT_WNVA"
    } else if format == PIX_FMT_SN9C10X {
        "V4L2_PIX_FMT_SN9C10X"
    } else if format == PIX_FMT_SN9C20X_I420 {
        "V4L2_PIX_FMT_SN9C20X_I420"
    } else if format == PIX_FMT_PWC1 {
        "V4L2_PIX_FMT_PWC1"
    } else if format == PIX_FMT_PWC2 {
        "V4L2_PIX_FMT_PWC2"
    } else if format == PIX_FMT_ET61X251 {
        "V4L2_PIX_FMT_ET61X251"
    } else if format == PIX_FMT_SPCA501 {
        "V4L2_PIX_FMT_SPCA501"
    } else if format == PIX_FMT_SPCA505 {
        "V4L2_PIX_FMT_SPCA505"
    } else if format == PIX_FMT_SPCA508 {
        "V4L2_PIX_FMT_SPCA508"
    } else if format == PIX_FMT_SPCA561 {
        "V4L2_PIX_FMT_SPCA561"
    } else if format == PIX_FMT_PAC207 {
        "V4L2_PIX_FMT_PAC207"
    } else if format == PIX_FMT_MR97310A {
        "V4L2_PIX_FMT_MR97310A"
    } else if format == PIX_FMT_JL2005BCD {
        "V4L2_PIX_FMT_JL2005BCD"
    } else if format == PIX_FMT_SN9C2028 {
        "V4L2_PIX_FMT_SN9C2028"
    } else if format == PIX_FMT_SQ905C {
        "V4L2_PIX_FMT_SQ905C"
    } else if format == PIX_FMT_PJPG {
        "V4L2_PIX_FMT_PJPG"
    } else if format == PIX_FMT_OV511 {
        "V4L2_PIX_FMT_OV511"
    } else if format == PIX_FMT_OV518 {
        "V4L2_PIX_FMT_OV518"
    } else if format == PIX_FMT_STV0680 {
        "V4L2_PIX_FMT_STV0680"
    } else if format == PIX_FMT_TM6000 {
        "V4L2_PIX_FMT_TM6000"
    } else if format == PIX_FMT_CIT_YYVYUY {
        "V4L2_PIX_FMT_CIT_YYVYUY"
    } else if format == PIX_FMT_KONICA420 {
        "V4L2_PIX_FMT_KONICA420"
    } else if format == PIX_FMT_JPGL {
        "V4L2_PIX_FMT_JPGL"
    } else if format == PIX_FMT_SE401 {
        "V4L2_PIX_FMT_SE401"
    } else if format == PIX_FMT_S5C_UYVY_JPG {
        "V4L2_PIX_FMT_S5C_UYVY_JPG"
    } else if format == PIX_FMT_Y8I {
        "V4L2_PIX_FMT_Y8I"
    } else if format == PIX_FMT_Y12I {
        "V4L2_PIX_FMT_Y12I"
    } else if format == PIX_FMT_Z16 {
        "V4L2_PIX_FMT_Z16"
    } else if format == PIX_FMT_MT21C {
        "V4L2_PIX_FMT_MT21C"
    } else if format == PIX_FMT_MM21 {
        "V4L2_PIX_FMT_MM21"
    } else if format == PIX_FMT_MT2110T {
        "V4L2_PIX_FMT_MT2110T"
    } else if format == PIX_FMT_MT2110R {
        "V4L2_PIX_FMT_MT2110R"
    } else if format == PIX_FMT_INZI {
        "V4L2_PIX_FMT_INZI"
    } else if format == PIX_FMT_CNF4 {
        "V4L2_PIX_FMT_CNF4"
    } else if format == PIX_FMT_HI240 {
        "V4L2_PIX_FMT_HI240"
    } else if format == PIX_FMT_QC08C {
        "V4L2_PIX_FMT_QC08C"
    } else if format == PIX_FMT_QC10C {
        "V4L2_PIX_FMT_QC10C"
    } else if format == PIX_FMT_AJPG {
        "V4L2_PIX_FMT_AJPG"
    } else if format == PIX_FMT_HEXTILE {
        "V4L2_PIX_FMT_HEXTILE"
    } else if format == PIX_FMT_IPU3_SBGGR10 {
        "V4L2_PIX_FMT_IPU3_SBGGR10"
    } else if format == PIX_FMT_IPU3_SGBRG10 {
        "V4L2_PIX_FMT_IPU3_SGBRG10"
    } else if format == PIX_FMT_IPU3_SGRBG10 {
        "V4L2_PIX_FMT_IPU3_SGRBG10"
    } else if format == PIX_FMT_IPU3_SRGGB10 {
        "V4L2_PIX_FMT_IPU3_SRGGB10"
    } else {
        "unknown"
    }
}

/// The decimal digit character for a value below ten.
pub open spec fn spec_digit(d: int) -> char
    recommends
        0 <= d < 10,
{
    if d == 0 {
        '0'
    } else if d == 1 {
        '1'
    } else if d == 2 {
        '2'
    } else if d == 3 {
        '3'
    } else if d == 4 {
        '4'
    } else if d == 5 {
        '5'
    } else if d == 6 {
        '6'
    } else if d == 7 {
        '7'
    } else if d == 8 {
        '8'
    } else {
        '9'
    }
}

/// The decimal digit string of a nonnegative number, most significant
/// digit first, with no leading zeros except for the number zero.
pub open spec fn spec_decimal(n: int) -> Seq<char>
    recommends
        n >= 0,
    decreases n,
{
    if n < 10 {
        seq![spec_digit(n)]
    } else {
        spec_decimal(n / 10).push(spec_digit(n % 10))
    }
}

/// One decimal digit as a string slice.
fn digit_str(d: u32) -> (r: &'static str)
    requires
        d < 10,
    ensures
        r@ == seq![spec_digit(d as int)],
{
    proof {
        reveal_strlit("0");
        reveal_strlit("1");
        reveal_strlit("2");
        reveal_strlit("3");
        reveal_strlit("4");
        reveal_strlit("5");
        reveal_strlit("6");
        reveal_strlit("7");
        reveal_strlit("8");
        reveal_strlit("9");
    }
    let r: &'static str = if d == 0 {
        "0"
    } else if d == 1 {
        "1"
    } else if d == 2 {
        "2"
    } else if d == 3 {
        "3"
    } else if d == 4 {
        "4"
    } else if d == 5 {
        "5"
    } else if d == 6 {
        "6"
    } else if d == 7 {
        "7"
    } else if d == 8 {
        "8"
    } else {
        "9"
    };
    proof {
        assert(r@ =~= seq![spec_digit(d as int)]);
    }
    r
}

/// Appends the decimal digits of `n` to `out`.
fn push_decimal(n: u32, out: &mut String)
    ensures
        final(out)@ == old(out)@ + spec_decimal(n as int),
    decreases n,
{
    if n >= 10 {
        push_decimal(n / 10, out);
        out.append(digit_str(n % 10));
        proof {
            assert(out@ =~= old(out)@ + spec_decimal(n as int));
        }
    } else {
        out.append(digit_str(n));
        proof {
            assert(out@ =~= old(out)@ + spec_decimal(n as int));
        }
    }
}

/// The decimal digit string of a number.
pub fn u32_to_string(n: u32) -> (r: String)
    ensures
        r@ == spec_decimal(n as int),
{
    let mut s = String::new();
    push_decimal(n, &mut s);
    proof {
        assert(s@ =~= spec_decimal(n as int));
    }
    s
}

/// Renders a frame size as "WIDTHxHEIGHT" in decimal.
pub fn size_to_str(size: &(u32, u32)) -> (r: String)
    ensures
        r@ == spec_decimal(size.0 as int) + seq!['x'] + spec_decimal(size.1 as int),
{
    let mut s = u32_to_string(size.0);
    s.append("x");
    let h = u32_to_string(size.1);
    s.append(h.as_str());
    proof {
        reveal_strlit("x");
        assert(s@ =~= spec_decimal(size.0 as int) + seq!['x'] + spec_decimal(size.1 as int));
    }
    s
}

} // verus!
