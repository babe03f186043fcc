use r3d_rs::{
    calculate_buffer_size, check_buffer_len, mode_divisor, pixel_info, scaled_dims, FileId, RedError,
    VideoDecodeMode, VideoPixelType,
};

#[test]
fn mode_scaling() {
    assert_eq!(mode_divisor(VideoDecodeMode::FullResPremium), 1);
    assert_eq!(mode_divisor(VideoDecodeMode::QuarterResGood), 4);
    assert_eq!(scaled_dims(8192, 4320, VideoDecodeMode::HalfResGood), (4096, 2160));
    assert_eq!(scaled_dims(100, 50, VideoDecodeMode::SixteenthResGood), (6, 3));
}

#[test]
fn pixel_layouts() {
    assert_eq!(pixel_info(VideoPixelType::Rgb16bitPlanar).channels, 3);
    assert!(!pixel_info(VideoPixelType::Rgb16bitPlanar).interleaved);
    assert_eq!(pixel_info(VideoPixelType::Bgra8bitInterleaved).bpp_or_sample, 4);
}

#[test]
fn buffer_sizes() {
    assert_eq!(
        calculate_buffer_size(8192, 4320, VideoDecodeMode::HalfResGood, VideoPixelType::Rgb16bitInterleaved),
        Some(4096 * 2160 * 6)
    );
    assert_eq!(
        calculate_buffer_size(1920, 1080, VideoDecodeMode::FullResPremium, VideoPixelType::Rgb16bitPlanar),
        Some(1920 * 1080 * 2 * 3)
    );
    assert_eq!(
        calculate_buffer_size(1920, 1080, VideoDecodeMode::EightResGood, VideoPixelType::Bgr8bitInterleaved),
        Some(240 * 135 * 3)
    );
    assert_eq!(
        calculate_buffer_size(10, 10, VideoDecodeMode::SixteenthResGood, VideoPixelType::Dpx10bitMethodB),
        Some(0)
    );
    assert_eq!(
        calculate_buffer_size(u32::MAX, u32::MAX, VideoDecodeMode::FullResPremium, VideoPixelType::Rgb16bitPlanar),
        None
    );
}

#[test]
fn buffer_checks() {
    assert_eq!(check_buffer_len(100, 100), Ok(()));
    assert_eq!(check_buffer_len(100, 200), Ok(()));
    assert_eq!(
        check_buffer_len(100, 10),
        Err(RedError::BufferTooSmall { needed: 100, provided: 10 })
    );
}

#[test]
fn decode_mode_codes() {
    assert_eq!(VideoDecodeMode::HalfResGood.code(), 0x44485247);
    assert_eq!(VideoPixelType::from_code(0x42524138), Some(VideoPixelType::Bgra8bitInterleaved));
    assert_eq!(VideoPixelType::from_code(7), None);
}

#[test]
fn identified_file_kinds() {
    assert_eq!(FileId::from_code(1), FileId::R3D);
    assert_eq!(FileId::from_code(3), FileId::NevNraw);
    assert_eq!(FileId::from_code(4), FileId::R3dNe);
    assert_eq!(FileId::from_code(2), FileId::Unknown);
    assert_eq!(FileId::R3dNe.code(), 4);
}
