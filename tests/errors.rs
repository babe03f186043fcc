use r3d_rs::{
    decode_status_result, initialize_status_result, load_status_result, r3d_status_result,
    DecodeStatus, InitializeStatus, LoadStatus, R3DStatus, RedError,
};

#[test]
fn success_codes_are_ok() {
    assert_eq!(decode_status_result(0), Ok(()));
    assert_eq!(r3d_status_result(0), Ok(()));
    assert_eq!(initialize_status_result(0), Ok(()));
    assert_eq!(load_status_result(0), Ok(()));
}

#[test]
fn decode_failures_map_one_to_one() {
    assert_eq!(decode_status_result(1), Err(RedError::OutputBufferInvalid));
    assert_eq!(decode_status_result(3), Err(RedError::RequestOutOfRange));
    assert_eq!(decode_status_result(13), Err(RedError::Cancelled));
    assert_eq!(decode_status_result(16), Err(RedError::DecoderNotOpened));
}

#[test]
fn r3d_failures_map_one_to_one() {
    assert_eq!(r3d_status_result(1), Err(RedError::ErrorProcessing));
    assert_eq!(r3d_status_result(10), Err(RedError::InvalidJobParameterClip));
    assert_eq!(r3d_status_result(14), Err(RedError::ParameterUnsupported));
}

#[test]
fn initialize_and_load_failures_map_one_to_one() {
    assert_eq!(initialize_status_result(17), Err(RedError::RedMetalLibraryNotFound));
    assert_eq!(initialize_status_result(20), Err(RedError::MetalNotAvailable));
    assert_eq!(load_status_result(1), Err(RedError::ClipPathNotFound));
    assert_eq!(load_status_result(8), Err(RedError::ClipNotInitialized));
}

#[test]
fn undocumented_codes_are_unrecognized() {
    assert_eq!(decode_status_result(2), Err(RedError::UnrecognizedStatus(2)));
    assert_eq!(r3d_status_result(15), Err(RedError::UnrecognizedStatus(15)));
    assert_eq!(initialize_status_result(-1), Err(RedError::UnrecognizedStatus(-1)));
    assert_eq!(load_status_result(9), Err(RedError::UnrecognizedStatus(9)));
}

#[test]
fn status_conversion_of_failures() {
    assert_eq!(RedError::from_decode_status(DecodeStatus::IsDroppedFrame), RedError::IsDroppedFrame);
    assert_eq!(RedError::from_r3d_status(R3DStatus::UnableToUseGPUDevice), RedError::UnableToUseGPUDevice);
    assert_eq!(RedError::from_load_status(LoadStatus::OutOfMemory), RedError::ClipOutOfMemory);
    assert_eq!(
        RedError::from_initialize_status(InitializeStatus::InvalidPath),
        RedError::InvalidPath
    );
}

#[test]
fn status_codes_round_trip() {
    assert_eq!(DecodeStatus::from_code(DecodeStatus::Cancelled.code()), Some(DecodeStatus::Cancelled));
    assert_eq!(DecodeStatus::Cancelled.code(), 13);
    assert_eq!(R3DStatus::from_code(99), None);
    assert_eq!(InitializeStatus::RedMetalLibraryNotFound.code(), 17);
}

#[test]
fn messages_of_plain_errors() {
    assert_eq!(RedError::LibraryNotLoaded.message(), "Library not loaded");
    assert_eq!(RedError::InvalidJobParameterClip.message(), "Invalid job parameter: clip");
    assert_eq!(RedError::Other("boom".to_string()).message(), "RED error: boom");
}

#[test]
fn messages_with_numbers() {
    let e = RedError::BufferTooSmall { needed: 100, provided: 10 };
    assert_eq!(e.message(), "Buffer too small: needed 100 bytes, provided 10 bytes");
    assert_eq!(RedError::CudaError(-12).message(), "CUDA error: -12");
    assert_eq!(RedError::OpenCLError(0).message(), "OpenCL error: 0");
    assert_eq!(RedError::UnrecognizedStatus(42).message(), "Unrecognized status code: 42");
}

#[test]
fn allocation_error_message_has_its_prefix() {
    let e = std::alloc::Layout::from_size_align(8, 3).unwrap_err();
    let m = RedError::from(e).message();
    assert!(m.starts_with("Allocation error: "));
    assert!(m.len() > "Allocation error: ".len());
}
