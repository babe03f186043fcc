use r3d_rs::{
    cuda_status_result, metal_status_result, opencl_status_result, CudaStatus, MetalStatus,
    OpenClStatus, RedError,
};

#[test]
fn gpu_success_needs_both_codes_clear() {
    assert_eq!(cuda_status_result(0, 0), Ok(()));
    assert_eq!(opencl_status_result(0, 0), Ok(()));
    assert_eq!(metal_status_result(0, 0), Ok(()));
}

#[test]
fn gpu_api_errors_are_reported_with_their_code() {
    assert_eq!(cuda_status_result(0, 5), Err(RedError::CudaError(5)));
    assert_eq!(opencl_status_result(0, -5), Err(RedError::OpenCLError(-5)));
    assert_eq!(metal_status_result(0, 1), Err(RedError::MetalError(1)));
}

#[test]
fn gpu_status_failures_take_precedence() {
    assert_eq!(cuda_status_result(3, 7), Err(RedError::InvalidJobParameterMode));
    assert_eq!(cuda_status_result(13, 0), Err(RedError::InvalidJobParameterDeviceId));
    assert_eq!(cuda_status_result(6, 0), Err(RedError::InvalidPixelType));
    assert_eq!(metal_status_result(13, 0), Err(RedError::InvalidAPIObject));
    assert_eq!(opencl_status_result(10, 2), Err(RedError::UnableToUseGPUDevice));
}

#[test]
fn gpu_undocumented_statuses() {
    assert_eq!(cuda_status_result(99, 0), Err(RedError::UnrecognizedStatus(99)));
    assert_eq!(opencl_status_result(14, 0), Err(RedError::UnrecognizedStatus(14)));
    assert_eq!(metal_status_result(-1, 3), Err(RedError::UnrecognizedStatus(-1)));
}

#[test]
fn gpu_status_codes() {
    assert_eq!(CudaStatus::from_code(13), Some(CudaStatus::InvalidJobParameter_deviceId));
    assert_eq!(MetalStatus::from_code(13), Some(MetalStatus::InvalidAPIObject));
    assert_eq!(OpenClStatus::from_code(14), None);
    assert_eq!(
        RedError::from_cuda_status(CudaStatus::ErrorProcessing),
        RedError::ErrorProcessing
    );
}
