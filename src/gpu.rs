//! The status codes of the GPU image-processing calls (CUDA, OpenCL, Metal) and
//! what each call's status, together with the GPU API's own error code, reports.

use vstd::prelude::*;
use crate::error::RedError;

verus! {

/// The status that the CUDA image-processing calls report.
#[allow(non_camel_case_types)]
#[derive(Clone, Copy, Debug, Hash, PartialEq, Eq, Structural)]
pub enum CudaStatus {
    StatusOk,
    ErrorProcessing,
    InvalidJobParameter,
    /// mode value passed in is not compatible with this SDK or the mode used with the DecodeForGpuSdk call is not compatible
    InvalidJobParameter_mode,
    /// pointer is NULL, data is not from DecodeForGpuSdk, R3DSDK and GPUSDK versions are incompatible or buffer is not actually in host memory.
    InvalidJobParameter_raw_host_mem,
    /// Raw device mem was NULL
    InvalidJobParameter_raw_device_mem,
    /// unsupported pixel type
    InvalidJobParameter_pixelType,
    /// Output buffer Size must be non zero.
    /// Output buffer must be allocated prior to passing it into the sdk
    InvalidJobParameter_output_device_mem_size,
    InvalidJobParameter_output_device_mem,
    /// Image processing settings ColorVersion was set to ColorVersion1 which is not supported by this SDK
    InvalidJobParameter_ColorVersion1,
    /// GPU Device did not meet minimum requirements.
    UnableToUseGPUDevice,
    /// Error loading R3DSDK dynamic library
    UnableToLoadLibrary,
    ParameterUnsupported,
    /// deviceId must be an index between 0 and the number of devices on the system minus one
    InvalidJobParameter_deviceId,
}

impl CudaStatus {
    /// The numeric code of this status in the engine's interface.
    pub open spec fn spec_code(self) -> i32 {
        match self {
            CudaStatus::StatusOk => 0,
            CudaStatus::ErrorProcessing => 1,
            CudaStatus::InvalidJobParameter => 2,
            CudaStatus::InvalidJobParameter_mode => 3,
            CudaStatus::InvalidJobParameter_raw_host_mem => 4,
            CudaStatus::InvalidJobParameter_raw_device_mem => 5,
            CudaStatus::InvalidJobParameter_pixelType => 6,
            CudaStatus::InvalidJobParameter_output_device_mem_size => 7,
            CudaStatus::InvalidJobParameter_output_device_mem => 8,
            CudaStatus::InvalidJobParameter_ColorVersion1 => 9,
            CudaStatus::UnableToUseGPUDevice => 10,
            CudaStatus::UnableToLoadLibrary => 11,
            CudaStatus::ParameterUnsupported => 12,
            CudaStatus::InvalidJobParameter_deviceId => 13,
        }
    }

    /// The status with numeric code `c`, if there is one.
    pub open spec fn spec_from_code(c: i32) -> Option<CudaStatus> {
        if c == 0 {
            Some(CudaStatus::StatusOk)
        } else if c == 1 {
            Some(CudaStatus::ErrorProcessing)
        } else if c == 2 {
            Some(CudaStatus::InvalidJobParameter)
        } else if c == 3 {
            Some(CudaStatus::InvalidJobParameter_mode)
        } else if c == 4 {
            Some(CudaStatus::InvalidJobParameter_raw_host_mem)
        } else if c == 5 {
            Some(CudaStatus::InvalidJobParameter_raw_device_mem)
        } else if c == 6 {
            Some(CudaStatus::InvalidJobParameter_pixelType)
        } else if c == 7 {
            Some(CudaStatus::InvalidJobParameter_output_device_mem_size)
        } else if c == 8 {
            Some(CudaStatus::InvalidJobParameter_output_device_mem)
        } else if c == 9 {
            Some(CudaStatus::InvalidJobParameter_ColorVersion1)
        } else if c == 10 {
            Some(CudaStatus::UnableToUseGPUDevice)
        } else if c == 11 {
            Some(CudaStatus::UnableToLoadLibrary)
        } else if c == 12 {
            Some(CudaStatus::ParameterUnsupported)
        } else if c == 13 {
            Some(CudaStatus::InvalidJobParameter_deviceId)
        } else {
            None
        }
    }

    /// Reads a numeric status code; `None` for a code that no status has.
    pub fn from_code(c: i32) -> (r: Option<CudaStatus>)
        ensures
            r == CudaStatus::spec_from_code(c),
    {
        if c == 0 {
            Some(CudaStatus::StatusOk)
        } else if c == 1 {
            Some(CudaStatus::ErrorProcessing)
        } else if c == 2 {
            Some(CudaStatus::InvalidJobParameter)
        } else if c == 3 {
            Some(CudaStatus::InvalidJobParameter_mode)
        } else if c == 4 {
            Some(CudaStatus::InvalidJobParameter_raw_host_mem)
        } else if c == 5 {
            Some(CudaStatus::InvalidJobParameter_raw_device_mem)
        } else if c == 6 {
            Some(CudaStatus::InvalidJobParameter_pixelType)
        } else if c == 7 {
            Some(CudaStatus::InvalidJobParameter_output_device_mem_size)
        } else if c == 8 {
            Some(CudaStatus::InvalidJobParameter_output_device_mem)
        } else if c == 9 {
            Some(CudaStatus::InvalidJobParameter_ColorVersion1)
        } else if c == 10 {
            Some(CudaStatus::UnableToUseGPUDevice)
        } else if c == 11 {
            Some(CudaStatus::UnableToLoadLibrary)
        } else if c == 12 {
            Some(CudaStatus::ParameterUnsupported)
        } else if c == 13 {
            Some(CudaStatus::InvalidJobParameter_deviceId)
        } else {
            None
        }
    }
}

/// The error that a failing `CudaStatus` stands for; success maps to no error.
pub open spec fn cuda_error(s: CudaStatus) -> Option<RedError> {
    match s {
        CudaStatus::StatusOk => None,
        CudaStatus::ErrorProcessing => Some(RedError::ErrorProcessing),
        CudaStatus::InvalidJobParameter => Some(RedError::InvalidJobParameter),
        CudaStatus::InvalidJobParameter_mode => Some(RedError::InvalidJobParameterMode),
        CudaStatus::InvalidJobParameter_raw_host_mem => Some(RedError::InvalidJobParameterRawHostMem),
        CudaStatus::InvalidJobParameter_raw_device_mem => Some(RedError::InvalidJobParameterRawDeviceMem),
        CudaStatus::InvalidJobParameter_pixelType => Some(RedError::InvalidPixelType),
        CudaStatus::InvalidJobParameter_output_device_mem_size => Some(RedError::InvalidJobParameterOutputDeviceMemSize),
        CudaStatus::InvalidJobParameter_output_device_mem => Some(RedError::InvalidJobParameterOutputDeviceMem),
        CudaStatus::InvalidJobParameter_ColorVersion1 => Some(RedError::InvalidJobParameterColorVersion1),
        CudaStatus::UnableToUseGPUDevice => Some(RedError::UnableToUseGPUDevice),
        CudaStatus::UnableToLoadLibrary => Some(RedError::UnableToLoadLibrary),
        CudaStatus::ParameterUnsupported => Some(RedError::ParameterUnsupported),
        CudaStatus::InvalidJobParameter_deviceId => Some(RedError::InvalidJobParameterDeviceId),
    }
}

/// What a CUDA call reports through its status code `code` and the CUDA
/// error code `api_error` it fills in: success only when both are zero, the
/// CUDA error when only the status is a success, the mapped failure of the
/// status otherwise, and `UnrecognizedStatus` for an undocumented status.
pub open spec fn cuda_outcome(code: i32, api_error: i32) -> Result<(), RedError> {
    match CudaStatus::spec_from_code(code) {
        Some(s) => match cuda_error(s) {
            Some(e) => Err(e),
            None => if api_error == 0 { Ok(()) } else { Err(RedError::CudaError(api_error)) },
        },
        None => Err(RedError::UnrecognizedStatus(code)),
    }
}

impl RedError {
    /// The error for a failing `CudaStatus`; converting success is ruled out.
    pub fn from_cuda_status(s: CudaStatus) -> (r: RedError)
        requires
            s != CudaStatus::StatusOk,
        ensures
            cuda_error(s) == Some(r),
    {
        match s {
            CudaStatus::StatusOk => RedError::InternalError, // excluded by the precondition
            CudaStatus::ErrorProcessing => RedError::ErrorProcessing,
            CudaStatus::InvalidJobParameter => RedError::InvalidJobParameter,
            CudaStatus::InvalidJobParameter_mode => RedError::InvalidJobParameterMode,
            CudaStatus::InvalidJobParameter_raw_host_mem => RedError::InvalidJobParameterRawHostMem,
            CudaStatus::InvalidJobParameter_raw_device_mem => RedError::InvalidJobParameterRawDeviceMem,
            CudaStatus::InvalidJobParameter_pixelType => RedError::InvalidPixelType,
            CudaStatus::InvalidJobParameter_output_device_mem_size => RedError::InvalidJobParameterOutputDeviceMemSize,
            CudaStatus::InvalidJobParameter_output_device_mem => RedError::InvalidJobParameterOutputDeviceMem,
            CudaStatus::InvalidJobParameter_ColorVersion1 => RedError::InvalidJobParameterColorVersion1,
            CudaStatus::UnableToUseGPUDevice => RedError::UnableToUseGPUDevice,
            CudaStatus::UnableToLoadLibrary => RedError::UnableToLoadLibrary,
            CudaStatus::ParameterUnsupported => RedError::ParameterUnsupported,
            CudaStatus::InvalidJobParameter_deviceId => RedError::InvalidJobParameterDeviceId,
        }
    }
}

/// Interprets what a CUDA call reported.
pub fn cuda_status_result(code: i32, api_error: i32) -> (r: Result<(), RedError>)
    ensures
        r == cuda_outcome(code, api_error),
{
    match CudaStatus::from_code(code) {
        Some(s) => {
            if s != CudaStatus::StatusOk {
                Err(RedError::from_cuda_status(s))
            } else if api_error != 0 {
                Err(RedError::CudaError(api_error))
            } else {
                Ok(())
            }
        },
        None => Err(RedError::UnrecognizedStatus(code)),
    }
}

/// The status that the OpenCL image-processing calls report.
#[allow(non_camel_case_types)]
#[derive(Clone, Copy, Debug, Hash, PartialEq, Eq, Structural)]
pub enum OpenClStatus {
    StatusOk,
    ErrorProcessing,
    InvalidJobParameter,
    /// mode value passed in is not compatible with this SDK or the mode used with the DecodeForGpuSdk call is not compatible
    InvalidJobParameter_mode,
    /// pointer is NULL, data is not from DecodeForGpuSdk, R3DSDK and GPUSDK versions are incompatible or buffer is not actually in host memory.
    InvalidJobParameter_raw_host_mem,
    /// Raw device mem was NULL
    InvalidJobParameter_raw_device_mem,
    /// unsupported pixel type
    InvalidJobParameter_pixelType,
    /// Output buffer Size must be non zero.
    /// Output buffer must be allocated prior to passing it into the sdk
    InvalidJobParameter_output_device_mem_size,
    InvalidJobParameter_output_device_mem,
    /// Image processing settings ColorVersion was set to ColorVersion1 which is not supported by this SDK
    InvalidJobParameter_ColorVersion1,
    /// GPU Device did not meet minimum requirements.
    UnableToUseGPUDevice,
    /// Error loading R3DSDK dynamic library
    UnableToLoadLibrary,
    ParameterUnsupported,
    InvalidAPIObject,
}

impl OpenClStatus {
    /// The numeric code of this status in the engine's interface.
    pub open spec fn spec_code(self) -> i32 {
        match self {
            OpenClStatus::StatusOk => 0,
            OpenClStatus::ErrorProcessing => 1,
            OpenClStatus::InvalidJobParameter => 2,
            OpenClStatus::InvalidJobParameter_mode => 3,
            OpenClStatus::InvalidJobParameter_raw_host_mem => 4,
            OpenClStatus::InvalidJobParameter_raw_device_mem => 5,
            OpenClStatus::InvalidJobParameter_pixelType => 6,
            OpenClStatus::InvalidJobParameter_output_device_mem_size => 7,
            OpenClStatus::InvalidJobParameter_output_device_mem => 8,
            OpenClStatus::InvalidJobParameter_ColorVersion1 => 9,
            OpenClStatus::UnableToUseGPUDevice => 10,
            OpenClStatus::UnableToLoadLibrary => 11,
            OpenClStatus::ParameterUnsupported => 12,
            OpenClStatus::InvalidAPIObject => 13,
        }
    }

    /// The status with numeric code `c`, if there is one.
    pub open spec fn spec_from_code(c: i32) -> Option<OpenClStatus> {
        if c == 0 {
            Some(OpenClStatus::StatusOk)
        } else if c == 1 {
            Some(OpenClStatus::ErrorProcessing)
        } else if c == 2 {
            Some(OpenClStatus::InvalidJobParameter)
        } else if c == 3 {
            Some(OpenClStatus::InvalidJobParameter_mode)
        } else if c == 4 {
            Some(OpenClStatus::InvalidJobParameter_raw_host_mem)
        } else if c == 5 {
            Some(OpenClStatus::InvalidJobParameter_raw_device_mem)
        } else if c == 6 {
            Some(OpenClStatus::InvalidJobParameter_pixelType)
        } else if c == 7 {
            Some(OpenClStatus::InvalidJobParameter_output_device_mem_size)
        } else if c == 8 {
            Some(OpenClStatus::InvalidJobParameter_output_device_mem)
        } else if c == 9 {
            Some(OpenClStatus::InvalidJobParameter_ColorVersion1)
        } else if c == 10 {
            Some(OpenClStatus::UnableToUseGPUDevice)
        } else if c == 11 {
            Some(OpenClStatus::UnableToLoadLibrary)
        } else if c == 12 {
            Some(OpenClStatus::ParameterUnsupported)
        } else if c == 13 {
            Some(OpenClStatus::InvalidAPIObject)
        } else {
            None
        }
    }

    /// Reads a numeric status code; `None` for a code that no status has.
    pub fn from_code(c: i32) -> (r: Option<OpenClStatus>)
        ensures
            r == OpenClStatus::spec_from_code(c),
    {
        if c == 0 {
            Some(OpenClStatus::StatusOk)
        } else if c == 1 {
            Some(OpenClStatus::ErrorProcessing)
        } else if c == 2 {
            Some(OpenClStatus::InvalidJobParameter)
        } else if c == 3 {
            Some(OpenClStatus::InvalidJobParameter_mode)
        } else if c == 4 {
            Some(OpenClStatus::InvalidJobParameter_raw_host_mem)
        } else if c == 5 {
            Some(OpenClStatus::InvalidJobParameter_raw_device_mem)
        } else if c == 6 {
            Some(OpenClStatus::InvalidJobParameter_pixelType)
        } else if c == 7 {
            Some(OpenClStatus::InvalidJobParameter_output_device_mem_size)
        } else if c == 8 {
            Some(OpenClStatus::InvalidJobParameter_output_device_mem)
        } else if c == 9 {
            Some(OpenClStatus::InvalidJobParameter_ColorVersion1)
        } else if c == 10 {
            Some(OpenClStatus::UnableToUseGPUDevice)
        } else if c == 11 {
            Some(OpenClStatus::UnableToLoadLibrary)
        } else if c == 12 {
            Some(OpenClStatus::ParameterUnsupported)
        } else if c == 13 {
            Some(OpenClStatus::InvalidAPIObject)
        } else {
            None
        }
    }
}

/// The error that a failing `OpenClStatus` stands for; success maps to no error.
pub open spec fn opencl_error(s: OpenClStatus) -> Option<RedError> {
    match s {
        OpenClStatus::StatusOk => None,
        OpenClStatus::ErrorProcessing => Some(RedError::ErrorProcessing),
        OpenClStatus::InvalidJobParameter => Some(RedError::InvalidJobParameter),
        OpenClStatus::InvalidJobParameter_mode => Some(RedError::InvalidJobParameterMode),
        OpenClStatus::InvalidJobParameter_raw_host_mem => Some(RedError::InvalidJobParameterRawHostMem),
        OpenClStatus::InvalidJobParameter_raw_device_mem => Some(RedError::InvalidJobParameterRawDeviceMem),
        OpenClStatus::InvalidJobParameter_pixelType => Some(RedError::InvalidPixelType),
        OpenClStatus::InvalidJobParameter_output_device_mem_size => Some(RedError::InvalidJobParameterOutputDeviceMemSize),
        OpenClStatus::InvalidJobParameter_output_device_mem => Some(RedError::InvalidJobParameterOutputDeviceMem),
        OpenClStatus::InvalidJobParameter_ColorVersion1 => Some(RedError::InvalidJobParameterColorVersion1),
        OpenClStatus::UnableToUseGPUDevice => Some(RedError::UnableToUseGPUDevice),
        OpenClStatus::UnableToLoadLibrary => Some(RedError::UnableToLoadLibrary),
        OpenClStatus::ParameterUnsupported => Some(RedError::ParameterUnsupported),
        OpenClStatus::InvalidAPIObject => Some(RedError::InvalidAPIObject),
    }
}

/// What a OpenCL call reports through its status code `code` and the OpenCL
/// error code `api_error` it fills in: success only when both are zero, the
/// OpenCL error when only the status is a success, the mapped failure of the
/// status otherwise, and `UnrecognizedStatus` for an undocumented status.
pub open spec fn opencl_outcome(code: i32, api_error: i32) -> Result<(), RedError> {
    match OpenClStatus::spec_from_code(code) {
        Some(s) => match opencl_error(s) {
            Some(e) => Err(e),
            None => if api_error == 0 { Ok(()) } else { Err(RedError::OpenCLError(api_error)) },
        },
        None => Err(RedError::UnrecognizedStatus(code)),
    }
}

impl RedError {
    /// The error for a failing `OpenClStatus`; converting success is ruled out.
    pub fn from_opencl_status(s: OpenClStatus) -> (r: RedError)
        requires
            s != OpenClStatus::StatusOk,
        ensures
            opencl_error(s) == Some(r),
    {
        match s {
            OpenClStatus::StatusOk => RedError::InternalError, // excluded by the precondition
            OpenClStatus::ErrorProcessing => RedError::ErrorProcessing,
            OpenClStatus::InvalidJobParameter => RedError::InvalidJobParameter,
            OpenClStatus::InvalidJobParameter_mode => RedError::InvalidJobParameterMode,
            OpenClStatus::InvalidJobParameter_raw_host_mem => RedError::InvalidJobParameterRawHostMem,
            OpenClStatus::InvalidJobParameter_raw_device_mem => RedError::InvalidJobParameterRawDeviceMem,
            OpenClStatus::InvalidJobParameter_pixelType => RedError::InvalidPixelType,
            OpenClStatus::InvalidJobParameter_output_device_mem_size => RedError::InvalidJobParameterOutputDeviceMemSize,
            OpenClStatus::InvalidJobParameter_output_device_mem => RedError::InvalidJobParameterOutputDeviceMem,
            OpenClStatus::InvalidJobParameter_ColorVersion1 => RedError::InvalidJobParameterColorVersion1,
            OpenClStatus::UnableToUseGPUDevice => RedError::UnableToUseGPUDevice,
            OpenClStatus::UnableToLoadLibrary => RedError::UnableToLoadLibrary,
            OpenClStatus::ParameterUnsupported => RedError::ParameterUnsupported,
            OpenClStatus::InvalidAPIObject => RedError::InvalidAPIObject,
        }
    }
}

/// Interprets what a OpenCL call reported.
pub fn opencl_status_result(code: i32, api_error: i32) -> (r: Result<(), RedError>)
    ensures
        r == opencl_outcome(code, api_error),
{
    match OpenClStatus::from_code(code) {
        Some(s) => {
            if s != OpenClStatus::StatusOk {
                Err(RedError::from_opencl_status(s))
            } else if api_error != 0 {
                Err(RedError::OpenCLError(api_error))
            } else {
                Ok(())
            }
        },
        None => Err(RedError::UnrecognizedStatus(code)),
    }
}

/// The status that the Metal image-processing calls report.
#[allow(non_camel_case_types)]
#[derive(Clone, Copy, Debug, Hash, PartialEq, Eq, Structural)]
pub enum MetalStatus {
    StatusOk,
    ErrorProcessing,
    InvalidJobParameter,
    /// mode value passed in is not compatible with this SDK or the mode used with the DecodeForGpuSdk call is not compatible
    InvalidJobParameter_mode,
    /// pointer is NULL, data is not from DecodeForGpuSdk, R3DSDK and GPUSDK versions are incompatible or buffer is not actually in host memory.
    InvalidJobParameter_raw_host_mem,
    /// Raw device mem was NULL
    InvalidJobParameter_raw_device_mem,
    /// unsupported pixel type
    InvalidJobParameter_pixelType,
    /// Output buffer Size must be non zero.
    /// Output buffer must be allocated prior to passing it into the sdk
    InvalidJobParameter_output_device_mem_size,
    InvalidJobParameter_output_device_mem,
    /// Image processing settings ColorVersion was set to ColorVersion1 which is not supported by this SDK
    InvalidJobParameter_ColorVersion1,
    /// GPU Device did not meet minimum requirements.
    UnableToUseGPUDevice,
    /// Error loading R3DSDK dynamic library
    UnableToLoadLibrary,
    ParameterUnsupported,
    InvalidAPIObject,
}

impl MetalStatus {
    /// The numeric code of this status in the engine's interface.
    pub open spec fn spec_code(self) -> i32 {
        match self {
            MetalStatus::StatusOk => 0,
            MetalStatus::ErrorProcessing => 1,
            MetalStatus::InvalidJobParameter => 2,
            MetalStatus::InvalidJobParameter_mode => 3,
            MetalStatus::InvalidJobParameter_raw_host_mem => 4,
            MetalStatus::InvalidJobParameter_raw_device_mem => 5,
            MetalStatus::InvalidJobParameter_pixelType => 6,
            MetalStatus::InvalidJobParameter_output_device_mem_size => 7,
            MetalStatus::InvalidJobParameter_output_device_mem => 8,
            MetalStatus::InvalidJobParameter_ColorVersion1 => 9,
            MetalStatus::UnableToUseGPUDevice => 10,
            MetalStatus::UnableToLoadLibrary => 11,
            MetalStatus::ParameterUnsupported => 12,
            MetalStatus::InvalidAPIObject => 13,
        }
    }

    /// The status with numeric code `c`, if there is one.
    pub open spec fn spec_from_code(c: i32) -> Option<MetalStatus> {
        if c == 0 {
            Some(MetalStatus::StatusOk)
        } else if c == 1 {
            Some(MetalStatus::ErrorProcessing)
        } else if c == 2 {
            Some(MetalStatus::InvalidJobParameter)
        } else if c == 3 {
            Some(MetalStatus::InvalidJobParameter_mode)
        } else if c == 4 {
            Some(MetalStatus::InvalidJobParameter_raw_host_mem)
        } else if c == 5 {
            Some(MetalStatus::InvalidJobParameter_raw_device_mem)
        } else if c == 6 {
            Some(MetalStatus::InvalidJobParameter_pixelType)
        } else if c == 7 {
            Some(MetalStatus::InvalidJobParameter_output_device_mem_size)
        } else if c == 8 {
            Some(MetalStatus::InvalidJobParameter_output_device_mem)
        } else if c == 9 {
            Some(MetalStatus::InvalidJobParameter_ColorVersion1)
        } else if c == 10 {
            Some(MetalStatus::UnableToUseGPUDevice)
        } else if c == 11 {
            Some(MetalStatus::UnableToLoadLibrary)
        } else if c == 12 {
            Some(MetalStatus::ParameterUnsupported)
        } else if c == 13 {
            Some(MetalStatus::InvalidAPIObject)
        } else {
            None
        }
    }

    /// Reads a numeric status code; `None` for a code that no status has.
    pub fn from_code(c: i32) -> (r: Option<MetalStatus>)
        ensures
            r == MetalStatus::spec_from_code(c),
    {
        if c == 0 {
            Some(MetalStatus::StatusOk)
        } else if c == 1 {
            Some(MetalStatus::ErrorProcessing)
        } else if c == 2 {
            Some(MetalStatus::InvalidJobParameter)
        } else if c == 3 {
            Some(MetalStatus::InvalidJobParameter_mode)
        } else if c == 4 {
            Some(MetalStatus::InvalidJobParameter_raw_host_mem)
        } else if c == 5 {
            Some(MetalStatus::InvalidJobParameter_raw_device_mem)
        } else if c == 6 {
            Some(MetalStatus::InvalidJobParameter_pixelType)
        } else if c == 7 {
            Some(MetalStatus::InvalidJobParameter_output_device_mem_size)
        } else if c == 8 {
            Some(MetalStatus::InvalidJobParameter_output_device_mem)
        } else if c == 9 {
            Some(MetalStatus::InvalidJobParameter_ColorVersion1)
        } else if c == 10 {
            Some(MetalStatus::UnableToUseGPUDevice)
        } else if c == 11 {
            Some(MetalStatus::UnableToLoadLibrary)
        } else if c == 12 {
            Some(MetalStatus::ParameterUnsupported)
        } else if c == 13 {
            Some(MetalStatus::InvalidAPIObject)
        } else {
            None
        }
    }
}

/// The error that a failing `MetalStatus` stands for; success maps to no error.
pub open spec fn metal_error(s: MetalStatus) -> Option<RedError> {
    match s {
        MetalStatus::StatusOk => None,
        MetalStatus::ErrorProcessing => Some(RedError::ErrorProcessing),
        MetalStatus::InvalidJobParameter => Some(RedError::InvalidJobParameter),
        MetalStatus::InvalidJobParameter_mode => Some(RedError::InvalidJobParameterMode),
        MetalStatus::InvalidJobParameter_raw_host_mem => Some(RedError::InvalidJobParameterRawHostMem),
        MetalStatus::InvalidJobParameter_raw_device_mem => Some(RedError::InvalidJobParameterRawDeviceMem),
        MetalStatus::InvalidJobParameter_pixelType => Some(RedError::InvalidPixelType),
        MetalStatus::InvalidJobParameter_output_device_mem_size => Some(RedError::InvalidJobParameterOutputDeviceMemSize),
        MetalStatus::InvalidJobParameter_output_device_mem => Some(RedError::InvalidJobParameterOutputDeviceMem),
        MetalStatus::InvalidJobParameter_ColorVersion1 => Some(RedError::InvalidJobParameterColorVersion1),
        MetalStatus::UnableToUseGPUDevice => Some(RedError::UnableToUseGPUDevice),
        MetalStatus::UnableToLoadLibrary => Some(RedError::UnableToLoadLibrary),
        MetalStatus::ParameterUnsupported => Some(RedError::ParameterUnsupported),
        MetalStatus::InvalidAPIObject => Some(RedError::InvalidAPIObject),
    }
}

/// What a Metal call reports through its status code `code` and the Metal
/// error code `api_error` it fills in: success only when both are zero, the
/// Metal error when only the status is a success, the mapped failure of the
/// status otherwise, and `UnrecognizedStatus` for an undocumented status.
pub open spec fn metal_outcome(code: i32, api_error: i32) -> Result<(), RedError> {
    match MetalStatus::spec_from_code(code) {
        Some(s) => match metal_error(s) {
            Some(e) => Err(e),
            None => if api_error == 0 { Ok(()) } else { Err(RedError::MetalError(api_error)) },
        },
        None => Err(RedError::UnrecognizedStatus(code)),
    }
}

impl RedError {
    /// The error for a failing `MetalStatus`; converting success is ruled out.
    pub fn from_metal_status(s: MetalStatus) -> (r: RedError)
        requires
            s != MetalStatus::StatusOk,
        ensures
            metal_error(s) == Some(r),
    {
        match s {
            MetalStatus::StatusOk => RedError::InternalError, // excluded by the precondition
            MetalStatus::ErrorProcessing => RedError::ErrorProcessing,
            MetalStatus::InvalidJobParameter => RedError::InvalidJobParameter,
            MetalStatus::InvalidJobParameter_mode => RedError::InvalidJobParameterMode,
            MetalStatus::InvalidJobParameter_raw_host_mem => RedError::InvalidJobParameterRawHostMem,
            MetalStatus::InvalidJobParameter_raw_device_mem => RedError::InvalidJobParameterRawDeviceMem,
            MetalStatus::InvalidJobParameter_pixelType => RedError::InvalidPixelType,
            MetalStatus::InvalidJobParameter_output_device_mem_size => RedError::InvalidJobParameterOutputDeviceMemSize,
            MetalStatus::InvalidJobParameter_output_device_mem => RedError::InvalidJobParameterOutputDeviceMem,
            MetalStatus::InvalidJobParameter_ColorVersion1 => RedError::InvalidJobParameterColorVersion1,
            MetalStatus::UnableToUseGPUDevice => RedError::UnableToUseGPUDevice,
            MetalStatus::UnableToLoadLibrary => RedError::UnableToLoadLibrary,
            MetalStatus::ParameterUnsupported => RedError::ParameterUnsupported,
            MetalStatus::InvalidAPIObject => RedError::InvalidAPIObject,
        }
    }
}

/// Interprets what a Metal call reported.
pub fn metal_status_result(code: i32, api_error: i32) -> (r: Result<(), RedError>)
    ensures
        r == metal_outcome(code, api_error),
{
    match MetalStatus::from_code(code) {
        Some(s) => {
            if s != MetalStatus::StatusOk {
                Err(RedError::from_metal_status(s))
            } else if api_error != 0 {
                Err(RedError::MetalError(api_error))
            } else {
                Ok(())
            }
        },
        None => Err(RedError::UnrecognizedStatus(code)),
    }
}

} // verus!
