//! The error taxonomy of the library, and the exact mapping of every status
//! code of the decoding engine onto it.

use vstd::prelude::*;
use vstd::string::StringExecFns;
use std::alloc::LayoutError;
use crate::enums::{DecodeStatus, InitializeStatus, LoadStatus, R3DStatus};

verus! {

#[verifier::external_type_specification]
#[verifier::external_body]
pub struct ExLayoutError(LayoutError);

/// Relies on the derived `Clone` of `std::alloc::LayoutError`, a struct with no
/// data: the copy equals the original.
pub assume_specification[ <LayoutError as Clone>::clone ](e: &LayoutError) -> (r: LayoutError)
    ensures
        r == *e,
;

/// Every failure that the library reports. Each documented failure status of
/// the decoding engine has a variant of its own.
#[derive(Clone, Debug, PartialEq, Eq)]
pub enum RedError {
    // Initialization errors
    LibraryNotLoaded,
    R3DSDKLibraryNotFound,
    RedCudaLibraryNotFound,
    RedOpenCLLibraryNotFound,
    R3DDecoderLibraryNotFound,
    RedMetalLibraryNotFound,
    LibraryVersionMismatch,
    InvalidR3DSDKLibrary,
    InvalidRedCudaLibrary,
    InvalidRedOpenCLLibrary,
    InvalidR3DDecoderLibrary,
    InvalidRedMetalLibrary,
    RedCudaLibraryInitializeFailed,
    RedOpenCLLibraryInitializeFailed,
    R3DDecoderLibraryInitializeFailed,
    R3DSDKLibraryInitializeFailed,
    RedMetalLibraryInitializeFailed,
    InvalidPath,
    InternalError,
    MetalNotAvailable,

    // Clip errors
    ClipPathNotFound,
    ClipFailedToOpenFile,
    ClipNotAnR3DFile,
    ClipIsEmpty,
    ClipOutOfMemory,
    ClipUnknownError,
    ClipNoClipOpen,
    ClipNotInitialized,

    // Decode errors
    OutputBufferInvalid,
    RequestOutOfRange,
    InvalidParameter,
    IsDroppedFrame,
    DecodeFailed,
    OutOfMemory,
    UnknownError,
    NoClipOpen,
    CannotReadFromFile,
    InvalidPixelType,
    NotAnHDRxClip,
    Cancelled,
    UnsupportedClipFormat,
    ParameterUnsupported,
    DecoderNotOpened,

    // R3D status
    ErrorProcessing,
    InvalidJobParameter,
    /// mode value passed in is not compatible with this SDK or the mode used with the DecodeForGpuSdk call is not compatible
    InvalidJobParameterMode,
    /// pointer is NULL, data is not from DecodeForGpuSdk, R3DSDK and GPUSDK versions are incompatible or buffer is not actually in host memory.
    InvalidJobParameterRawHostMem,
    InvalidJobParameterRawDeviceMem,
    /// unsupported pixel type
    InvalidJobParameterPixelType,
    /// Output buffer Size must be non zero.
    /// Output buffer must be allocated prior to passing it into the sdk
    InvalidJobParameterOutputDeviceMemSize,
    InvalidJobParameterOutputDeviceMem,
    /// Image processing settings ColorVersion was set to ColorVersion1 which is not supported by this SDK
    InvalidJobParameterColorVersion1,
    /// null, or unopened clip.
    InvalidJobParameterClip,
    /// GPU Device did not meet minimum requirements.
    UnableToUseGPUDevice,
    /// No GPU Devices were setup on the R3DDecoderOptions class
    NoGPUDeviceSpecified,
    /// Error loading R3DSDK dynamic library
    UnableToLoadLibrary,

    InvalidJobParameterDeviceId,

    BufferNotAligned,
    InvalidAPIObject,

    CudaError(i32),
    OpenCLError(i32),
    MetalError(i32),

    BufferTooSmall { needed: usize, provided: usize },
    Alloc(LayoutError),
    /// A status code that the decoding engine's interface does not document.
    UnrecognizedStatus(i32),
    Other(String),
}

pub type RedResult<T> = Result<T, RedError>;

impl From<LayoutError> for RedError {
    fn from(value: LayoutError) -> (r: RedError) {
        RedError::Alloc(value)
    }
}

impl vstd::std_specs::convert::FromSpecImpl<LayoutError> for RedError {
    open spec fn obeys_from_spec() -> bool {
        true
    }

    open spec fn from_spec(v: LayoutError) -> RedError {
        RedError::Alloc(v)
    }
}

/// The error that a failing `InitializeStatus` stands for; the success code maps to no error.
pub open spec fn initialize_error(s: InitializeStatus) -> Option<RedError> {
    match s {
        InitializeStatus::InitializeOk => None,
        InitializeStatus::LibraryNotLoaded => Some(RedError::LibraryNotLoaded),
        InitializeStatus::R3DSDKLibraryNotFound => Some(RedError::R3DSDKLibraryNotFound),
        InitializeStatus::RedCudaLibraryNotFound => Some(RedError::RedCudaLibraryNotFound),
        InitializeStatus::RedOpenCLLibraryNotFound => Some(RedError::RedOpenCLLibraryNotFound),
        InitializeStatus::R3DDecoderLibraryNotFound => Some(RedError::R3DDecoderLibraryNotFound),
        InitializeStatus::RedMetalLibraryNotFound => Some(RedError::RedMetalLibraryNotFound),
        InitializeStatus::LibraryVersionMismatch => Some(RedError::LibraryVersionMismatch),
        InitializeStatus::InvalidR3DSDKLibrary => Some(RedError::InvalidR3DSDKLibrary),
        InitializeStatus::InvalidRedCudaLibrary => Some(RedError::InvalidRedCudaLibrary),
        InitializeStatus::InvalidRedOpenCLLibrary => Some(RedError::InvalidRedOpenCLLibrary),
        InitializeStatus::InvalidR3DDecoderLibrary => Some(RedError::InvalidR3DDecoderLibrary),
        InitializeStatus::InvalidRedMetalLibrary => Some(RedError::InvalidRedMetalLibrary),
        InitializeStatus::RedCudaLibraryInitializeFailed => Some(RedError::RedCudaLibraryInitializeFailed),
        InitializeStatus::RedOpenCLLibraryInitializeFailed => Some(RedError::RedOpenCLLibraryInitializeFailed),
        InitializeStatus::R3DDecoderLibraryInitializeFailed => Some(RedError::R3DDecoderLibraryInitializeFailed),
        InitializeStatus::R3DSDKLibraryInitializeFailed => Some(RedError::R3DSDKLibraryInitializeFailed),
        InitializeStatus::RedMetalLibraryInitializeFailed => Some(RedError::RedMetalLibraryInitializeFailed),
        InitializeStatus::InvalidPath => Some(RedError::InvalidPath),
        InitializeStatus::InternalError => Some(RedError::InternalError),
        InitializeStatus::MetalNotAvailable => Some(RedError::MetalNotAvailable),
    }
}

/// What a raw `InitializeStatus` code reports: success, one of its failures, or a code
/// that the interface does not document.
pub open spec fn initialize_outcome(code: i32) -> Result<(), RedError> {
    match InitializeStatus::spec_from_code(code) {
        Some(s) => match initialize_error(s) {
            Some(e) => Err(e),
            None => Ok(()),
        },
        None => Err(RedError::UnrecognizedStatus(code)),
    }
}

impl RedError {
    /// The error for a failing `InitializeStatus`. The success code is no failure, and
    /// converting it is ruled out.
    pub fn from_initialize_status(s: InitializeStatus) -> (r: RedError)
        requires
            s != InitializeStatus::InitializeOk,
        ensures
            initialize_error(s) == Some(r),
    {
        match s {
            InitializeStatus::InitializeOk => RedError::InternalError, // excluded by the precondition
            InitializeStatus::LibraryNotLoaded => RedError::LibraryNotLoaded,
            InitializeStatus::R3DSDKLibraryNotFound => RedError::R3DSDKLibraryNotFound,
            InitializeStatus::RedCudaLibraryNotFound => RedError::RedCudaLibraryNotFound,
            InitializeStatus::RedOpenCLLibraryNotFound => RedError::RedOpenCLLibraryNotFound,
            InitializeStatus::R3DDecoderLibraryNotFound => RedError::R3DDecoderLibraryNotFound,
            InitializeStatus::RedMetalLibraryNotFound => RedError::RedMetalLibraryNotFound,
            InitializeStatus::LibraryVersionMismatch => RedError::LibraryVersionMismatch,
            InitializeStatus::InvalidR3DSDKLibrary => RedError::InvalidR3DSDKLibrary,
            InitializeStatus::InvalidRedCudaLibrary => RedError::InvalidRedCudaLibrary,
            InitializeStatus::InvalidRedOpenCLLibrary => RedError::InvalidRedOpenCLLibrary,
            InitializeStatus::InvalidR3DDecoderLibrary => RedError::InvalidR3DDecoderLibrary,
            InitializeStatus::InvalidRedMetalLibrary => RedError::InvalidRedMetalLibrary,
            InitializeStatus::RedCudaLibraryInitializeFailed => RedError::RedCudaLibraryInitializeFailed,
            InitializeStatus::RedOpenCLLibraryInitializeFailed => RedError::RedOpenCLLibraryInitializeFailed,
            InitializeStatus::R3DDecoderLibraryInitializeFailed => RedError::R3DDecoderLibraryInitializeFailed,
            InitializeStatus::R3DSDKLibraryInitializeFailed => RedError::R3DSDKLibraryInitializeFailed,
            InitializeStatus::RedMetalLibraryInitializeFailed => RedError::RedMetalLibraryInitializeFailed,
            InitializeStatus::InvalidPath => RedError::InvalidPath,
            InitializeStatus::InternalError => RedError::InternalError, // excluded by the precondition
            InitializeStatus::MetalNotAvailable => RedError::MetalNotAvailable,
        }
    }
}

/// Interprets a raw `InitializeStatus` code: `Ok` exactly for the success code, the
/// matching error for each documented failure, and
/// `UnrecognizedStatus` for any other code.
pub fn initialize_status_result(code: i32) -> (r: Result<(), RedError>)
    ensures
        r == initialize_outcome(code),
        r is Ok <==> code == InitializeStatus::InitializeOk.spec_code(),
{
    match InitializeStatus::from_code(code) {
        Some(s) => {
            if s == InitializeStatus::InitializeOk {
                Ok(())
            } else {
                Err(RedError::from_initialize_status(s))
            }
        },
        None => Err(RedError::UnrecognizedStatus(code)),
    }
}

/// The error that a failing `LoadStatus` stands for; the success code maps to no error.
pub open spec fn load_error(s: LoadStatus) -> Option<RedError> {
    match s {
        LoadStatus::ClipLoaded => None,
        LoadStatus::PathNotFound => Some(RedError::ClipPathNotFound),
        LoadStatus::FailedToOpenFile => Some(RedError::ClipFailedToOpenFile),
        LoadStatus::NotAnR3DFile => Some(RedError::ClipNotAnR3DFile),
        LoadStatus::ClipIsEmpty => Some(RedError::ClipIsEmpty),
        LoadStatus::OutOfMemory => Some(RedError::ClipOutOfMemory),
        LoadStatus::UnknownError => Some(RedError::ClipUnknownError),
        LoadStatus::NoClipOpen => Some(RedError::ClipNoClipOpen),
        LoadStatus::NotInitialized => Some(RedError::ClipNotInitialized),
    }
}

/// What a raw `LoadStatus` code reports: success, one of its failures, or a code
/// that the interface does not document.
pub open spec fn load_outcome(code: i32) -> Result<(), RedError> {
    match LoadStatus::spec_from_code(code) {
        Some(s) => match load_error(s) {
            Some(e) => Err(e),
            None => Ok(()),
        },
        None => Err(RedError::UnrecognizedStatus(code)),
    }
}

impl RedError {
    /// The error for a failing `LoadStatus`. The success code is no failure, and
    /// converting it is ruled out.
    pub fn from_load_status(s: LoadStatus) -> (r: RedError)
        requires
            s != LoadStatus::ClipLoaded,
        ensures
            load_error(s) == Some(r),
    {
        match s {
            LoadStatus::ClipLoaded => RedError::InternalError, // excluded by the precondition
            LoadStatus::PathNotFound => RedError::ClipPathNotFound,
            LoadStatus::FailedToOpenFile => RedError::ClipFailedToOpenFile,
            LoadStatus::NotAnR3DFile => RedError::ClipNotAnR3DFile,
            LoadStatus::ClipIsEmpty => RedError::ClipIsEmpty,
            LoadStatus::OutOfMemory => RedError::ClipOutOfMemory,
            LoadStatus::UnknownError => RedError::ClipUnknownError,
            LoadStatus::NoClipOpen => RedError::ClipNoClipOpen,
            LoadStatus::NotInitialized => RedError::ClipNotInitialized,
        }
    }
}

/// Interprets a raw `LoadStatus` code: `Ok` exactly for the success code, the
/// matching error for each documented failure, and
/// `UnrecognizedStatus` for any other code.
pub fn load_status_result(code: i32) -> (r: Result<(), RedError>)
    ensures
        r == load_outcome(code),
        r is Ok <==> code == LoadStatus::ClipLoaded.spec_code(),
{
    match LoadStatus::from_code(code) {
        Some(s) => {
            if s == LoadStatus::ClipLoaded {
                Ok(())
            } else {
                Err(RedError::from_load_status(s))
            }
        },
        None => Err(RedError::UnrecognizedStatus(code)),
    }
}

/// The error that a failing `DecodeStatus` stands for; the success code maps to no error.
pub open spec fn decode_error(s: DecodeStatus) -> Option<RedError> {
    match s {
        DecodeStatus::DecodeOk => None,
        DecodeStatus::OutputBufferInvalid => Some(RedError::OutputBufferInvalid),
        DecodeStatus::RequestOutOfRange => Some(RedError::RequestOutOfRange),
        DecodeStatus::InvalidParameter => Some(RedError::InvalidParameter),
        DecodeStatus::IsDroppedFrame => Some(RedError::IsDroppedFrame),
        DecodeStatus::DecodeFailed => Some(RedError::DecodeFailed),
        DecodeStatus::OutOfMemory => Some(RedError::OutOfMemory),
        DecodeStatus::UnknownError => Some(RedError::UnknownError),
        DecodeStatus::NoClipOpen => Some(RedError::NoClipOpen),
        DecodeStatus::CannotReadFromFile => Some(RedError::CannotReadFromFile),
        DecodeStatus::InvalidPixelType => Some(RedError::InvalidPixelType),
        DecodeStatus::NotAnHDRxClip => Some(RedError::NotAnHDRxClip),
        DecodeStatus::Cancelled => Some(RedError::Cancelled),
        DecodeStatus::UnsupportedClipFormat => Some(RedError::UnsupportedClipFormat),
        DecodeStatus::ParameterUnsupported => Some(RedError::ParameterUnsupported),
        DecodeStatus::DecoderNotOpened => Some(RedError::DecoderNotOpened),
    }
}

/// What a raw `DecodeStatus` code reports: success, one of its failures, or a code
/// that the interface does not document.
pub open spec fn decode_outcome(code: i32) -> Result<(), RedError> {
    match DecodeStatus::spec_from_code(code) {
        Some(s) => match decode_error(s) {
            Some(e) => Err(e),
            None => Ok(()),
        },
        None => Err(RedError::UnrecognizedStatus(code)),
    }
}

impl RedError {
    /// The error for a failing `DecodeStatus`. The success code is no failure, and
    /// converting it is ruled out.
    pub fn from_decode_status(s: DecodeStatus) -> (r: RedError)
        requires
            s != DecodeStatus::DecodeOk,
        ensures
            decode_error(s) == Some(r),
    {
        match s {
            DecodeStatus::DecodeOk => RedError::InternalError, // excluded by the precondition
            DecodeStatus::OutputBufferInvalid => RedError::OutputBufferInvalid,
            DecodeStatus::RequestOutOfRange => RedError::RequestOutOfRange,
            DecodeStatus::InvalidParameter => RedError::InvalidParameter,
            DecodeStatus::IsDroppedFrame => RedError::IsDroppedFrame,
            DecodeStatus::DecodeFailed => RedError::DecodeFailed,
            DecodeStatus::OutOfMemory => RedError::OutOfMemory,
            DecodeStatus::UnknownError => RedError::UnknownError,
            DecodeStatus::NoClipOpen => RedError::NoClipOpen,
            DecodeStatus::CannotReadFromFile => RedError::CannotReadFromFile,
            DecodeStatus::InvalidPixelType => RedError::InvalidPixelType,
            DecodeStatus::NotAnHDRxClip => RedError::NotAnHDRxClip,
            DecodeStatus::Cancelled => RedError::Cancelled,
            DecodeStatus::UnsupportedClipFormat => RedError::UnsupportedClipFormat,
            DecodeStatus::ParameterUnsupported => RedError::ParameterUnsupported,
            DecodeStatus::DecoderNotOpened => RedError::DecoderNotOpened,
        }
    }
}

/// Interprets a raw `DecodeStatus` code: `Ok` exactly for the success code, the
/// matching error for each documented failure, and
/// `UnrecognizedStatus` for any other code.
pub fn decode_status_result(code: i32) -> (r: Result<(), RedError>)
    ensures
        r == decode_outcome(code),
        r is Ok <==> code == DecodeStatus::DecodeOk.spec_code(),
{
    match DecodeStatus::from_code(code) {
        Some(s) => {
            if s == DecodeStatus::DecodeOk {
                Ok(())
            } else {
                Err(RedError::from_decode_status(s))
            }
        },
        None => Err(RedError::UnrecognizedStatus(code)),
    }
}

/// The error that a failing `R3DStatus` stands for; the success code maps to no error.
pub open spec fn r3d_error(s: R3DStatus) -> Option<RedError> {
    match s {
        R3DStatus::StatusOk => None,
        R3DStatus::ErrorProcessing => Some(RedError::ErrorProcessing),
        R3DStatus::InvalidJobParameter => Some(RedError::InvalidJobParameter),
        R3DStatus::InvalidJobParameterMode => Some(RedError::InvalidJobParameterMode),
        R3DStatus::InvalidJobParameterRawHostMem => Some(RedError::InvalidJobParameterRawHostMem),
        R3DStatus::InvalidJobParameterRawDeviceMem => Some(RedError::InvalidJobParameterRawDeviceMem),
        R3DStatus::InvalidJobParameterPixelType => Some(RedError::InvalidJobParameterPixelType),
        R3DStatus::InvalidJobParameterOutputDeviceMemSize => Some(RedError::InvalidJobParameterOutputDeviceMemSize),
        R3DStatus::InvalidJobParameterOutputDeviceMem => Some(RedError::InvalidJobParameterOutputDeviceMem),
        R3DStatus::InvalidJobParameterColorVersion1 => Some(RedError::InvalidJobParameterColorVersion1),
        R3DStatus::InvalidJobParameterClip => Some(RedError::InvalidJobParameterClip),
        R3DStatus::UnableToUseGPUDevice => Some(RedError::UnableToUseGPUDevice),
        R3DStatus::NoGPUDeviceSpecified => Some(RedError::NoGPUDeviceSpecified),
        R3DStatus::UnableToLoadLibrary => Some(RedError::UnableToLoadLibrary),
        R3DStatus::ParameterUnsupported => Some(RedError::ParameterUnsupported),
    }
}

/// What a raw `R3DStatus` code reports: success, one of its failures, or a code
/// that the interface does not document.
pub open spec fn r3d_outcome(code: i32) -> Result<(), RedError> {
    match R3DStatus::spec_from_code(code) {
        Some(s) => match r3d_error(s) {
            Some(e) => Err(e),
            None => Ok(()),
        },
        None => Err(RedError::UnrecognizedStatus(code)),
    }
}

impl RedError {
    /// The error for a failing `R3DStatus`. The success code is no failure, and
    /// converting it is ruled out.
    pub fn from_r3d_status(s: R3DStatus) -> (r: RedError)
        requires
            s != R3DStatus::StatusOk,
        ensures
            r3d_error(s) == Some(r),
    {
        match s {
            R3DStatus::StatusOk => RedError::InternalError, // excluded by the precondition
            R3DStatus::ErrorProcessing => RedError::ErrorProcessing,
            R3DStatus::InvalidJobParameter => RedError::InvalidJobParameter,
            R3DStatus::InvalidJobParameterMode => RedError::InvalidJobParameterMode,
            R3DStatus::InvalidJobParameterRawHostMem => RedError::InvalidJobParameterRawHostMem,
            R3DStatus::InvalidJobParameterRawDeviceMem => RedError::InvalidJobParameterRawDeviceMem,
            R3DStatus::InvalidJobParameterPixelType => RedError::InvalidJobParameterPixelType,
            R3DStatus::InvalidJobParameterOutputDeviceMemSize => RedError::InvalidJobParameterOutputDeviceMemSize,
            R3DStatus::InvalidJobParameterOutputDeviceMem => RedError::InvalidJobParameterOutputDeviceMem,
            R3DStatus::InvalidJobParameterColorVersion1 => RedError::InvalidJobParameterColorVersion1,
            R3DStatus::InvalidJobParameterClip => RedError::InvalidJobParameterClip,
            R3DStatus::UnableToUseGPUDevice => RedError::UnableToUseGPUDevice,
            R3DStatus::NoGPUDeviceSpecified => RedError::NoGPUDeviceSpecified,
            R3DStatus::UnableToLoadLibrary => RedError::UnableToLoadLibrary,
            R3DStatus::ParameterUnsupported => RedError::ParameterUnsupported,
        }
    }
}

/// Interprets a raw `R3DStatus` code: `Ok` exactly for the success code, the
/// matching error for each documented failure, and
/// `UnrecognizedStatus` for any other code.
pub fn r3d_status_result(code: i32) -> (r: Result<(), RedError>)
    ensures
        r == r3d_outcome(code),
        r is Ok <==> code == R3DStatus::StatusOk.spec_code(),
{
    match R3DStatus::from_code(code) {
        Some(s) => {
            if s == R3DStatus::StatusOk {
                Ok(())
            } else {
                Err(RedError::from_r3d_status(s))
            }
        },
        None => Err(RedError::UnrecognizedStatus(code)),
    }
}

/// The decimal digit for `d`, which is below ten.
pub open spec fn digit_char(d: nat) -> char {
    if d == 0 { '0' }
    else if d == 1 { '1' }
    else if d == 2 { '2' }
    else if d == 3 { '3' }
    else if d == 4 { '4' }
    else if d == 5 { '5' }
    else if d == 6 { '6' }
    else if d == 7 { '7' }
    else if d == 8 { '8' }
    else { '9' }
}

/// The decimal digits of `n`, without leading zeros.
pub open spec fn digits(n: nat) -> Seq<char>
    decreases n,
{
    if n < 10 {
        seq![digit_char(n)]
    } else {
        digits(n / 10).push(digit_char(n % 10))
    }
}

/// How Rust writes an integer: its decimal digits, after a minus sign when it
/// is negative.
pub open spec fn decimal_text(n: int) -> Seq<char> {
    if n < 0 {
        seq!['-'] + digits((-n) as nat)
    } else {
        digits(n as nat)
    }
}

/// Relies on `ToString` for `usize`, which writes the number in decimal.
#[verifier::external_body]
fn usize_text(n: usize) -> (s: String)
    ensures
        s@ == decimal_text(n as int),
{
    n.to_string()
}

/// Relies on `ToString` for `i32`, which writes the number in decimal, after a
/// minus sign when it is negative.
#[verifier::external_body]
fn i32_text(n: i32) -> (s: String)
    ensures
        s@ == decimal_text(n as int),
{
    n.to_string()
}

/// The message that describes an error. An allocation error is described by
/// its prefix alone, followed by the allocator's own description.
pub open spec fn message_text(e: RedError) -> Seq<char> {
    match e {
        RedError::LibraryNotLoaded => "Library not loaded"@,
        RedError::R3DSDKLibraryNotFound => "R3DSDK library not found"@,
        RedError::RedCudaLibraryNotFound => "RED CUDA library not found"@,
        RedError::RedOpenCLLibraryNotFound => "RED OpenCL library not found"@,
        RedError::R3DDecoderLibraryNotFound => "R3D Decoder library not found"@,
        RedError::RedMetalLibraryNotFound => "RED Metal library not found"@,
        RedError::LibraryVersionMismatch => "Library version mismatch"@,
        RedError::InvalidR3DSDKLibrary => "Invalid R3DSDK library"@,
        RedError::InvalidRedCudaLibrary => "Invalid RED CUDA library"@,
        RedError::InvalidRedOpenCLLibrary => "Invalid RED OpenCL library"@,
        RedError::InvalidR3DDecoderLibrary => "Invalid R3D Decoder library"@,
        RedError::InvalidRedMetalLibrary => "Invalid RED Metal library"@,
        RedError::RedCudaLibraryInitializeFailed => "RED CUDA library initialize failed"@,
        RedError::RedOpenCLLibraryInitializeFailed => "RED OpenCL library initialize failed"@,
        RedError::R3DDecoderLibraryInitializeFailed => "R3D Decoder library initialize failed"@,
        RedError::R3DSDKLibraryInitializeFailed => "R3DSDK library initialize failed"@,
        RedError::RedMetalLibraryInitializeFailed => "RED Metal library initialize failed"@,
        RedError::InvalidPath => "Invalid path"@,
        RedError::InternalError => "Internal error"@,
        RedError::MetalNotAvailable => "Metal not available"@,
        RedError::ClipPathNotFound => "Clip path not found"@,
        RedError::ClipFailedToOpenFile => "Clip failed to open file"@,
        RedError::ClipNotAnR3DFile => "Clip is not an R3D file"@,
        RedError::ClipIsEmpty => "Clip is empty"@,
        RedError::ClipOutOfMemory => "Clip out of memory"@,
        RedError::ClipUnknownError => "Clip unknown error"@,
        RedError::ClipNoClipOpen => "No clip open"@,
        RedError::ClipNotInitialized => "Clip not initialized"@,
        RedError::OutputBufferInvalid => "Output buffer invalid"@,
        RedError::RequestOutOfRange => "Request out of range"@,
        RedError::InvalidParameter => "Invalid parameter"@,
        RedError::IsDroppedFrame => "Is dropped frame"@,
        RedError::DecodeFailed => "Decode failed"@,
        RedError::OutOfMemory => "Out of memory"@,
        RedError::UnknownError => "Unknown error"@,
        RedError::NoClipOpen => "No clip open"@,
        RedError::CannotReadFromFile => "Cannot read from file"@,
        RedError::InvalidPixelType => "Invalid pixel type"@,
        RedError::NotAnHDRxClip => "Not an HDRx clip"@,
        RedError::Cancelled => "Cancelled"@,
        RedError::UnsupportedClipFormat => "Unsupported clip format"@,
        RedError::ParameterUnsupported => "Parameter unsupported"@,
        RedError::DecoderNotOpened => "Decoder not opened"@,
        RedError::ErrorProcessing => "Error processing"@,
        RedError::InvalidJobParameter => "Invalid job parameter"@,
        RedError::InvalidJobParameterMode => "Invalid job parameter: mode"@,
        RedError::InvalidJobParameterRawHostMem => "Invalid job parameter: raw host memory"@,
        RedError::InvalidJobParameterRawDeviceMem => "Invalid job parameter: raw device memory"@,
        RedError::InvalidJobParameterPixelType => "Invalid job parameter: pixel type"@,
        RedError::InvalidJobParameterOutputDeviceMemSize => "Invalid job parameter: output device memory size"@,
        RedError::InvalidJobParameterOutputDeviceMem => "Invalid job parameter: output device memory"@,
        RedError::InvalidJobParameterColorVersion1 => "Invalid job parameter: ColorVersion1"@,
        RedError::InvalidJobParameterClip => "Invalid job parameter: clip"@,
        RedError::UnableToUseGPUDevice => "Unable to use GPU device"@,
        RedError::NoGPUDeviceSpecified => "No GPU device specified"@,
        RedError::UnableToLoadLibrary => "Unable to load library"@,
        RedError::InvalidJobParameterDeviceId => "Invalid job parameter: device ID"@,
        RedError::BufferNotAligned => "Buffer not aligned"@,
        RedError::InvalidAPIObject => "Invalid API object"@,
        RedError::BufferTooSmall { needed, provided } => "Buffer too small: needed "@ + decimal_text(needed as int)
            + " bytes, provided "@ + decimal_text(provided as int) + " bytes"@,
        RedError::CudaError(code) => "CUDA error: "@ + decimal_text(code as int),
        RedError::OpenCLError(code) => "OpenCL error: "@ + decimal_text(code as int),
        RedError::MetalError(code) => "Metal error: "@ + decimal_text(code as int),
        RedError::Other(s) => "RED error: "@ + s@,
        RedError::UnrecognizedStatus(code) => "Unrecognized status code: "@ + decimal_text(code as int),
        RedError::Alloc(_) => "Allocation error: "@,
    }
}

impl RedError {
    /// A readable description of the error.
    pub fn message(&self) -> (r: String)
        ensures
            !(self is Alloc) ==> r@ == message_text(*self),
            self is Alloc ==> r@.len() >= message_text(*self).len() && r@.take(
                message_text(*self).len() as int,
            ) == message_text(*self),
    {
        match self {
        RedError::LibraryNotLoaded => String::from_str("Library not loaded"),
        RedError::R3DSDKLibraryNotFound => String::from_str("R3DSDK library not found"),
        RedError::RedCudaLibraryNotFound => String::from_str("RED CUDA library not found"),
        RedError::RedOpenCLLibraryNotFound => String::from_str("RED OpenCL library not found"),
        RedError::R3DDecoderLibraryNotFound => String::from_str("R3D Decoder library not found"),
        RedError::RedMetalLibraryNotFound => String::from_str("RED Metal library not found"),
        RedError::LibraryVersionMismatch => String::from_str("Library version mismatch"),
        RedError::InvalidR3DSDKLibrary => String::from_str("Invalid R3DSDK library"),
        RedError::InvalidRedCudaLibrary => String::from_str("Invalid RED CUDA library"),
        RedError::InvalidRedOpenCLLibrary => String::from_str("Invalid RED OpenCL library"),
        RedError::InvalidR3DDecoderLibrary => String::from_str("Invalid R3D Decoder library"),
        RedError::InvalidRedMetalLibrary => String::from_str("Invalid RED Metal library"),
        RedError::RedCudaLibraryInitializeFailed => String::from_str("RED CUDA library initialize failed"),
        RedError::RedOpenCLLibraryInitializeFailed => String::from_str("RED OpenCL library initialize failed"),
        RedError::R3DDecoderLibraryInitializeFailed => String::from_str("R3D Decoder library initialize failed"),
        RedError::R3DSDKLibraryInitializeFailed => String::from_str("R3DSDK library initialize failed"),
        RedError::RedMetalLibraryInitializeFailed => String::from_str("RED Metal library initialize failed"),
        RedError::InvalidPath => String::from_str("Invalid path"),
        RedError::InternalError => String::from_str("Internal error"),
        RedError::MetalNotAvailable => String::from_str("Metal not available"),
        RedError::ClipPathNotFound => String::from_str("Clip path not found"),
        RedError::ClipFailedToOpenFile => String::from_str("Clip failed to open file"),
        RedError::ClipNotAnR3DFile => String::from_str("Clip is not an R3D file"),
        RedError::ClipIsEmpty => String::from_str("Clip is empty"),
        RedError::ClipOutOfMemory => String::from_str("Clip out of memory"),
        RedError::ClipUnknownError => String::from_str("Clip unknown error"),
        RedError::ClipNoClipOpen => String::from_str("No clip open"),
        RedError::ClipNotInitialized => String::from_str("Clip not initialized"),
        RedError::OutputBufferInvalid => String::from_str("Output buffer invalid"),
        RedError::RequestOutOfRange => String::from_str("Request out of range"),
        RedError::InvalidParameter => String::from_str("Invalid parameter"),
        RedError::IsDroppedFrame => String::from_str("Is dropped frame"),
        RedError::DecodeFailed => String::from_str("Decode failed"),
        RedError::OutOfMemory => String::from_str("Out of memory"),
        RedError::UnknownError => String::from_str("Unknown error"),
        RedError::NoClipOpen => String::from_str("No clip open"),
        RedError::CannotReadFromFile => String::from_str("Cannot read from file"),
        RedError::InvalidPixelType => String::from_str("Invalid pixel type"),
        RedError::NotAnHDRxClip => String::from_str("Not an HDRx clip"),
        RedError::Cancelled => String::from_str("Cancelled"),
        RedError::UnsupportedClipFormat => String::from_str("Unsupported clip format"),
        RedError::ParameterUnsupported => String::from_str("Parameter unsupported"),
        RedError::DecoderNotOpened => String::from_str("Decoder not opened"),
        RedError::ErrorProcessing => String::from_str("Error processing"),
        RedError::InvalidJobParameter => String::from_str("Invalid job parameter"),
        RedError::InvalidJobParameterMode => String::from_str("Invalid job parameter: mode"),
        RedError::InvalidJobParameterRawHostMem => String::from_str("Invalid job parameter: raw host memory"),
        RedError::InvalidJobParameterRawDeviceMem => String::from_str("Invalid job parameter: raw device memory"),
        RedError::InvalidJobParameterPixelType => String::from_str("Invalid job parameter: pixel type"),
        RedError::InvalidJobParameterOutputDeviceMemSize => String::from_str("Invalid job parameter: output device memory size"),
        RedError::InvalidJobParameterOutputDeviceMem => String::from_str("Invalid job parameter: output device memory"),
        RedError::InvalidJobParameterColorVersion1 => String::from_str("Invalid job parameter: ColorVersion1"),
        RedError::InvalidJobParameterClip => String::from_str("Invalid job parameter: clip"),
        RedError::UnableToUseGPUDevice => String::from_str("Unable to use GPU device"),
        RedError::NoGPUDeviceSpecified => String::from_str("No GPU device specified"),
        RedError::UnableToLoadLibrary => String::from_str("Unable to load library"),
        RedError::InvalidJobParameterDeviceId => String::from_str("Invalid job parameter: device ID"),
        RedError::BufferNotAligned => String::from_str("Buffer not aligned"),
        RedError::InvalidAPIObject => String::from_str("Invalid API object"),
        RedError::BufferTooSmall { needed, provided } => {
            let s = String::from_str("Buffer too small: needed ");
            let s = s.concat(usize_text(*needed).as_str());
            let s = s.concat(" bytes, provided ");
            let s = s.concat(usize_text(*provided).as_str());
            s.concat(" bytes")
        },
        RedError::CudaError(code) => String::from_str("CUDA error: ").concat(i32_text(*code).as_str()),
        RedError::OpenCLError(code) => String::from_str("OpenCL error: ").concat(i32_text(*code).as_str()),
        RedError::MetalError(code) => String::from_str("Metal error: ").concat(i32_text(*code).as_str()),
        RedError::Other(s) => String::from_str("RED error: ").concat(s.as_str()),
        RedError::UnrecognizedStatus(code) => String::from_str("Unrecognized status code: ").concat(
            i32_text(*code).as_str(),
        ),
            RedError::Alloc(e) => {
                let head = String::from_str("Allocation error: ");
                let r = head.concat(e.to_string().as_str());
                assert(r@.take(message_text(*self).len() as int) =~= message_text(*self));
                r
            },
        }
    }
}

} // verus!
