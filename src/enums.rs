//! The value sets of the decoding engine's interface: decode modes, pixel
//! types, image-processing choices and the status codes that its calls report.

use vstd::prelude::*;

verus! {

#[derive(Clone, Copy, Debug, Hash, PartialEq, Eq, Structural)]
pub enum FileId {
    /// unknown/can't open or read
    Unknown,
    /// original .R3D with multi-file/spanning clips (A001_C001_1231XY_001...999.R3D, A001_C002_1231XY_001...999.R3D, etc.)
    R3D,
    /// Nikon .NEV N-RAW with single file per clip (DSC_0001.NEV, DSC_0002.NEV, etc.)
    NevNraw,
    /// .R3D with single file per clip (DSC_0001.R3D, DSC_0002.R3D, etc.)
    R3dNe,
}

impl FileId {
    /// The numeric code of this value in the decoding engine's interface.
    pub open spec fn spec_code(self) -> i32 {
        match self {
            FileId::Unknown => 0,
            FileId::R3D => 1,
            FileId::NevNraw => 3,
            FileId::R3dNe => 4,
        }
    }

    /// The numeric code of this value.
    pub fn code(self) -> (r: i32)
        ensures
            r == self.spec_code(),
    {
        match self {
            FileId::Unknown => 0,
            FileId::R3D => 1,
            FileId::NevNraw => 3,
            FileId::R3dNe => 4,
        }
    }

    /// Reads the engine's answer to identifying a file: each known kind by its
    /// code, and `Unknown` for any other code.
    pub fn from_code(c: i32) -> (r: FileId)
        ensures
            r.spec_code() == c || (r == FileId::Unknown && c != 1 && c != 3 && c != 4),
    {
        if c == 1 {
            FileId::R3D
        } else if c == 3 {
            FileId::NevNraw
        } else if c == 4 {
            FileId::R3dNe
        } else {
            FileId::Unknown
        }
    }
}

#[derive(Clone, Copy, Debug, Hash, PartialEq, Eq, Structural)]
pub enum FileType {
    /// fileIdx invalid in FileList() call
    Invalid,
    /// .R3D or .NEV
    Clip,
    /// .RMD or .cdl
    Metadata,
    /// .cube
    Lut,
    /// .wav
    Audio,
}

/// The different resolutions and qualities the clip can be
/// decoded at. This list expand over time.
#[derive(Clone, Copy, Debug, Hash, PartialEq, Eq, Structural)]
pub enum VideoDecodeMode {
    /// 'DFRP', full resolution, slow, but highest resolution & quality
    FullResPremium,
    /// 'DHRP', half resolution, slow, but highest quality
    HalfResPremium,
    /// 'DHRG', half resolution, fast, still very good quality
    HalfResGood,
    /// 'DQRG', quarter resolution, fast, very good quality
    QuarterResGood,
    /// 'DERG', eight resolution, fast, good quality
    EightResGood,
    /// 'DSRG', sixteenth resolution, fast, good quality
    SixteenthResGood,
}

impl VideoDecodeMode {
    /// The numeric code of this value in the decoding engine's interface.
    pub open spec fn spec_code(self) -> i32 {
        match self {
            VideoDecodeMode::FullResPremium => 0x44465250,
            VideoDecodeMode::HalfResPremium => 0x44485250,
            VideoDecodeMode::HalfResGood => 0x44485247,
            VideoDecodeMode::QuarterResGood => 0x44515247,
            VideoDecodeMode::EightResGood => 0x44455247,
            VideoDecodeMode::SixteenthResGood => 0x44535247,
        }
    }

    /// The value with numeric code `c`, if there is one.
    pub open spec fn spec_from_code(c: i32) -> Option<VideoDecodeMode> {
        if c == 0x44465250 {
            Some(VideoDecodeMode::FullResPremium)
        } else if c == 0x44485250 {
            Some(VideoDecodeMode::HalfResPremium)
        } else if c == 0x44485247 {
            Some(VideoDecodeMode::HalfResGood)
        } else if c == 0x44515247 {
            Some(VideoDecodeMode::QuarterResGood)
        } else if c == 0x44455247 {
            Some(VideoDecodeMode::EightResGood)
        } else if c == 0x44535247 {
            Some(VideoDecodeMode::SixteenthResGood)
        } else {
            None
        }
    }

    /// The numeric code of this value.
    pub fn code(self) -> (r: i32)
        ensures
            r == self.spec_code(),
    {
        match self {
            VideoDecodeMode::FullResPremium => 0x44465250,
            VideoDecodeMode::HalfResPremium => 0x44485250,
            VideoDecodeMode::HalfResGood => 0x44485247,
            VideoDecodeMode::QuarterResGood => 0x44515247,
            VideoDecodeMode::EightResGood => 0x44455247,
            VideoDecodeMode::SixteenthResGood => 0x44535247,
        }
    }

    /// Reads a numeric code; `None` for a code that no value has.
    pub fn from_code(c: i32) -> (r: Option<VideoDecodeMode>)
        ensures
            r == VideoDecodeMode::spec_from_code(c),
            r matches Some(s) ==> s.spec_code() == c,
    {
        if c == 0x44465250 {
            Some(VideoDecodeMode::FullResPremium)
        } else if c == 0x44485250 {
            Some(VideoDecodeMode::HalfResPremium)
        } else if c == 0x44485247 {
            Some(VideoDecodeMode::HalfResGood)
        } else if c == 0x44515247 {
            Some(VideoDecodeMode::QuarterResGood)
        } else if c == 0x44455247 {
            Some(VideoDecodeMode::EightResGood)
        } else if c == 0x44535247 {
            Some(VideoDecodeMode::SixteenthResGood)
        } else {
            None
        }
    }
}

/// The different pixel types to decode images at. The 16-bit RGB
/// planar format has always existed in the SDK but is not supported
/// for RED Rocket decoding. The other two formats are interleaved
/// and are supported for both software and RED Rocket decoding.
#[derive(Clone, Copy, Debug, Hash, PartialEq, Eq, Structural)]
pub enum VideoPixelType {
    /// Interleaved RGB decoding in 16-bits per pixel 4K decodes in this 16-bit pixel type using the Rocket will not be real time.
    /// Use the 12- or 10-bit pixel types below for 4K real time needs
    /// Supported by software and RED Rocket decode
    Rgb16bitInterleaved,
    /// 16-bit half-float decoding. These ImageProcessingSettings fields are ignored:
    /// - GammaCurve (will always be linear)
    /// - Contrast
    /// - Brightness
    /// - Saturation
    /// - RGB gains
    /// - Shadow
    /// - UserCurve, UserCurveRed, UserCurveGreen & UserCurveBlue
    /// - LggRed, LggGreen & LggBlue
    /// - CustomPDLogBlackPoint, CustomPDLogWhitePoint & CustomPDLogGamma
    RgbHalfFloatInterleaved,
    /// 16-bit half-float ACES decoding. These ImageProcessingSettings fields are ignored:
    /// - Same fields as PixelType_HalfFloat_RGB_Interleaved pixel type
    /// - ColorSpace (will always be set to ACES AP0)
    RgbHalfFloatAcesInt,
    /// Planar RGB decoding in 16-bits per pixel
    /// Supported by software decode only
    Rgb16bitPlanar,
    /// Interleaved BGR 8-bit
    Bgr8bitInterleaved,
    /// Interleaved BGRA decoding in 8 bits per pixel, alpha channel = 0xFF
    Bgra8bitInterleaved,
    /// Interleaved RGB 10-bit DPX Method B
    Dpx10bitMethodB,
}

impl VideoPixelType {
    /// The numeric code of this value in the decoding engine's interface.
    pub open spec fn spec_code(self) -> i32 {
        match self {
            VideoPixelType::Rgb16bitInterleaved => 0x52423649,
            VideoPixelType::RgbHalfFloatInterleaved => 0x52424846,
            VideoPixelType::RgbHalfFloatAcesInt => 0x52424841,
            VideoPixelType::Rgb16bitPlanar => 0x52423650,
            VideoPixelType::Bgr8bitInterleaved => 0x42475238,
            VideoPixelType::Bgra8bitInterleaved => 0x42524138,
            VideoPixelType::Dpx10bitMethodB => 0x44503042,
        }
    }

    /// The value with numeric code `c`, if there is one.
    pub open spec fn spec_from_code(c: i32) -> Option<VideoPixelType> {
        if c == 0x52423649 {
            Some(VideoPixelType::Rgb16bitInterleaved)
        } else if c == 0x52424846 {
            Some(VideoPixelType::RgbHalfFloatInterleaved)
        } else if c == 0x52424841 {
            Some(VideoPixelType::RgbHalfFloatAcesInt)
        } else if c == 0x52423650 {
            Some(VideoPixelType::Rgb16bitPlanar)
        } else if c == 0x42475238 {
            Some(VideoPixelType::Bgr8bitInterleaved)
        } else if c == 0x42524138 {
            Some(VideoPixelType::Bgra8bitInterleaved)
        } else if c == 0x44503042 {
            Some(VideoPixelType::Dpx10bitMethodB)
        } else {
            None
        }
    }

    /// The numeric code of this value.
    pub fn code(self) -> (r: i32)
        ensures
            r == self.spec_code(),
    {
        match self {
            VideoPixelType::Rgb16bitInterleaved => 0x52423649,
            VideoPixelType::RgbHalfFloatInterleaved => 0x52424846,
            VideoPixelType::RgbHalfFloatAcesInt => 0x52424841,
            VideoPixelType::Rgb16bitPlanar => 0x52423650,
            VideoPixelType::Bgr8bitInterleaved => 0x42475238,
            VideoPixelType::Bgra8bitInterleaved => 0x42524138,
            VideoPixelType::Dpx10bitMethodB => 0x44503042,
        }
    }

    /// Reads a numeric code; `None` for a code that no value has.
    pub fn from_code(c: i32) -> (r: Option<VideoPixelType>)
        ensures
            r == VideoPixelType::spec_from_code(c),
            r matches Some(s) ==> s.spec_code() == c,
    {
        if c == 0x52423649 {
            Some(VideoPixelType::Rgb16bitInterleaved)
        } else if c == 0x52424846 {
            Some(VideoPixelType::RgbHalfFloatInterleaved)
        } else if c == 0x52424841 {
            Some(VideoPixelType::RgbHalfFloatAcesInt)
        } else if c == 0x52423650 {
            Some(VideoPixelType::Rgb16bitPlanar)
        } else if c == 0x42475238 {
            Some(VideoPixelType::Bgr8bitInterleaved)
        } else if c == 0x42524138 {
            Some(VideoPixelType::Bgra8bitInterleaved)
        } else if c == 0x44503042 {
            Some(VideoPixelType::Dpx10bitMethodB)
        } else {
            None
        }
    }
}

/// HDRx blending algorithm to use when doing HDR blending
#[derive(Clone, Copy, Debug, Hash, PartialEq, Eq, Structural)]
pub enum HdrBlendAlgorithm {
    /// Simple blend, exactly as implemented in 12_SimpleHDRxBlend
    /// On the Rocket this will ALWAYS decode in 16-bit to do the blend
    /// This can result in slow downs at full resolution. If you need a
    /// preview option in 8-bit then decode 2 images in 8-bit and
    /// implement the simple blend as per sample code 12_SimpleHDRxBlend
    HDRxSimpleBlend,
    /// Magic Motion, more sophisticated blend
    HDRxMagicMotion,
}

/// HDR read status & write setting when reading & writing RMD sidecar files
#[derive(Clone, Copy, Debug, Hash, PartialEq, Eq, Structural)]
pub enum HdrMode {
    /// Use A / main (#0) or X (#1) track
    UseTrackNo,
    /// Blend A and X tracks using specified settings
    DoBlend,
}

#[derive(Clone, Copy, Debug, Hash, PartialEq, Eq, Structural)]
pub enum MetadataType {
    Invalid,
    Int,
    String,
    Float,
}

#[derive(Clone, Copy, Debug, Hash, PartialEq, Eq, Structural)]
pub enum InitializeStatus {
    InitializeOk,
    LibraryNotLoaded,
    R3DSDKLibraryNotFound,
    RedCudaLibraryNotFound,
    RedOpenCLLibraryNotFound,
    R3DDecoderLibraryNotFound,
    RedMetalLibraryNotFound,
    LibraryVersionMismatch,
    InvalidR3DSDKLibrary,
    InvalidRedCudaLibrary,
    InvalidRedOpenCLLibrary,
    InvalidR3DDecoderLibrary,
    InvalidRedMetalLibrary,
    RedCudaLibraryInitializeFailed,
    RedOpenCLLibraryInitializeFailed,
    R3DDecoderLibraryInitializeFailed,
    R3DSDKLibraryInitializeFailed,
    RedMetalLibraryInitializeFailed,
    InvalidPath,
    InternalError,
    MetalNotAvailable,
}

impl InitializeStatus {
    /// The numeric code of this value in the decoding engine's interface.
    pub open spec fn spec_code(self) -> i32 {
        match self {
            InitializeStatus::InitializeOk => 0,
            InitializeStatus::LibraryNotLoaded => 1,
            InitializeStatus::R3DSDKLibraryNotFound => 2,
            InitializeStatus::RedCudaLibraryNotFound => 3,
            InitializeStatus::RedOpenCLLibraryNotFound => 4,
            InitializeStatus::R3DDecoderLibraryNotFound => 5,
            InitializeStatus::RedMetalLibraryNotFound => 17,
            InitializeStatus::LibraryVersionMismatch => 6,
            InitializeStatus::InvalidR3DSDKLibrary => 7,
            InitializeStatus::InvalidRedCudaLibrary => 8,
            InitializeStatus::InvalidRedOpenCLLibrary => 9,
            InitializeStatus::InvalidR3DDecoderLibrary => 10,
            InitializeStatus::InvalidRedMetalLibrary => 18,
            InitializeStatus::RedCudaLibraryInitializeFailed => 11,
            InitializeStatus::RedOpenCLLibraryInitializeFailed => 12,
            InitializeStatus::R3DDecoderLibraryInitializeFailed => 13,
            InitializeStatus::R3DSDKLibraryInitializeFailed => 14,
            InitializeStatus::RedMetalLibraryInitializeFailed => 19,
            InitializeStatus::InvalidPath => 15,
            InitializeStatus::InternalError => 16,
            InitializeStatus::MetalNotAvailable => 20,
        }
    }

    /// The value with numeric code `c`, if there is one.
    pub open spec fn spec_from_code(c: i32) -> Option<InitializeStatus> {
        if c == 0 {
            Some(InitializeStatus::InitializeOk)
        } else if c == 1 {
            Some(InitializeStatus::LibraryNotLoaded)
        } else if c == 2 {
            Some(InitializeStatus::R3DSDKLibraryNotFound)
        } else if c == 3 {
            Some(InitializeStatus::RedCudaLibraryNotFound)
        } else if c == 4 {
            Some(InitializeStatus::RedOpenCLLibraryNotFound)
        } else if c == 5 {
            Some(InitializeStatus::R3DDecoderLibraryNotFound)
        } else if c == 17 {
            Some(InitializeStatus::RedMetalLibraryNotFound)
        } else if c == 6 {
            Some(InitializeStatus::LibraryVersionMismatch)
        } else if c == 7 {
            Some(InitializeStatus::InvalidR3DSDKLibrary)
        } else if c == 8 {
            Some(InitializeStatus::InvalidRedCudaLibrary)
        } else if c == 9 {
            Some(InitializeStatus::InvalidRedOpenCLLibrary)
        } else if c == 10 {
            Some(InitializeStatus::InvalidR3DDecoderLibrary)
        } else if c == 18 {
            Some(InitializeStatus::InvalidRedMetalLibrary)
        } else if c == 11 {
            Some(InitializeStatus::RedCudaLibraryInitializeFailed)
        } else if c == 12 {
            Some(InitializeStatus::RedOpenCLLibraryInitializeFailed)
        } else if c == 13 {
            Some(InitializeStatus::R3DDecoderLibraryInitializeFailed)
        } else if c == 14 {
            Some(InitializeStatus::R3DSDKLibraryInitializeFailed)
        } else if c == 19 {
            Some(InitializeStatus::RedMetalLibraryInitializeFailed)
        } else if c == 15 {
            Some(InitializeStatus::InvalidPath)
        } else if c == 16 {
            Some(InitializeStatus::InternalError)
        } else if c == 20 {
            Some(InitializeStatus::MetalNotAvailable)
        } else {
            None
        }
    }

    /// The numeric code of this value.
    pub fn code(self) -> (r: i32)
        ensures
            r == self.spec_code(),
    {
        match self {
            InitializeStatus::InitializeOk => 0,
            InitializeStatus::LibraryNotLoaded => 1,
            InitializeStatus::R3DSDKLibraryNotFound => 2,
            InitializeStatus::RedCudaLibraryNotFound => 3,
            InitializeStatus::RedOpenCLLibraryNotFound => 4,
            InitializeStatus::R3DDecoderLibraryNotFound => 5,
            InitializeStatus::RedMetalLibraryNotFound => 17,
            InitializeStatus::LibraryVersionMismatch => 6,
            InitializeStatus::InvalidR3DSDKLibrary => 7,
            InitializeStatus::InvalidRedCudaLibrary => 8,
            InitializeStatus::InvalidRedOpenCLLibrary => 9,
            InitializeStatus::InvalidR3DDecoderLibrary => 10,
            InitializeStatus::InvalidRedMetalLibrary => 18,
            InitializeStatus::RedCudaLibraryInitializeFailed => 11,
            InitializeStatus::RedOpenCLLibraryInitializeFailed => 12,
            InitializeStatus::R3DDecoderLibraryInitializeFailed => 13,
            InitializeStatus::R3DSDKLibraryInitializeFailed => 14,
            InitializeStatus::RedMetalLibraryInitializeFailed => 19,
            InitializeStatus::InvalidPath => 15,
            InitializeStatus::InternalError => 16,
            InitializeStatus::MetalNotAvailable => 20,
        }
    }

    /// Reads a numeric code; `None` for a code that no value has.
    pub fn from_code(c: i32) -> (r: Option<InitializeStatus>)
        ensures
            r == InitializeStatus::spec_from_code(c),
            r matches Some(s) ==> s.spec_code() == c,
    {
        if c == 0 {
            Some(InitializeStatus::InitializeOk)
        } else if c == 1 {
            Some(InitializeStatus::LibraryNotLoaded)
        } else if c == 2 {
            Some(InitializeStatus::R3DSDKLibraryNotFound)
        } else if c == 3 {
            Some(InitializeStatus::RedCudaLibraryNotFound)
        } else if c == 4 {
            Some(InitializeStatus::RedOpenCLLibraryNotFound)
        } else if c == 5 {
            Some(InitializeStatus::R3DDecoderLibraryNotFound)
        } else if c == 17 {
            Some(InitializeStatus::RedMetalLibraryNotFound)
        } else if c == 6 {
            Some(InitializeStatus::LibraryVersionMismatch)
        } else if c == 7 {
            Some(InitializeStatus::InvalidR3DSDKLibrary)
        } else if c == 8 {
            Some(InitializeStatus::InvalidRedCudaLibrary)
        } else if c == 9 {
            Some(InitializeStatus::InvalidRedOpenCLLibrary)
        } else if c == 10 {
            Some(InitializeStatus::InvalidR3DDecoderLibrary)
        } else if c == 18 {
            Some(InitializeStatus::InvalidRedMetalLibrary)
        } else if c == 11 {
            Some(InitializeStatus::RedCudaLibraryInitializeFailed)
        } else if c == 12 {
            Some(InitializeStatus::RedOpenCLLibraryInitializeFailed)
        } else if c == 13 {
            Some(InitializeStatus::R3DDecoderLibraryInitializeFailed)
        } else if c == 14 {
            Some(InitializeStatus::R3DSDKLibraryInitializeFailed)
        } else if c == 19 {
            Some(InitializeStatus::RedMetalLibraryInitializeFailed)
        } else if c == 15 {
            Some(InitializeStatus::InvalidPath)
        } else if c == 16 {
            Some(InitializeStatus::InternalError)
        } else if c == 20 {
            Some(InitializeStatus::MetalNotAvailable)
        } else {
            None
        }
    }
}

/// Clip load status
#[derive(Clone, Copy, Debug, Hash, PartialEq, Eq, Structural)]
pub enum LoadStatus {
    ClipLoaded,
    /// could not find the clip
    PathNotFound,
    /// could not open the clip
    FailedToOpenFile,
    /// clip does not appear to be a(n) (valid) R3D file
    NotAnR3DFile,
    /// clip doesn't have any video frames in it
    ClipIsEmpty,
    /// no more memory could be allocated
    OutOfMemory,
    /// unknown error (shouldn't happen)
    UnknownError,
    /// initial status, no clip has been loaded yet
    NoClipOpen,
    /// library wasn't loaded properly (if obj-c, try new() instead)
    NotInitialized,
}

impl LoadStatus {
    /// The numeric code of this value in the decoding engine's interface.
    pub open spec fn spec_code(self) -> i32 {
        match self {
            LoadStatus::ClipLoaded => 0,
            LoadStatus::PathNotFound => 1,
            LoadStatus::FailedToOpenFile => 2,
            LoadStatus::NotAnR3DFile => 3,
            LoadStatus::ClipIsEmpty => 4,
            LoadStatus::OutOfMemory => 5,
            LoadStatus::UnknownError => 6,
            LoadStatus::NoClipOpen => 7,
            LoadStatus::NotInitialized => 8,
        }
    }

    /// The value with numeric code `c`, if there is one.
    pub open spec fn spec_from_code(c: i32) -> Option<LoadStatus> {
        if c == 0 {
            Some(LoadStatus::ClipLoaded)
        } else if c == 1 {
            Some(LoadStatus::PathNotFound)
        } else if c == 2 {
            Some(LoadStatus::FailedToOpenFile)
        } else if c == 3 {
            Some(LoadStatus::NotAnR3DFile)
        } else if c == 4 {
            Some(LoadStatus::ClipIsEmpty)
        } else if c == 5 {
            Some(LoadStatus::OutOfMemory)
        } else if c == 6 {
            Some(LoadStatus::UnknownError)
        } else if c == 7 {
            Some(LoadStatus::NoClipOpen)
        } else if c == 8 {
            Some(LoadStatus::NotInitialized)
        } else {
            None
        }
    }

    /// The numeric code of this value.
    pub fn code(self) -> (r: i32)
        ensures
            r == self.spec_code(),
    {
        match self {
            LoadStatus::ClipLoaded => 0,
            LoadStatus::PathNotFound => 1,
            LoadStatus::FailedToOpenFile => 2,
            LoadStatus::NotAnR3DFile => 3,
            LoadStatus::ClipIsEmpty => 4,
            LoadStatus::OutOfMemory => 5,
            LoadStatus::UnknownError => 6,
            LoadStatus::NoClipOpen => 7,
            LoadStatus::NotInitialized => 8,
        }
    }

    /// Reads a numeric code; `None` for a code that no value has.
    pub fn from_code(c: i32) -> (r: Option<LoadStatus>)
        ensures
            r == LoadStatus::spec_from_code(c),
            r matches Some(s) ==> s.spec_code() == c,
    {
        if c == 0 {
            Some(LoadStatus::ClipLoaded)
        } else if c == 1 {
            Some(LoadStatus::PathNotFound)
        } else if c == 2 {
            Some(LoadStatus::FailedToOpenFile)
        } else if c == 3 {
            Some(LoadStatus::NotAnR3DFile)
        } else if c == 4 {
            Some(LoadStatus::ClipIsEmpty)
        } else if c == 5 {
            Some(LoadStatus::OutOfMemory)
        } else if c == 6 {
            Some(LoadStatus::UnknownError)
        } else if c == 7 {
            Some(LoadStatus::NoClipOpen)
        } else if c == 8 {
            Some(LoadStatus::NotInitialized)
        } else {
            None
        }
    }
}

/// Clip create status
#[derive(Clone, Copy, Debug, Hash, PartialEq, Eq, Structural)]
pub enum CreateStatus {
    /// trim has started but has not finished yet
    Started,
    /// a frame has been added to the output clip, but not finished yet
    FrameAdded,
    /// trim is done
    Done,
    /// no more memory could be allocated
    OutOfMemory,
    /// the requested start or end frame does not exist in the clip
    RequestOutOfRange,
    InvalidParameter,
    /// unable to load a frame from the source clip
    FailedToGetSourceFrame,
    /// unable to create output clip
    FailedToCreateDestination,
    /// unable to write to output clip
    FailedToWriteToDestination,
    UnknownError,
    /// source clip cannot be used for trim (RED ONE firmware build 15 and below not supported)
    InvalidSourceClip,
    /// output path is invalid (see trim requirements)
    InvalidPath,
    /// unable to load needed audio samples form source clip
    FailedToGetSourceAudio,
    /// streaming packets need to be added in order
    OutOfOrder,
    /// streaming packet is invalid
    InvalidStream,
}

/// Video decode status
#[derive(Clone, Copy, Debug, Hash, PartialEq, Eq, Structural)]
pub enum DecodeStatus {
    DecodeOk,
    /// null pointer, too small or not aligned
    OutputBufferInvalid,
    /// the requested frame does not exist in the clip
    RequestOutOfRange,
    /// one of the supplied parameters is not valid
    InvalidParameter,
    /// the requested frame is a dropped frame and can't be decoded (video decode only)
    IsDroppedFrame,
    /// decode failed because of a corrupt frame
    DecodeFailed,
    /// no more memory could be allocated
    OutOfMemory,
    /// unknown error (shouldn't happen)
    UnknownError,
    /// open a clip first before trying to decode a frame
    NoClipOpen,
    /// I/O error reading the frame
    CannotReadFromFile,
    /// cannot decode to specified pixel type
    InvalidPixelType,
    /// cannot decode HDRx as this is not an HDRx clip
    NotAnHDRxClip,
    /// user requested decode to be cancelled
    Cancelled,
    /// this clip format is not supported for the requested decode
    UnsupportedClipFormat,
    /// one of the parameters supplied is not supported by this API. Upgrade to newer dynamic libraries.
    ParameterUnsupported,
    /// open async decoder first before submitting decodes
    DecoderNotOpened,
}

impl DecodeStatus {
    /// The numeric code of this value in the decoding engine's interface.
    pub open spec fn spec_code(self) -> i32 {
        match self {
            DecodeStatus::DecodeOk => 0,
            DecodeStatus::OutputBufferInvalid => 1,
            DecodeStatus::RequestOutOfRange => 3,
            DecodeStatus::InvalidParameter => 4,
            DecodeStatus::IsDroppedFrame => 5,
            DecodeStatus::DecodeFailed => 6,
            DecodeStatus::OutOfMemory => 7,
            DecodeStatus::UnknownError => 8,
            DecodeStatus::NoClipOpen => 9,
            DecodeStatus::CannotReadFromFile => 10,
            DecodeStatus::InvalidPixelType => 11,
            DecodeStatus::NotAnHDRxClip => 12,
            DecodeStatus::Cancelled => 13,
            DecodeStatus::UnsupportedClipFormat => 14,
            DecodeStatus::ParameterUnsupported => 15,
            DecodeStatus::DecoderNotOpened => 16,
        }
    }

    /// The value with numeric code `c`, if there is one.
    pub open spec fn spec_from_code(c: i32) -> Option<DecodeStatus> {
        if c == 0 {
            Some(DecodeStatus::DecodeOk)
        } else if c == 1 {
            Some(DecodeStatus::OutputBufferInvalid)
        } else if c == 3 {
            Some(DecodeStatus::RequestOutOfRange)
        } else if c == 4 {
            Some(DecodeStatus::InvalidParameter)
        } else if c == 5 {
            Some(DecodeStatus::IsDroppedFrame)
        } else if c == 6 {
            Some(DecodeStatus::DecodeFailed)
        } else if c == 7 {
            Some(DecodeStatus::OutOfMemory)
        } else if c == 8 {
            Some(DecodeStatus::UnknownError)
        } else if c == 9 {
            Some(DecodeStatus::NoClipOpen)
        } else if c == 10 {
            Some(DecodeStatus::CannotReadFromFile)
        } else if c == 11 {
            Some(DecodeStatus::InvalidPixelType)
        } else if c == 12 {
            Some(DecodeStatus::NotAnHDRxClip)
        } else if c == 13 {
            Some(DecodeStatus::Cancelled)
        } else if c == 14 {
            Some(DecodeStatus::UnsupportedClipFormat)
        } else if c == 15 {
            Some(DecodeStatus::ParameterUnsupported)
        } else if c == 16 {
            Some(DecodeStatus::DecoderNotOpened)
        } else {
            None
        }
    }

    /// The numeric code of this value.
    pub fn code(self) -> (r: i32)
        ensures
            r == self.spec_code(),
    {
        match self {
            DecodeStatus::DecodeOk => 0,
            DecodeStatus::OutputBufferInvalid => 1,
            DecodeStatus::RequestOutOfRange => 3,
            DecodeStatus::InvalidParameter => 4,
            DecodeStatus::IsDroppedFrame => 5,
            DecodeStatus::DecodeFailed => 6,
            DecodeStatus::OutOfMemory => 7,
            DecodeStatus::UnknownError => 8,
            DecodeStatus::NoClipOpen => 9,
            DecodeStatus::CannotReadFromFile => 10,
            DecodeStatus::InvalidPixelType => 11,
            DecodeStatus::NotAnHDRxClip => 12,
            DecodeStatus::Cancelled => 13,
            DecodeStatus::UnsupportedClipFormat => 14,
            DecodeStatus::ParameterUnsupported => 15,
            DecodeStatus::DecoderNotOpened => 16,
        }
    }

    /// Reads a numeric code; `None` for a code that no value has.
    pub fn from_code(c: i32) -> (r: Option<DecodeStatus>)
        ensures
            r == DecodeStatus::spec_from_code(c),
            r matches Some(s) ==> s.spec_code() == c,
    {
        if c == 0 {
            Some(DecodeStatus::DecodeOk)
        } else if c == 1 {
            Some(DecodeStatus::OutputBufferInvalid)
        } else if c == 3 {
            Some(DecodeStatus::RequestOutOfRange)
        } else if c == 4 {
            Some(DecodeStatus::InvalidParameter)
        } else if c == 5 {
            Some(DecodeStatus::IsDroppedFrame)
        } else if c == 6 {
            Some(DecodeStatus::DecodeFailed)
        } else if c == 7 {
            Some(DecodeStatus::OutOfMemory)
        } else if c == 8 {
            Some(DecodeStatus::UnknownError)
        } else if c == 9 {
            Some(DecodeStatus::NoClipOpen)
        } else if c == 10 {
            Some(DecodeStatus::CannotReadFromFile)
        } else if c == 11 {
            Some(DecodeStatus::InvalidPixelType)
        } else if c == 12 {
            Some(DecodeStatus::NotAnHDRxClip)
        } else if c == 13 {
            Some(DecodeStatus::Cancelled)
        } else if c == 14 {
            Some(DecodeStatus::UnsupportedClipFormat)
        } else if c == 15 {
            Some(DecodeStatus::ParameterUnsupported)
        } else if c == 16 {
            Some(DecodeStatus::DecoderNotOpened)
        } else {
            None
        }
    }
}

#[derive(Clone, Copy, Debug, Hash, PartialEq, Eq, Structural)]
pub enum R3DStatus {
    StatusOk,
    ErrorProcessing,
    InvalidJobParameter,
    /// mode value passed in is not compatible with this SDK or the mode used with the DecodeForGpuSdk call is not compatible
    InvalidJobParameterMode,
    /// pointer is NULL, data is not from DecodeForGpuSdk, R3DSDK and GPUSDK versions are incompatible or buffer is not actually in host memory.
    InvalidJobParameterRawHostMem,
    InvalidJobParameterRawDeviceMem,
    /// unsupported pixel type
    InvalidJobParameterPixelType,
    /// Output buffer Size must be non zero.
    /// Output buffer must be allocated prior to passing it into the sdk
    InvalidJobParameterOutputDeviceMemSize,
    InvalidJobParameterOutputDeviceMem,
    /// Image processing settings ColorVersion was set to ColorVersion1 which is not supported by this SDK
    InvalidJobParameterColorVersion1,
    /// null, or unopened clip.
    InvalidJobParameterClip,
    /// GPU Device did not meet minimum requirements.
    UnableToUseGPUDevice,
    /// No GPU Devices were setup on the R3DDecoderOptions class
    NoGPUDeviceSpecified,
    /// Error loading R3DSDK dynamic library
    UnableToLoadLibrary,
    ParameterUnsupported,
}

impl R3DStatus {
    /// The numeric code of this value in the decoding engine's interface.
    pub open spec fn spec_code(self) -> i32 {
        match self {
            R3DStatus::StatusOk => 0,
            R3DStatus::ErrorProcessing => 1,
            R3DStatus::InvalidJobParameter => 2,
            R3DStatus::InvalidJobParameterMode => 3,
            R3DStatus::InvalidJobParameterRawHostMem => 4,
            R3DStatus::InvalidJobParameterRawDeviceMem => 5,
            R3DStatus::InvalidJobParameterPixelType => 6,
            R3DStatus::InvalidJobParameterOutputDeviceMemSize => 7,
            R3DStatus::InvalidJobParameterOutputDeviceMem => 8,
            R3DStatus::InvalidJobParameterColorVersion1 => 9,
            R3DStatus::InvalidJobParameterClip => 10,
            R3DStatus::UnableToUseGPUDevice => 11,
            R3DStatus::NoGPUDeviceSpecified => 12,
            R3DStatus::UnableToLoadLibrary => 13,
            R3DStatus::ParameterUnsupported => 14,
        }
    }

    /// The value with numeric code `c`, if there is one.
    pub open spec fn spec_from_code(c: i32) -> Option<R3DStatus> {
        if c == 0 {
            Some(R3DStatus::StatusOk)
        } else if c == 1 {
            Some(R3DStatus::ErrorProcessing)
        } else if c == 2 {
            Some(R3DStatus::InvalidJobParameter)
        } else if c == 3 {
            Some(R3DStatus::InvalidJobParameterMode)
        } else if c == 4 {
            Some(R3DStatus::InvalidJobParameterRawHostMem)
        } else if c == 5 {
            Some(R3DStatus::InvalidJobParameterRawDeviceMem)
        } else if c == 6 {
            Some(R3DStatus::InvalidJobParameterPixelType)
        } else if c == 7 {
            Some(R3DStatus::InvalidJobParameterOutputDeviceMemSize)
        } else if c == 8 {
            Some(R3DStatus::InvalidJobParameterOutputDeviceMem)
        } else if c == 9 {
            Some(R3DStatus::InvalidJobParameterColorVersion1)
        } else if c == 10 {
            Some(R3DStatus::InvalidJobParameterClip)
        } else if c == 11 {
            Some(R3DStatus::UnableToUseGPUDevice)
        } else if c == 12 {
            Some(R3DStatus::NoGPUDeviceSpecified)
        } else if c == 13 {
            Some(R3DStatus::UnableToLoadLibrary)
        } else if c == 14 {
            Some(R3DStatus::ParameterUnsupported)
        } else {
            None
        }
    }

    /// The numeric code of this value.
    pub fn code(self) -> (r: i32)
        ensures
            r == self.spec_code(),
    {
        match self {
            R3DStatus::StatusOk => 0,
            R3DStatus::ErrorProcessing => 1,
            R3DStatus::InvalidJobParameter => 2,
            R3DStatus::InvalidJobParameterMode => 3,
            R3DStatus::InvalidJobParameterRawHostMem => 4,
            R3DStatus::InvalidJobParameterRawDeviceMem => 5,
            R3DStatus::InvalidJobParameterPixelType => 6,
            R3DStatus::InvalidJobParameterOutputDeviceMemSize => 7,
            R3DStatus::InvalidJobParameterOutputDeviceMem => 8,
            R3DStatus::InvalidJobParameterColorVersion1 => 9,
            R3DStatus::InvalidJobParameterClip => 10,
            R3DStatus::UnableToUseGPUDevice => 11,
            R3DStatus::NoGPUDeviceSpecified => 12,
            R3DStatus::UnableToLoadLibrary => 13,
            R3DStatus::ParameterUnsupported => 14,
        }
    }

    /// Reads a numeric code; `None` for a code that no value has.
    pub fn from_code(c: i32) -> (r: Option<R3DStatus>)
        ensures
            r == R3DStatus::spec_from_code(c),
            r matches Some(s) ==> s.spec_code() == c,
    {
        if c == 0 {
            Some(R3DStatus::StatusOk)
        } else if c == 1 {
            Some(R3DStatus::ErrorProcessing)
        } else if c == 2 {
            Some(R3DStatus::InvalidJobParameter)
        } else if c == 3 {
            Some(R3DStatus::InvalidJobParameterMode)
        } else if c == 4 {
            Some(R3DStatus::InvalidJobParameterRawHostMem)
        } else if c == 5 {
            Some(R3DStatus::InvalidJobParameterRawDeviceMem)
        } else if c == 6 {
            Some(R3DStatus::InvalidJobParameterPixelType)
        } else if c == 7 {
            Some(R3DStatus::InvalidJobParameterOutputDeviceMemSize)
        } else if c == 8 {
            Some(R3DStatus::InvalidJobParameterOutputDeviceMem)
        } else if c == 9 {
            Some(R3DStatus::InvalidJobParameterColorVersion1)
        } else if c == 10 {
            Some(R3DStatus::InvalidJobParameterClip)
        } else if c == 11 {
            Some(R3DStatus::UnableToUseGPUDevice)
        } else if c == 12 {
            Some(R3DStatus::NoGPUDeviceSpecified)
        } else if c == 13 {
            Some(R3DStatus::UnableToLoadLibrary)
        } else if c == 14 {
            Some(R3DStatus::ParameterUnsupported)
        } else {
            None
        }
    }
}

/// Possible marker types
#[derive(Clone, Copy, Debug, Hash, PartialEq, Eq, Structural)]
pub enum MarkerType {
    /// region, most likely has different start & end frame numbers
    SubClip,
    /// single frame marker, start & end frame number will be the same
    StillFrame,
}

#[derive(Clone, Copy, Debug, Hash, PartialEq, Eq, Structural)]
pub enum ImageGammaCurve {
    Linear,
    SRGB,
    HDR2084,
    BT1886,
    /// mid grey point maps to 1/3, encodes 12 stops above mid grey
    Log3G12,
    /// mid grey point maps to 1/3, encodes 10 stops above mid grey
    Log3G10,
    /// only available with color version 2 or newer, otherwise ignored (REDlog will be used)
    REDlogFilm,
    /// color version 3+
    HybridLogGamma,
    /// color version 3+
    Gamma2_2,
    /// color version 3+
    Gamma2_6,
    /// BT1886 will be used in IPP2 mode.
    Rec709,
    /// v4: only available with color version 2, otherwise ignored
    REDgamma4,
    PDlog685,
    PDlog985,
    /// if used CustomPDLogBlackPoint, WhitePoint & Gamma must be set!
    CustomPDlog,
    /// only available with color version 2, otherwise ignored
    REDspace,
    /// only available with color version 2, otherwise ignored
    REDlog,
    /// v1: only available with color version 2, otherwise ignored
    REDgamma,
    /// v2: only available with color version 2, otherwise ignored
    REDgamma2,
    /// v3: only available with color version 2, otherwise ignored
    REDgamma3,
}

#[derive(Clone, Copy, Debug, Hash, PartialEq, Eq, Structural)]
pub enum ImageColorSpace {
    /// only available with color version 2 or newer, otherwise ignored (CameraRGB will be used)
    REDWideGamutRGB,
    /// only available with color version 2 or newer, otherwise ignored (REDspace will be used)
    Rec2020,
    Rec709,
    SRGB,
    Adobe1998,
    /// only available with color version 2 or newer
    DCIP3,
    /// only available with color version 2 or newer
    ProPhotoRGB,
    /// only available with color version 3 or newer
    DCIP3D65,
    /// v2: only available with color version 2, otherwise ignored
    DRAGONcolor2,
    /// v4: only available with color version 2, otherwise ignored
    REDcolor4,
    CameraRGB,
    REDspace,
    /// v1: only available with color version 2, otherwise ignored
    REDcolor,
    /// v2: only available with color version 2, otherwise ignored
    REDcolor2,
    /// v3: only available with color version 2, otherwise ignored
    REDcolor3,
    /// v1: only available with color version 2, otherwise ignored
    DRAGONcolor,
}

/// IPP2 (ColorVersion3) only
#[derive(Clone, Copy, Debug, Hash, PartialEq, Eq, Structural)]
pub enum ImagePipeline {
    /// output in REDWideGamutRGB & Log3G10. Only Kelvin, Tint, ISO and ExposureAdjust available.
    PrimaryDevelopmentOnly,
    /// default
    FullGraded,
}

/// IPP2 (ColorVersion3) only
#[derive(Clone, Copy, Debug, Hash, PartialEq, Eq, Structural)]
pub enum RollOff {
    VerySoft,
    Soft,
    Medium,
    Hard,
    /// advanced option
    Disabled,
}

/// IPP2 (ColorVersion3) only
#[derive(Clone, Copy, Debug, Hash, PartialEq, Eq, Structural)]
pub enum ToneMap {
    Low,
    Medium,
    High,
    Disabled,
}

/// Amount of detail extraction (not sharpening!) for
/// the full resolution premium software decode only!
#[derive(Clone, Copy, Debug, Hash, PartialEq, Eq, Structural)]
pub enum ImageDetail {
    Low,
    Medium,
    /// default
    High,
}

/// Compensation for the OLPF (low-pass) filter for
/// the half & full resolution premium software decodes
#[derive(Clone, Copy, Debug, Hash, PartialEq, Eq, Structural)]
pub enum ImageOLPFCompensation {
    Off,
    Low,
    Medium,
    High,
}

/// Amount of noise reduction to do for the
/// full resolution premium software decode
#[derive(Clone, Copy, Debug, Hash, PartialEq, Eq, Structural)]
pub enum ImageDenoise {
    Off,
    Minimum,
    Milder,
    Mild,
    Medium,
    Strong,
    Maximum,
}

#[derive(Clone, Copy, Debug, Hash, PartialEq, Eq, Structural)]
pub enum FlashingPixelAdjust {
    Off,
    Mild,
    Medium,
    Strong,
}

/// Which color version to use with the image processing settings.
/// Default is ColorVersion3, which is the new IPP2 color science.
#[derive(Clone, Copy, Debug, Hash, PartialEq, Eq, Structural)]
pub enum ColorVersion {
    /// Legacy
    Version1,
    /// Legacy (FLUT)
    Version2,
    /// IPP2
    Version3,
    VersionBC,
}

} // verus!
