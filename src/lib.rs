//! Safe, verified building blocks around a callback-driven media decoding
//! engine: the value sets and status codes of its interface, the error
//! taxonomy those codes map onto, single-resolution completion cells that turn
//! the engine's completion callbacks into awaitable results, and the handle
//! tables and storage backends behind its pluggable I/O interface.

pub mod completion;
pub mod enums;
pub mod error;
pub mod filesystem;
pub mod frame;
pub mod gpu;
pub mod handles;
pub mod io;
pub mod stream_io;

pub use completion::{CellState, Completion, CompletionTable, PollResult, Slot};
pub use enums::{
    ColorVersion, CreateStatus, DecodeStatus, FileId, FileType, FlashingPixelAdjust,
    HdrBlendAlgorithm, HdrMode, ImageColorSpace, ImageDenoise, ImageDetail, ImageGammaCurve,
    ImageOLPFCompensation, ImagePipeline, InitializeStatus, LoadStatus, MarkerType, MetadataType,
    R3DStatus, RollOff, ToneMap, VideoDecodeMode, VideoPixelType,
};
pub use error::{
    decode_status_result, initialize_status_result, load_status_result, r3d_status_result,
    RedError, RedResult,
};
pub use filesystem::{
    path_created, read_step, FilesystemIo, OpenOutcome, OsFailure, ReadEvent, ReadStep,
};
pub use frame::{
    calculate_buffer_size, check_buffer_len, mode_divisor, pixel_info, scaled_dims, PixelInfo,
};
pub use gpu::{
    cuda_status_result, metal_status_result, opencl_status_result, CudaStatus, MetalStatus,
    OpenClStatus,
};
pub use handles::{Handle, HandleTable, HANDLE_ERROR, HANDLE_FALLBACK};
pub use io::{FileAccess, IoBridge, IoInterface};
pub use stream_io::StreamIo;
