//! Named, versioned shared regions: the header codec, the write and read
//! protocol on a mapped byte range, a bump arena, and the registry and state
//! container built on them.

pub mod android;
pub mod arena;
pub mod commands;
pub mod error;
pub mod linux;
pub mod memio_manager;
pub mod memio_shared;
pub mod platform;
pub mod region;
pub mod registry;
pub mod schema;
pub mod shared_file;
pub mod shared_header;
pub mod shared_ring;
pub mod state;
pub mod table;
pub mod text;
pub mod windows;
pub mod windows_hostobject;
pub mod windows_shared_buffer;

pub use arena::Arena;
pub use error::{MemioError, MemioResult, SharedMemoryError};
pub use memio_manager::{MemioManager, ReadResult, WaitOutcome, WaitStep, WriteResult};
pub use memio_shared::MemioShared;
pub use platform::{platform_factory, Platform, PlatformFactory};
pub use region::{HandleKind, SharedMemoryFactory, SharedMemoryRegion, SharedStateInfo};
pub use registry::SharedRegistry;
pub use schema::{schema_json, MemioField, MemioFieldType, MemioScalarType, MemioSchema};
pub use shared_file::SharedFileCache;
pub use shared_header::{
    read_header, read_length, read_u64_le, read_version, validate_magic, validate_magic_result,
    write_header, write_header_unchecked, write_u64_le, SHARED_STATE_ENDIANNESS,
    SHARED_STATE_HEADER_SIZE, SHARED_STATE_LENGTH_OFFSET, SHARED_STATE_MAGIC,
    SHARED_STATE_MAGIC_OFFSET, SHARED_STATE_VERSION_OFFSET,
};
pub use state::{MemioState, NoOpRegion};
