//! Error kinds of the library and the text each one is reported with.

use crate::text::{push_decimal, spec_decimal};
use vstd::prelude::*;
use vstd::string::*;

verus! {

pub type MemioResult<T> = Result<T, MemioError>;

/// The name under which the region layer refers to [`MemioError`].
pub type SharedMemoryError = MemioError;

#[derive(Debug, Clone, PartialEq, Eq)]
pub enum MemioError {
    /// The arena cannot hold the requested bytes.
    ArenaFull { requested: usize, available: usize },
    /// An address does not have the alignment that was asked for.
    Alignment { expected: usize, actual: usize },
    Serialization(String),
    Deserialization(String),
    PlatformNotSupported,
    /// Zero, or too large for a header to be put in front of it.
    InvalidCapacity,
    CreateFailed(String),
    OpenFailed(String),
    MmapFailed,
    /// A write of `data_len` bytes into a region that holds `capacity`.
    DataTooLarge { data_len: usize, capacity: usize },
    /// The magic does not match, or the stored length exceeds the capacity.
    InvalidHeader,
    NotFound(String),
    Protocol(String),
    Io(String),
    LockPoisoned(String),
    Internal(String),
}

impl MemioError {
    /// The text that `to_string` gives for this error.
    pub open spec fn spec_message(&self) -> Seq<char> {
        match self {
            MemioError::ArenaFull { requested, available } => "Arena allocation failed: requested "@
                + spec_decimal(*requested as nat) + " bytes, available "@ + spec_decimal(
                *available as nat,
            ),
            MemioError::Alignment { expected, actual } => "Alignment error: expected "@
                + spec_decimal(*expected as nat) + ", got "@ + spec_decimal(*actual as nat),
            MemioError::Serialization(m) => "Serialization error: "@ + m@,
            MemioError::Deserialization(m) => "Deserialization error: "@ + m@,
            MemioError::PlatformNotSupported => "Platform not supported"@,
            MemioError::InvalidCapacity => "Invalid capacity"@,
            MemioError::CreateFailed(m) => "Create failed: "@ + m@,
            MemioError::OpenFailed(m) => "Open failed: "@ + m@,
            MemioError::MmapFailed => "Memory mapping failed"@,
            MemioError::DataTooLarge { data_len, capacity } => "Data ("@ + spec_decimal(
                *data_len as nat,
            ) + " bytes) exceeds capacity ("@ + spec_decimal(*capacity as nat) + " bytes)"@,
            MemioError::InvalidHeader => "Invalid header"@,
            MemioError::NotFound(m) => "Region not found: "@ + m@,
            MemioError::Protocol(m) => "Protocol error: "@ + m@,
            MemioError::Io(m) => "IO error: "@ + m@,
            MemioError::LockPoisoned(m) => "Lock poisoned: "@ + m@,
            MemioError::Internal(m) => "Internal error: "@ + m@,
        }
    }

    /// An error for a lock that a panicking thread left poisoned.
    pub fn lock_poisoned(msg: &str) -> (e: MemioError)
        ensures
            e matches MemioError::LockPoisoned(m) && m@ == msg@,
    {
        MemioError::LockPoisoned(msg.to_owned())
    }

    /// The error for a lock that could not be taken.
    pub fn lock_failed() -> (e: MemioError)
        ensures
            e matches MemioError::Io(m) && m@ == "Failed to acquire lock"@,
    {
        MemioError::Io("Failed to acquire lock".to_owned())
    }

    /// Renders the error as one line of text.
    pub fn to_string(&self) -> (s: String)
        ensures
            s@ == self.spec_message(),
    {
        match self {
            MemioError::ArenaFull { requested, available } => {
                let mut s = "Arena allocation failed: requested ".to_owned();
                push_decimal(&mut s, *requested as u64);
                s.append(" bytes, available ");
                push_decimal(&mut s, *available as u64);
                s
            },
            MemioError::Alignment { expected, actual } => {
                let mut s = "Alignment error: expected ".to_owned();
                push_decimal(&mut s, *expected as u64);
                s.append(", got ");
                push_decimal(&mut s, *actual as u64);
                s
            },
            MemioError::Serialization(m) => "Serialization error: ".to_owned().concat(m.as_str()),
            MemioError::Deserialization(m) => "Deserialization error: ".to_owned().concat(
                m.as_str(),
            ),
            MemioError::PlatformNotSupported => "Platform not supported".to_owned(),
            MemioError::InvalidCapacity => "Invalid capacity".to_owned(),
            MemioError::CreateFailed(m) => "Create failed: ".to_owned().concat(m.as_str()),
            MemioError::OpenFailed(m) => "Open failed: ".to_owned().concat(m.as_str()),
            MemioError::MmapFailed => "Memory mapping failed".to_owned(),
            MemioError::DataTooLarge { data_len, capacity } => {
                let mut s = "Data (".to_owned();
                push_decimal(&mut s, *data_len as u64);
                s.append(" bytes) exceeds capacity (");
                push_decimal(&mut s, *capacity as u64);
                s.append(" bytes)");
                s
            },
            MemioError::InvalidHeader => "Invalid header".to_owned(),
            MemioError::NotFound(m) => "Region not found: ".to_owned().concat(m.as_str()),
            MemioError::Protocol(m) => "Protocol error: ".to_owned().concat(m.as_str()),
            MemioError::Io(m) => "IO error: ".to_owned().concat(m.as_str()),
            MemioError::LockPoisoned(m) => "Lock poisoned: ".to_owned().concat(m.as_str()),
            MemioError::Internal(m) => "Internal error: ".to_owned().concat(m.as_str()),
        }
    }
}

} // verus!
