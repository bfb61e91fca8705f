//! The platforms that regions exist on, and the factory of each.

use crate::android::AndroidSharedMemoryFactory;
use crate::error::MemioError;
use crate::linux::LinuxSharedMemoryFactory;
use crate::text::str_eq;
use crate::windows::WindowsSharedMemoryFactory;
use vstd::prelude::*;
use vstd::string::*;

verus! {

/// An operating system, as far as this library tells them apart.
#[derive(Debug, Clone, Copy, PartialEq, Eq, Hash, Structural)]
pub enum Platform {
    Linux,
    Android,
    MacOS,
    Windows,
    Wasm,
    Unknown,
}

/// The factory of one platform.
pub enum PlatformFactory {
    Linux(LinuxSharedMemoryFactory),
    Android(AndroidSharedMemoryFactory),
    Windows(WindowsSharedMemoryFactory),
}

impl Platform {
    /// The platform that a target with operating system `os` and
    /// architecture `arch` is: the operating system decides where it is one
    /// of the four that are known, else the architecture may say Wasm.
    pub open spec fn spec_of(os: Seq<char>, arch: Seq<char>) -> Platform {
        if os == "linux"@ {
            Platform::Linux
        } else if os == "android"@ {
            Platform::Android
        } else if os == "macos"@ {
            Platform::MacOS
        } else if os == "windows"@ {
            Platform::Windows
        } else if arch == "wasm32"@ {
            Platform::Wasm
        } else {
            Platform::Unknown
        }
    }

    /// The name of the platform in lower case.
    pub open spec fn spec_name(&self) -> Seq<char> {
        match self {
            Platform::Linux => "linux"@,
            Platform::Android => "android"@,
            Platform::MacOS => "macos"@,
            Platform::Windows => "windows"@,
            Platform::Wasm => "wasm"@,
            Platform::Unknown => "unknown"@,
        }
    }

    /// Whether regions can be had on the platform.
    pub open spec fn spec_supported(&self) -> bool {
        *self == Platform::Linux || *self == Platform::Android || *self == Platform::Windows
    }

    /// The platform of a target, from the names of its operating system and
    /// its architecture.
    pub fn of(os: &str, arch: &str) -> (platform: Platform)
        ensures
            platform == Self::spec_of(os@, arch@),
    {
        if str_eq(os, "linux") {
            Platform::Linux
        } else if str_eq(os, "android") {
            Platform::Android
        } else if str_eq(os, "macos") {
            Platform::MacOS
        } else if str_eq(os, "windows") {
            Platform::Windows
        } else if str_eq(arch, "wasm32") {
            Platform::Wasm
        } else {
            Platform::Unknown
        }
    }

    /// The name of the platform in lower case.
    pub fn name(&self) -> (name: &'static str)
        ensures
            name@ == self.spec_name(),
    {
        match self {
            Platform::Linux => "linux",
            Platform::Android => "android",
            Platform::MacOS => "macos",
            Platform::Windows => "windows",
            Platform::Wasm => "wasm",
            Platform::Unknown => "unknown",
        }
    }

    /// The name of the platform, as it is printed.
    pub fn to_string(&self) -> (name: String)
        ensures
            name@ == self.spec_name(),
    {
        self.name().to_owned()
    }

    /// Whether regions can be had on the platform.
    pub fn is_supported(&self) -> (supported: bool)
        ensures
            supported == self.spec_supported(),
    {
        match self {
            Platform::Linux => true,
            Platform::Android => true,
            Platform::Windows => true,
            _ => false,
        }
    }
}

/// A fresh factory for `platform`; a platform without regions has none.
pub fn platform_factory(platform: Platform) -> (r: Result<PlatformFactory, MemioError>)
    ensures
        match platform {
            Platform::Linux => r matches Ok(PlatformFactory::Linux(f)) && f.wf() && f.names().len()
                == 0 && f.spec_base_path() == "/dev/shm"@,
            Platform::Android => r matches Ok(PlatformFactory::Android(f)) && f.wf()
                && f.names().len() == 0,
            Platform::Windows => r matches Ok(PlatformFactory::Windows(f)) && f.wf()
                && f.names().len() == 0,
            _ => r matches Err(MemioError::PlatformNotSupported),
        },
{
    match platform {
        Platform::Linux => Ok(PlatformFactory::Linux(LinuxSharedMemoryFactory::new())),
        Platform::Android => Ok(PlatformFactory::Android(AndroidSharedMemoryFactory::new())),
        Platform::Windows => Ok(PlatformFactory::Windows(WindowsSharedMemoryFactory::new())),
        _ => Err(MemioError::PlatformNotSupported),
    }
}

} // verus!
