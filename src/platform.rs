use vstd::prelude::*;

verus! {

/// Operating system family of the host, as far as release packaging cares.
#[derive(Clone, Copy, Debug, PartialEq, Eq, Structural)]
pub enum HostOs {
    Windows,
    MacOs,
    Linux,
    Other,
}

/// Processor architecture of the host, as far as release packaging cares.
#[derive(Clone, Copy, Debug, PartialEq, Eq, Structural)]
pub enum HostArch {
    X86,
    X86_64,
    Other,
}

/// The supported OS/architecture combinations, plus a sentinel for the rest.
#[derive(Clone, Copy, Debug, PartialEq, Eq, Structural)]
pub enum Platform {
    Windows32,
    Windows64,
    MacOS,
    Linux32,
    Linux64,
    Unsupported,
}

/// Artifact-name suffix of each platform; total, `Unsupported` included.
pub open spec fn package_of(p: Platform) -> Seq<char> {
    match p {
        Platform::Windows32 => "win32.exe"@,
        Platform::Windows64 => "win64.exe"@,
        Platform::MacOS => "osx.universal"@,
        Platform::Linux32 => "x11.32"@,
        Platform::Linux64 => "x11.64"@,
        Platform::Unsupported => "unsupported"@,
    }
}

/// Which platform a host is: macOS whatever its architecture, Windows and
/// Linux on 32- and 64-bit x86 only.
pub open spec fn platform_of(os: HostOs, arch: HostArch) -> Platform {
    match os {
        HostOs::Windows => match arch {
            HostArch::X86 => Platform::Windows32,
            HostArch::X86_64 => Platform::Windows64,
            HostArch::Other => Platform::Unsupported,
        },
        HostOs::MacOs => Platform::MacOS,
        HostOs::Linux => match arch {
            HostArch::X86 => Platform::Linux32,
            HostArch::X86_64 => Platform::Linux64,
            HostArch::Other => Platform::Unsupported,
        },
        HostOs::Other => Platform::Unsupported,
    }
}

impl Platform {
    /// Maps the host to its platform; never fails, unknown hosts are `Unsupported`.
    pub fn resolve(os: HostOs, arch: HostArch) -> (r: Platform)
        ensures
            r == platform_of(os, arch),
    {
        match os {
            HostOs::Windows => match arch {
                HostArch::X86 => Platform::Windows32,
                HostArch::X86_64 => Platform::Windows64,
                HostArch::Other => Platform::Unsupported,
            },
            HostOs::MacOs => Platform::MacOS,
            HostOs::Linux => match arch {
                HostArch::X86 => Platform::Linux32,
                HostArch::X86_64 => Platform::Linux64,
                HostArch::Other => Platform::Unsupported,
            },
            HostOs::Other => Platform::Unsupported,
        }
    }

    /// The artifact-name suffix used by the release packaging for this platform.
    pub fn to_package(&self) -> (r: &'static str)
        ensures
            r@ == package_of(*self),
    {
        match self {
            Platform::Windows32 => "win32.exe",
            Platform::Windows64 => "win64.exe",
            Platform::MacOS => "osx.universal",
            Platform::Linux32 => "x11.32",
            Platform::Linux64 => "x11.64",
            Platform::Unsupported => "unsupported",
        }
    }
}

} // verus!
