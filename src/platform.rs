//! Host platforms that a server build is published for, and how the host's
//! own names for them are read.
use vstd::prelude::*;

verus! {

/// Operating systems that a server build exists for.
#[derive(Clone, Copy, Debug, PartialEq, Eq, Structural)]
pub enum Os {
    Darwin,
    Linux,
    Windows,
}

/// Processor architectures that a server build exists for.
#[derive(Clone, Copy, Debug, PartialEq, Eq, Structural)]
pub enum Arch {
    X86_64,
    Aarch64,
}

/// A supported pair of operating system and architecture.
#[derive(Clone, Copy, Debug, PartialEq, Eq, Structural)]
pub struct Platform {
    pub os: Os,
    pub arch: Arch,
}

/// The operating system that the host calls `name`, if it is supported.
pub open spec fn os_named(name: Seq<char>) -> Option<Os> {
    if name == "macos"@ {
        Some(Os::Darwin)
    } else if name == "linux"@ {
        Some(Os::Linux)
    } else if name == "windows"@ {
        Some(Os::Windows)
    } else {
        None
    }
}

/// The architecture that the host calls `name`, if it is supported.
pub open spec fn arch_named(name: Seq<char>) -> Option<Arch> {
    if name == "x86_64"@ {
        Some(Arch::X86_64)
    } else if name == "aarch64"@ {
        Some(Arch::Aarch64)
    } else {
        None
    }
}

/// How an operating system is written in the names of published builds.
pub open spec fn os_token(os: Os) -> Seq<char> {
    match os {
        Os::Darwin => "darwin"@,
        Os::Linux => "linux"@,
        Os::Windows => "windows"@,
    }
}

/// How an architecture is written in the names of published builds.
pub open spec fn arch_token(arch: Arch) -> Seq<char> {
    match arch {
        Arch::X86_64 => "x86_64"@,
        Arch::Aarch64 => "aarch64"@,
    }
}

fn names(text: &String, lit: &str) -> (r: bool)
    ensures
        r == (text@ == lit@),
{
    let l = String::from_str(lit);
    *text == l
}

impl Os {
    /// Reads the host's name for its operating system.
    pub fn from_host_name(name: &String) -> (r: Option<Os>)
        ensures
            r == os_named(name@),
    {
        if names(name, "macos") {
            Some(Os::Darwin)
        } else if names(name, "linux") {
            Some(Os::Linux)
        } else if names(name, "windows") {
            Some(Os::Windows)
        } else {
            None
        }
    }

    /// The name used for this operating system in published build names.
    pub fn token(&self) -> (r: &'static str)
        ensures
            r@ == os_token(*self),
    {
        match self {
            Os::Darwin => "darwin",
            Os::Linux => "linux",
            Os::Windows => "windows",
        }
    }
}

impl Arch {
    /// Reads the host's name for its processor architecture.
    pub fn from_host_name(name: &String) -> (r: Option<Arch>)
        ensures
            r == arch_named(name@),
    {
        if names(name, "x86_64") {
            Some(Arch::X86_64)
        } else if names(name, "aarch64") {
            Some(Arch::Aarch64)
        } else {
            None
        }
    }

    /// The name used for this architecture in published build names.
    pub fn token(&self) -> (r: &'static str)
        ensures
            r@ == arch_token(*self),
    {
        match self {
            Arch::X86_64 => "x86_64",
            Arch::Aarch64 => "aarch64",
        }
    }
}

} // verus!
