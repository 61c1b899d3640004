//! The targets a shim can be generated for.

use vstd::prelude::*;
use crate::text::same_text;

verus! {

/// The operating system of a target.
#[derive(Clone, Copy, Debug, PartialEq, Eq, Structural)]
pub enum Os {
    Windows,
}

/// The instruction set of a target.
#[derive(Clone, Copy, Debug, PartialEq, Eq, Structural)]
pub enum Arch {
    X86,
    X86_64,
}

/// How a trampoline reaches its symbol slot.
#[derive(Clone, Copy, Debug, PartialEq, Eq, Structural)]
pub enum Encoding {
    /// The slot is named by its absolute address.
    Absolute,
    /// The slot is named relative to the instruction pointer.
    IpRelative,
}

/// An operating system together with an instruction set.
#[derive(Clone, Copy, Debug, PartialEq, Eq, Structural)]
pub struct TargetDescriptor {
    pub os: Os,
    pub arch: Arch,
}

/// The target that a pair of names stands for, if it is a supported one.
pub open spec fn spec_target(os: Seq<char>, arch: Seq<char>) -> Option<TargetDescriptor> {
    if os == "windows"@ && arch == "x86"@ {
        Some(TargetDescriptor { os: Os::Windows, arch: Arch::X86 })
    } else if os == "windows"@ && arch == "x86_64"@ {
        Some(TargetDescriptor { os: Os::Windows, arch: Arch::X86_64 })
    } else {
        None
    }
}

impl TargetDescriptor {
    /// Width of a pointer on this target, in bits.
    pub open spec fn spec_pointer_width(self) -> nat {
        match self.arch {
            Arch::X86 => 32,
            Arch::X86_64 => 64,
        }
    }

    /// The trampoline encoding that this target's pointer width calls for.
    pub open spec fn spec_encoding(self) -> Encoding {
        if self.spec_pointer_width() == 32 {
            Encoding::Absolute
        } else {
            Encoding::IpRelative
        }
    }

    /// Reads a target from the names of its operating system and instruction
    /// set. Any pair but the supported ones gives `None`.
    pub fn parse(os: &str, arch: &str) -> (r: Option<TargetDescriptor>)
        ensures
            r == spec_target(os@, arch@),
    {
        if !same_text(os, "windows") {
            None
        } else if same_text(arch, "x86") {
            Some(TargetDescriptor { os: Os::Windows, arch: Arch::X86 })
        } else if same_text(arch, "x86_64") {
            Some(TargetDescriptor { os: Os::Windows, arch: Arch::X86_64 })
        } else {
            None
        }
    }

    /// Width of a pointer on this target, in bits.
    pub fn pointer_width(&self) -> (w: u32)
        ensures
            w == self.spec_pointer_width(),
    {
        match self.arch {
            Arch::X86 => 32,
            Arch::X86_64 => 64,
        }
    }

    /// The trampoline encoding for this target.
    pub fn encoding(&self) -> (e: Encoding)
        ensures
            e == self.spec_encoding(),
    {
        if self.pointer_width() == 32 {
            Encoding::Absolute
        } else {
            Encoding::IpRelative
        }
    }
}

} // verus!
