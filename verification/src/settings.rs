//! The shared compiler settings that the calling-convention identifiers read.

use vstd::prelude::*;

verus! {

/// How the calling convention of library calls is chosen.
#[derive(Debug, Copy, Clone, PartialEq, Eq, Hash, Structural)]
pub enum LibcallCallConv {
    /// Use the default calling convention of the target ISA.
    IsaDefault,
    /// Best performance, not ABI-stable.
    Fast,
    /// Smallest caller code size, not ABI-stable.
    Cold,
    /// System V-style convention used on many platforms.
    SystemV,
    /// Windows "fastcall" convention, also used for x64 and ARM.
    WindowsFastcall,
    /// Mac aarch64 calling convention.
    AppleAarch64,
    /// Specialized convention for the probestack function.
    Probestack,
}

/// The settings shared by all target ISAs.
#[derive(Debug, Copy, Clone, PartialEq, Eq, Hash, Structural)]
pub struct Flags {
    libcall_call_conv: LibcallCallConv,
}

impl Flags {
    /// The settings as a plain value.
    pub closed spec fn view(&self) -> LibcallCallConv {
        self.libcall_call_conv
    }

    /// Settings with the given choice for library calls.
    pub fn new(libcall_call_conv: LibcallCallConv) -> (flags: Flags)
        ensures
            flags@ == libcall_call_conv,
    {
        Flags { libcall_call_conv }
    }

    /// The calling convention setting for library calls.
    pub fn libcall_call_conv(&self) -> (setting: LibcallCallConv)
        ensures
            setting == self@,
    {
        self.libcall_call_conv
    }
}

impl Default for Flags {
    fn default() -> (flags: Flags)
        ensures
            flags@ == LibcallCallConv::IsaDefault,
    {
        Flags { libcall_call_conv: LibcallCallConv::IsaDefault }
    }
}

} // verus!
