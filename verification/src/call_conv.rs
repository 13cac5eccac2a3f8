//! Calling convention identifiers.

use crate::settings::Flags;
use crate::settings::LibcallCallConv;
use core::str::FromStr;
use target_lexicon::CallingConvention;
use target_lexicon::Triple;
use vstd::prelude::*;

verus! {

/// A target triple of `target_lexicon`. Its contents stay hidden: the only
/// thing read from a triple here is its default calling convention.
#[verifier::external_type_specification]
#[verifier::external_body]
pub struct ExTriple(Triple);

/// Calling convention identifiers.
#[derive(Debug, Copy, Clone, PartialEq, Eq, Hash, Structural)]
pub enum CallConv {
    /// Best performance, not ABI-stable.
    Fast,
    /// Smallest caller code size, not ABI-stable.
    Cold,
    /// Supports tail calls, not ABI-stable.
    Tail,
    /// System V-style convention used on many platforms.
    SystemV,
    /// Windows "fastcall" convention, also used for x64 and ARM.
    WindowsFastcall,
    /// Mac aarch64 calling convention, which is a tweaked aarch64 ABI.
    AppleAarch64,
    /// Specialized convention for the probestack function.
    Probestack,
    /// Wasmtime equivalent of SystemV, not ABI-stable.
    ///
    /// Only differs in how multiple return values are handled: the first is
    /// returned in a register, the others through a return pointer.
    WasmtimeSystemV,
    /// Wasmtime equivalent of WindowsFastcall, not ABI-stable.
    WasmtimeFastcall,
    /// Wasmtime equivalent of AppleAarch64, not ABI-stable.
    WasmtimeAppleAarch64,
}

/// The calling conventions that a target triple can name as its default.
#[derive(Debug, Copy, Clone, PartialEq, Eq, Hash, Structural)]
pub enum TargetConvention {
    /// "System V", used on most Unix-like platforms.
    SystemV,
    /// The WebAssembly C ABI.
    WasmBasicCAbi,
    /// "Windows Fastcall", used on Windows.
    WindowsFastcall,
    /// The variant of the Aarch64 convention used on Apple platforms.
    AppleAarch64,
    /// A convention that this library has no identifier for.
    Other,
}

/// What `Triple::default_calling_convention` answers for `triple`: the
/// convention, or `Err(())` where the triple has no known default.
pub uninterp spec fn default_calling_convention(triple: Triple) -> Result<TargetConvention, ()>;

/// Asks `target_lexicon` for the default calling convention of `triple`
/// (`Triple::default_calling_convention`). Trusted: the answer is a function
/// of the triple alone, and is handed on variant for variant.
#[verifier::external_body]
fn triple_calling_convention(triple: &Triple) -> (answer: Result<TargetConvention, ()>)
    ensures
        answer == default_calling_convention(*triple),
{
    match triple.default_calling_convention() {
        Ok(CallingConvention::SystemV) => Ok(TargetConvention::SystemV),
        Ok(CallingConvention::WasmBasicCAbi) => Ok(TargetConvention::WasmBasicCAbi),
        Ok(CallingConvention::WindowsFastcall) => Ok(TargetConvention::WindowsFastcall),
        Ok(CallingConvention::AppleAarch64) => Ok(TargetConvention::AppleAarch64),
        Ok(_) => Ok(TargetConvention::Other),
        Err(()) => Err(()),
    }
}

/// Compares two string slices (`str::eq`). Trusted: the answer is whether
/// both hold the same characters.
#[verifier::external_body]
fn same_text(a: &str, b: &str) -> (same: bool)
    ensures
        same == (a@ == b@),
{
    a == b
}

impl CallConv {
    /// The convention that stands for a target's answer: System V where the
    /// target names it or names nothing, the Apple and Windows conventions
    /// under their own identifiers, and nothing for any other answer.
    pub open spec fn of_target(answer: Result<TargetConvention, ()>) -> Option<CallConv> {
        match answer {
            Ok(TargetConvention::SystemV) | Err(()) => Some(CallConv::SystemV),
            Ok(TargetConvention::AppleAarch64) => Some(CallConv::AppleAarch64),
            Ok(TargetConvention::WindowsFastcall) => Some(CallConv::WindowsFastcall),
            Ok(_) => None,
        }
    }

    /// The convention chosen for library calls under `setting`, on a target
    /// whose own default is `default_call_conv`.
    pub open spec fn of_libcall_setting(
        setting: LibcallCallConv,
        default_call_conv: CallConv,
    ) -> CallConv {
        match setting {
            LibcallCallConv::IsaDefault => default_call_conv,
            LibcallCallConv::Fast => CallConv::Fast,
            LibcallCallConv::Cold => CallConv::Cold,
            LibcallCallConv::SystemV => CallConv::SystemV,
            LibcallCallConv::WindowsFastcall => CallConv::WindowsFastcall,
            LibcallCallConv::AppleAarch64 => CallConv::AppleAarch64,
            LibcallCallConv::Probestack => CallConv::Probestack,
        }
    }

    /// The textual name of a calling convention.
    pub open spec fn name(self) -> Seq<char> {
        match self {
            CallConv::Fast => "fast"@,
            CallConv::Cold => "cold"@,
            CallConv::Tail => "tail"@,
            CallConv::SystemV => "system_v"@,
            CallConv::WindowsFastcall => "windows_fastcall"@,
            CallConv::AppleAarch64 => "apple_aarch64"@,
            CallConv::Probestack => "probestack"@,
            CallConv::WasmtimeSystemV => "wasmtime_system_v"@,
            CallConv::WasmtimeFastcall => "wasmtime_fastcall"@,
            CallConv::WasmtimeAppleAarch64 => "wasmtime_apple_aarch64"@,
        }
    }

    /// The convention that a text names, if it names one.
    pub open spec fn named(text: Seq<char>) -> Option<CallConv> {
        if exists|conv: CallConv| conv.name() == text {
            Some(choose|conv: CallConv| conv.name() == text)
        } else {
            None
        }
    }

    /// The convention that stands for a target's answer about its default.
    pub fn from_target_convention(answer: Result<TargetConvention, ()>) -> (conv: Option<CallConv>)
        ensures
            conv == Self::of_target(answer),
    {
        match answer {
            Ok(TargetConvention::SystemV) | Err(()) => Some(CallConv::SystemV),
            Ok(TargetConvention::AppleAarch64) => Some(CallConv::AppleAarch64),
            Ok(TargetConvention::WindowsFastcall) => Some(CallConv::WindowsFastcall),
            Ok(_) => None,
        }
    }

    /// Return the default calling convention for the given target triple.
    ///
    /// The triple's own default must be one that has an identifier here;
    /// `try_triple_default` makes that test.
    pub fn triple_default(triple: &Triple) -> (conv: CallConv)
        requires
            Self::of_target(default_calling_convention(*triple)) is Some,
        ensures
            Some(conv) == Self::of_target(default_calling_convention(*triple)),
    {
        match Self::from_target_convention(triple_calling_convention(triple)) {
            Some(conv) => conv,
            None => CallConv::SystemV,
        }
    }

    /// Return the default calling convention for the given target triple, or
    /// `None` where the triple's default has no identifier here.
    pub fn try_triple_default(triple: &Triple) -> (conv: Option<CallConv>)
        ensures
            conv == Self::of_target(default_calling_convention(*triple)),
    {
        if Self::from_target_convention(triple_calling_convention(triple)).is_some() {
            Some(Self::triple_default(triple))
        } else {
            None
        }
    }

    /// Returns the calling convention used for libcalls according to the current flags.
    pub fn for_libcall(flags: &Flags, default_call_conv: CallConv) -> (conv: CallConv)
        ensures
            conv == Self::of_libcall_setting(flags@, default_call_conv),
    {
        match flags.libcall_call_conv() {
            LibcallCallConv::IsaDefault => default_call_conv,
            LibcallCallConv::Fast => Self::Fast,
            LibcallCallConv::Cold => Self::Cold,
            LibcallCallConv::SystemV => Self::SystemV,
            LibcallCallConv::WindowsFastcall => Self::WindowsFastcall,
            LibcallCallConv::AppleAarch64 => Self::AppleAarch64,
            LibcallCallConv::Probestack => Self::Probestack,
        }
    }

    /// Does this calling convention support tail calls?
    pub fn supports_tail_calls(&self) -> (yes: bool)
        ensures
            yes == (*self is Tail),
    {
        match self {
            CallConv::Tail => true,
            _ => false,
        }
    }

    /// Is the calling convention extending the Windows Fastcall ABI?
    pub fn extends_windows_fastcall(self) -> (yes: bool)
        ensures
            yes == (self is WindowsFastcall || self is WasmtimeFastcall),
    {
        match self {
            Self::WindowsFastcall | Self::WasmtimeFastcall => true,
            _ => false,
        }
    }

    /// Is the calling convention extending the Apple aarch64 ABI?
    pub fn extends_apple_aarch64(self) -> (yes: bool)
        ensures
            yes == (self is AppleAarch64 || self is WasmtimeAppleAarch64),
    {
        match self {
            Self::AppleAarch64 | Self::WasmtimeAppleAarch64 => true,
            _ => false,
        }
    }

    /// Is the calling convention extending the Wasmtime ABI?
    pub fn extends_wasmtime(self) -> (yes: bool)
        ensures
            yes == (self is WasmtimeSystemV || self is WasmtimeFastcall
                || self is WasmtimeAppleAarch64),
    {
        match self {
            Self::WasmtimeSystemV | Self::WasmtimeFastcall | Self::WasmtimeAppleAarch64 => true,
            _ => false,
        }
    }

    /// The textual name of this calling convention, as `from_str` reads it.
    pub fn to_string(&self) -> (text: String)
        ensures
            text@ == self.name(),
    {
        let name: &str = match *self {
            Self::Fast => "fast",
            Self::Cold => "cold",
            Self::Tail => "tail",
            Self::SystemV => "system_v",
            Self::WindowsFastcall => "windows_fastcall",
            Self::AppleAarch64 => "apple_aarch64",
            Self::Probestack => "probestack",
            Self::WasmtimeSystemV => "wasmtime_system_v",
            Self::WasmtimeFastcall => "wasmtime_fastcall",
            Self::WasmtimeAppleAarch64 => "wasmtime_apple_aarch64",
        };
        name.to_owned()
    }
}

/// No two calling conventions share a name.
pub proof fn lemma_names_are_distinct(a: CallConv, b: CallConv)
    requires
        a.name() == b.name(),
    ensures
        a == b,
{
    reveal_strlit("fast");
    reveal_strlit("cold");
    reveal_strlit("tail");
    reveal_strlit("system_v");
    reveal_strlit("windows_fastcall");
    reveal_strlit("apple_aarch64");
    reveal_strlit("probestack");
    reveal_strlit("wasmtime_system_v");
    reveal_strlit("wasmtime_fastcall");
    reveal_strlit("wasmtime_apple_aarch64");
    assert("fast"@.len() == 4 && "fast"@[0] == 'f');
    assert("cold"@.len() == 4 && "cold"@[0] == 'c');
    assert("tail"@.len() == 4 && "tail"@[0] == 't');
    assert("system_v"@.len() == 8);
    assert("windows_fastcall"@.len() == 16);
    assert("apple_aarch64"@.len() == 13);
    assert("probestack"@.len() == 10);
    assert("wasmtime_system_v"@.len() == 17 && "wasmtime_system_v"@[9] == 's');
    assert("wasmtime_fastcall"@.len() == 17 && "wasmtime_fastcall"@[9] == 'f');
    assert("wasmtime_apple_aarch64"@.len() == 22);
}

/// Reading the name of a calling convention gives that convention back.
pub proof fn lemma_name_round_trip(conv: CallConv)
    ensures
        CallConv::named(conv.name()) == Some(conv),
{
    let found = choose|other: CallConv| other.name() == conv.name();
    lemma_names_are_distinct(found, conv);
}

impl FromStr for CallConv {
    type Err = ();

    /// Reads the textual name of a calling convention.
    fn from_str(s: &str) -> (parsed: Result<Self, Self::Err>)
        ensures
            parsed.ok() == CallConv::named(s@),
    {
        let parsed = if same_text(s, "fast") {
            Ok(Self::Fast)
        } else if same_text(s, "cold") {
            Ok(Self::Cold)
        } else if same_text(s, "tail") {
            Ok(Self::Tail)
        } else if same_text(s, "system_v") {
            Ok(Self::SystemV)
        } else if same_text(s, "windows_fastcall") {
            Ok(Self::WindowsFastcall)
        } else if same_text(s, "apple_aarch64") {
            Ok(Self::AppleAarch64)
        } else if same_text(s, "probestack") {
            Ok(Self::Probestack)
        } else if same_text(s, "wasmtime_system_v") {
            Ok(Self::WasmtimeSystemV)
        } else if same_text(s, "wasmtime_fastcall") {
            Ok(Self::WasmtimeFastcall)
        } else if same_text(s, "wasmtime_apple_aarch64") {
            Ok(Self::WasmtimeAppleAarch64)
        } else {
            Err(())
        };
        proof {
            match parsed {
                Ok(conv) => {
                    lemma_name_round_trip(conv);
                },
                Err(()) => {
                    assert forall|conv: CallConv| conv.name() != s@ by {}
                },
            }
        }
        parsed
    }
}

} // verus!
