use std::str::FromStr;
use target_lexicon::Triple;
use wasi_streams::call_conv::CallConv;
use wasi_streams::call_conv::TargetConvention;
use wasi_streams::settings::Flags;
use wasi_streams::settings::LibcallCallConv;

const ALL: [CallConv; 10] = [
    CallConv::Fast,
    CallConv::Cold,
    CallConv::Tail,
    CallConv::SystemV,
    CallConv::WindowsFastcall,
    CallConv::AppleAarch64,
    CallConv::Probestack,
    CallConv::WasmtimeSystemV,
    CallConv::WasmtimeFastcall,
    CallConv::WasmtimeAppleAarch64,
];

fn triple(name: &str) -> Triple {
    Triple::from_str(name).unwrap()
}

#[test]
fn only_tail_supports_tail_calls() {
    for conv in ALL {
        assert_eq!(conv.supports_tail_calls(), conv == CallConv::Tail);
    }
}

#[test]
fn fastcall_conventions_extend_windows_fastcall() {
    for conv in ALL {
        let expected = conv == CallConv::WindowsFastcall || conv == CallConv::WasmtimeFastcall;
        assert_eq!(conv.extends_windows_fastcall(), expected);
    }
}

#[test]
fn apple_conventions_extend_apple_aarch64() {
    for conv in ALL {
        let expected =
            conv == CallConv::AppleAarch64 || conv == CallConv::WasmtimeAppleAarch64;
        assert_eq!(conv.extends_apple_aarch64(), expected);
    }
}

#[test]
fn wasmtime_conventions_extend_wasmtime() {
    for conv in ALL {
        let expected = conv == CallConv::WasmtimeSystemV
            || conv == CallConv::WasmtimeFastcall
            || conv == CallConv::WasmtimeAppleAarch64;
        assert_eq!(conv.extends_wasmtime(), expected);
    }
}

#[test]
fn names_are_as_written() {
    assert_eq!(CallConv::Fast.to_string(), "fast");
    assert_eq!(CallConv::Cold.to_string(), "cold");
    assert_eq!(CallConv::Tail.to_string(), "tail");
    assert_eq!(CallConv::SystemV.to_string(), "system_v");
    assert_eq!(CallConv::WindowsFastcall.to_string(), "windows_fastcall");
    assert_eq!(CallConv::AppleAarch64.to_string(), "apple_aarch64");
    assert_eq!(CallConv::Probestack.to_string(), "probestack");
    assert_eq!(CallConv::WasmtimeSystemV.to_string(), "wasmtime_system_v");
    assert_eq!(CallConv::WasmtimeFastcall.to_string(), "wasmtime_fastcall");
    assert_eq!(CallConv::WasmtimeAppleAarch64.to_string(), "wasmtime_apple_aarch64");
}

#[test]
fn names_are_read_back() {
    for conv in ALL {
        assert_eq!(CallConv::from_str(&conv.to_string()), Ok(conv));
        assert_eq!(conv.to_string().parse::<CallConv>(), Ok(conv));
    }
}

#[test]
fn other_texts_name_no_convention() {
    assert_eq!(CallConv::from_str(""), Err(()));
    assert_eq!(CallConv::from_str("Fast"), Err(()));
    assert_eq!(CallConv::from_str("fast "), Err(()));
    assert_eq!(CallConv::from_str("system-v"), Err(()));
    assert_eq!(CallConv::from_str("wasmtime"), Err(()));
    assert_eq!(CallConv::from_str("baldrdash_system_v"), Err(()));
}

#[test]
fn libcall_setting_chooses_the_convention() {
    let default = CallConv::WasmtimeSystemV;
    let chosen = |setting| CallConv::for_libcall(&Flags::new(setting), default);
    assert_eq!(chosen(LibcallCallConv::IsaDefault), default);
    assert_eq!(chosen(LibcallCallConv::Fast), CallConv::Fast);
    assert_eq!(chosen(LibcallCallConv::Cold), CallConv::Cold);
    assert_eq!(chosen(LibcallCallConv::SystemV), CallConv::SystemV);
    assert_eq!(chosen(LibcallCallConv::WindowsFastcall), CallConv::WindowsFastcall);
    assert_eq!(chosen(LibcallCallConv::AppleAarch64), CallConv::AppleAarch64);
    assert_eq!(chosen(LibcallCallConv::Probestack), CallConv::Probestack);
}

#[test]
fn default_flags_follow_the_isa() {
    let flags = Flags::default();
    assert_eq!(flags.libcall_call_conv(), LibcallCallConv::IsaDefault);
    assert_eq!(CallConv::for_libcall(&flags, CallConv::Tail), CallConv::Tail);
    assert_eq!(Flags::new(LibcallCallConv::Cold).libcall_call_conv(), LibcallCallConv::Cold);
}

#[test]
fn target_answers_map_to_conventions() {
    let from = CallConv::from_target_convention;
    assert_eq!(from(Ok(TargetConvention::SystemV)), Some(CallConv::SystemV));
    assert_eq!(from(Err(())), Some(CallConv::SystemV));
    assert_eq!(from(Ok(TargetConvention::AppleAarch64)), Some(CallConv::AppleAarch64));
    assert_eq!(from(Ok(TargetConvention::WindowsFastcall)), Some(CallConv::WindowsFastcall));
    assert_eq!(from(Ok(TargetConvention::WasmBasicCAbi)), None);
    assert_eq!(from(Ok(TargetConvention::Other)), None);
}

#[test]
fn triple_default_follows_the_target() {
    assert_eq!(CallConv::triple_default(&triple("x86_64-unknown-linux-gnu")), CallConv::SystemV);
    assert_eq!(CallConv::triple_default(&triple("aarch64-unknown-linux-gnu")), CallConv::SystemV);
    assert_eq!(
        CallConv::triple_default(&triple("x86_64-pc-windows-msvc")),
        CallConv::WindowsFastcall
    );
    assert_eq!(
        CallConv::triple_default(&triple("aarch64-apple-darwin")),
        CallConv::AppleAarch64
    );
    assert_eq!(CallConv::triple_default(&triple("x86_64-apple-darwin")), CallConv::SystemV);
}

#[test]
fn triple_default_of_unknown_target_is_system_v() {
    assert_eq!(CallConv::triple_default(&Triple::unknown()), CallConv::SystemV);
    assert_eq!(CallConv::try_triple_default(&Triple::unknown()), Some(CallConv::SystemV));
}

#[test]
fn try_triple_default_tells_targets_without_identifier() {
    assert_eq!(CallConv::try_triple_default(&triple("wasm32-unknown-unknown")), None);
    assert_eq!(CallConv::try_triple_default(&triple("wasm32-wasi")), None);
    assert_eq!(
        CallConv::try_triple_default(&triple("x86_64-pc-windows-gnu")),
        Some(CallConv::WindowsFastcall)
    );
    assert_eq!(
        CallConv::try_triple_default(&triple("aarch64-apple-ios")),
        Some(CallConv::AppleAarch64)
    );
    assert_eq!(
        CallConv::try_triple_default(&triple("riscv64gc-unknown-freebsd")),
        Some(CallConv::SystemV)
    );
}
