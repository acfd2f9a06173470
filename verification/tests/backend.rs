use std::str::FromStr;

use target_lexicon::Triple;

use x86_64_backend::BackendError;
use x86_64_backend::Layout;
use x86_64_backend::Literal;
use x86_64_backend::Register;
use x86_64_backend::ResolvedConvention;
use x86_64_backend::StorageKind;
use x86_64_backend::Symbol;
use x86_64_backend::SymbolStorage;
use x86_64_backend::X86_64Backend;

fn systemv() -> X86_64Backend {
    let triple = Triple::from_str("x86_64-unknown-linux-gnu").unwrap();
    X86_64Backend::create(&triple).unwrap()
}

fn windows() -> X86_64Backend {
    let triple = Triple::from_str("x86_64-pc-windows-msvc").unwrap();
    X86_64Backend::create(&triple).unwrap()
}

#[test]
fn systemv_return_42_scenario() {
    let mut b = systemv();
    b.bind_literal(Symbol(1), Literal::Int(42));
    assert_eq!(b.return_symbol(Symbol(1)), Ok(()));
    let (bytes, relocations) = b.finalize().unwrap();
    // No prologue: a fresh leaf function with no stack usage needs no frame.
    assert_eq!(bytes, vec![0x48, 0xC7, 0xC0, 42, 0, 0, 0, 0xC3]);
    assert!(relocations.is_empty());
}

#[test]
fn max_i64_uses_64bit_encoding() {
    let mut b = systemv();
    b.bind_literal(Symbol(1), Literal::Int(9223372036854775807));
    assert_eq!(b.return_symbol(Symbol(1)), Ok(()));
    let (bytes, relocations) = b.finalize().unwrap();
    assert_eq!(
        bytes,
        vec![0x48, 0xB8, 0xFF, 0xFF, 0xFF, 0xFF, 0xFF, 0xFF, 0xFF, 0x7F, 0xC3]
    );
    assert!(relocations.is_empty());
}

#[test]
fn wasm_descriptor_is_unsupported() {
    let triple = Triple::from_str("wasm32-unknown-unknown").unwrap();
    assert_eq!(
        X86_64Backend::create(&triple).err(),
        Some(BackendError::UnsupportedCallingConvention(
            ResolvedConvention::WasmBasicCAbi
        ))
    );
}

#[test]
fn bare_metal_descriptor_is_unsupported() {
    let triple = Triple::from_str("x86_64-unknown-none").unwrap();
    assert_eq!(
        X86_64Backend::create(&triple).err(),
        Some(BackendError::UnsupportedCallingConvention(
            ResolvedConvention::Unknown
        ))
    );
}

#[test]
fn apple_aarch64_is_unsupported() {
    let triple = Triple::from_str("aarch64-apple-darwin").unwrap();
    assert_eq!(
        X86_64Backend::create(&triple).err(),
        Some(BackendError::UnsupportedCallingConvention(
            ResolvedConvention::AppleAarch64
        ))
    );
}

#[test]
fn from_convention_rejects_only_unsupported() {
    assert!(X86_64Backend::from_convention(ResolvedConvention::SystemV).is_ok());
    assert!(X86_64Backend::from_convention(ResolvedConvention::WindowsFastcall).is_ok());
    assert_eq!(
        X86_64Backend::from_convention(ResolvedConvention::AppleAarch64).err(),
        Some(BackendError::UnsupportedCallingConvention(
            ResolvedConvention::AppleAarch64
        ))
    );
}

#[test]
fn darwin_x86_64_resolves_to_systemv() {
    let triple = Triple::from_str("x86_64-apple-darwin").unwrap();
    let mut b = X86_64Backend::create(&triple).unwrap();
    b.bind_literal(Symbol(1), Literal::Int(7));
    assert_eq!(b.return_symbol(Symbol(1)), Ok(()));
    let (bytes, _) = b.finalize().unwrap();
    assert_eq!(bytes, vec![0x48, 0xC7, 0xC0, 7, 0, 0, 0, 0xC3]);
}

#[test]
fn boundary_values_use_32bit_encoding() {
    let mut b = systemv();
    b.bind_literal(Symbol(1), Literal::Int(i32::MAX as i64));
    b.bind_literal(Symbol(2), Literal::Int(i32::MIN as i64));
    assert_eq!(b.load_into(Register::RAX, Symbol(1)), Ok(()));
    assert_eq!(b.load_into(Register::RAX, Symbol(2)), Ok(()));
    let (bytes, _) = b.finalize().unwrap();
    assert_eq!(
        bytes,
        vec![
            0x48, 0xC7, 0xC0, 0xFF, 0xFF, 0xFF, 0x7F, // mov rax, i32::MAX
            0x48, 0xC7, 0xC0, 0x00, 0x00, 0x00, 0x80, // mov rax, i32::MIN
            0xC3,
        ]
    );
}

#[test]
fn values_beyond_32bit_boundary_use_64bit_encoding() {
    let mut b = systemv();
    b.bind_literal(Symbol(1), Literal::Int(i32::MAX as i64 + 1));
    b.bind_literal(Symbol(2), Literal::Int(i32::MIN as i64 - 1));
    assert_eq!(b.load_into(Register::RAX, Symbol(1)), Ok(()));
    assert_eq!(b.load_into(Register::RAX, Symbol(2)), Ok(()));
    let (bytes, _) = b.finalize().unwrap();
    assert_eq!(
        bytes,
        vec![
            0x48, 0xB8, 0x00, 0x00, 0x00, 0x80, 0x00, 0x00, 0x00, 0x00,
            0x48, 0xB8, 0xFF, 0xFF, 0xFF, 0x7F, 0xFF, 0xFF, 0xFF, 0xFF,
            0xC3,
        ]
    );
}

#[test]
fn negative_literal_uses_32bit_encoding() {
    let mut b = systemv();
    b.bind_literal(Symbol(1), Literal::Int(-1));
    assert_eq!(b.load_into(Register::RAX, Symbol(1)), Ok(()));
    let (bytes, _) = b.finalize().unwrap();
    assert_eq!(bytes, vec![0x48, 0xC7, 0xC0, 0xFF, 0xFF, 0xFF, 0xFF, 0xC3]);
}

#[test]
fn repeated_loads_emit_identical_bytes() {
    let mut b = systemv();
    b.bind_literal(Symbol(1), Literal::Int(1234));
    assert_eq!(b.load_into(Register::RCX, Symbol(1)), Ok(()));
    assert_eq!(b.load_into(Register::RCX, Symbol(1)), Ok(()));
    let (bytes, _) = b.finalize().unwrap();
    let one_load = [0x48, 0xC7, 0xC1, 0xD2, 0x04, 0x00, 0x00];
    let mut expected: Vec<u8> = Vec::new();
    expected.extend_from_slice(&one_load);
    expected.extend_from_slice(&one_load);
    expected.push(0xC3);
    assert_eq!(bytes, expected);
}

#[test]
fn release_then_load_is_unknown_symbol() {
    let mut b = systemv();
    b.bind_literal(Symbol(9), Literal::Int(5));
    b.release(Symbol(9));
    assert_eq!(
        b.load_into(Register::RAX, Symbol(9)),
        Err(BackendError::UnknownSymbol(Symbol(9)))
    );
}

#[test]
fn releasing_unbound_symbol_is_no_op() {
    let mut b = systemv();
    b.release(Symbol(3));
    let (bytes, _) = b.finalize().unwrap();
    assert_eq!(bytes, vec![0xC3]);
}

#[test]
fn load_without_binding_is_unknown_symbol() {
    let mut b = windows();
    assert_eq!(
        b.load_into(Register::RAX, Symbol(4)),
        Err(BackendError::UnknownSymbol(Symbol(4)))
    );
    // The failed load emitted nothing.
    let (bytes, _) = b.finalize().unwrap();
    assert_eq!(bytes, vec![0xC3]);
}

#[test]
fn fresh_backends_need_no_frame() {
    assert!(!systemv().requires_frame());
    assert!(!windows().requires_frame());
}

#[test]
fn finalize_always_ends_with_ret() {
    let mut b = systemv();
    let (empty, _) = b.finalize().unwrap();
    assert_eq!(empty.last(), Some(&0xC3));
    b.bind_literal(Symbol(1), Literal::Int(8));
    b.return_symbol(Symbol(1)).unwrap();
    let (bytes, _) = b.finalize().unwrap();
    assert_eq!(bytes.last(), Some(&0xC3));
}

#[test]
fn rebinding_overwrites_the_literal() {
    let mut b = systemv();
    b.bind_literal(Symbol(1), Literal::Int(1));
    b.bind_literal(Symbol(1), Literal::Int(2));
    assert_eq!(b.return_symbol(Symbol(1)), Ok(()));
    let (bytes, _) = b.finalize().unwrap();
    assert_eq!(bytes, vec![0x48, 0xC7, 0xC0, 2, 0, 0, 0, 0xC3]);
}

#[test]
fn reset_clears_table_and_buffer() {
    let mut b = systemv();
    b.bind_literal(Symbol(1), Literal::Int(11));
    b.return_symbol(Symbol(1)).unwrap();
    b.reset();
    let (bytes, _) = b.finalize().unwrap();
    assert_eq!(bytes, vec![0xC3]);
    assert_eq!(
        b.load_into(Register::RAX, Symbol(1)),
        Err(BackendError::UnknownSymbol(Symbol(1)))
    );
    // The convention survives the reset: the backend is reusable as built.
    b.bind_literal(Symbol(2), Literal::Int(3));
    assert_eq!(b.return_symbol(Symbol(2)), Ok(()));
    let (again, _) = b.finalize().unwrap();
    assert_eq!(again, vec![0x48, 0xC7, 0xC0, 3, 0, 0, 0, 0xC3]);
}

#[test]
fn register_storage_is_not_yet_implemented() {
    let mut b = systemv();
    let layout = Layout { size_bytes: 8 };
    b.bind_storage(Symbol(1), SymbolStorage::Register(Register::RBX, layout));
    assert_eq!(
        b.load_into(Register::RAX, Symbol(1)),
        Err(BackendError::NotYetImplemented(StorageKind::Register))
    );
    let (bytes, _) = b.finalize().unwrap();
    assert_eq!(bytes, vec![0xC3]);
}

#[test]
fn stack_storage_is_not_yet_implemented() {
    let mut b = systemv();
    let layout = Layout { size_bytes: 8 };
    b.bind_storage(Symbol(1), SymbolStorage::Stack(16, layout));
    assert_eq!(
        b.load_into(Register::RAX, Symbol(1)),
        Err(BackendError::NotYetImplemented(StorageKind::Stack))
    );
}

#[test]
fn extended_register_load_carries_rex_bit() {
    let mut b = systemv();
    b.bind_literal(Symbol(1), Literal::Int(42));
    assert_eq!(b.load_into(Register::R9, Symbol(1)), Ok(()));
    let (bytes, _) = b.finalize().unwrap();
    assert_eq!(bytes, vec![0x49, 0xC7, 0xC1, 42, 0, 0, 0, 0xC3]);
}

#[test]
fn return_symbol_targets_the_accumulator() {
    let mut a = systemv();
    let mut b = systemv();
    a.bind_literal(Symbol(1), Literal::Int(99));
    b.bind_literal(Symbol(1), Literal::Int(99));
    a.return_symbol(Symbol(1)).unwrap();
    b.load_into(Register::RAX, Symbol(1)).unwrap();
    assert_eq!(a.finalize().unwrap(), b.finalize().unwrap());
}

#[test]
fn last_seen_round_trip() {
    let mut b = systemv();
    assert_eq!(b.last_seen(Symbol(5)), None);
    b.set_last_seen(Symbol(5), 17);
    assert_eq!(b.last_seen(Symbol(5)), Some(17));
    b.set_last_seen(Symbol(5), 20);
    assert_eq!(b.last_seen(Symbol(5)), Some(20));
}
