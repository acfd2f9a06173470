//! Instruction encoding for the x86-64 architecture: pure functions that
//! append the exact byte sequence of one instruction to a byte buffer.
//!
//! Each executable encoder has a spec-level companion that gives the bytes
//! it appends, so that callers can state the contents of the buffer exactly.

use vstd::prelude::*;

verus! {

/// The sixteen general-purpose 64-bit registers, in the canonical
/// physical encoding order (the numeric id of each is given by
/// `Register::number`).
#[derive(Clone, Copy, Debug, PartialEq, Eq, Structural)]
pub enum Register {
    RAX,
    RCX,
    RDX,
    RBX,
    RSP,
    RBP,
    RSI,
    RDI,
    R8,
    R9,
    R10,
    R11,
    R12,
    R13,
    R14,
    R15,
}

impl Register {
    /// The register's number in the instruction encoding.
    pub open spec fn spec_number(self) -> u8 {
        match self {
            Register::RAX => 0,
            Register::RCX => 1,
            Register::RDX => 2,
            Register::RBX => 3,
            Register::RSP => 4,
            Register::RBP => 5,
            Register::RSI => 6,
            Register::RDI => 7,
            Register::R8 => 8,
            Register::R9 => 9,
            Register::R10 => 10,
            Register::R11 => 11,
            Register::R12 => 12,
            Register::R13 => 13,
            Register::R14 => 14,
            Register::R15 => 15,
        }
    }

    /// The register's number in the instruction encoding.
    #[verifier::when_used_as_spec(spec_number)]
    pub fn number(self) -> (n: u8)
        ensures
            n == self.spec_number(),
            n <= 15,
    {
        match self {
            Register::RAX => 0,
            Register::RCX => 1,
            Register::RDX => 2,
            Register::RBX => 3,
            Register::RSP => 4,
            Register::RBP => 5,
            Register::RSI => 6,
            Register::RDI => 7,
            Register::R8 => 8,
            Register::R9 => 9,
            Register::R10 => 10,
            Register::R11 => 11,
            Register::R12 => 12,
            Register::R13 => 13,
            Register::R14 => 14,
            Register::R15 => 15,
        }
    }
}

/// The four bytes of `x` in little-endian order.
pub open spec fn le_bytes_32(x: u32) -> Seq<u8> {
    seq![
        (x % 0x100) as u8,
        ((x / 0x100) % 0x100) as u8,
        ((x / 0x10000) % 0x100) as u8,
        ((x / 0x1000000) % 0x100) as u8,
    ]
}

/// The eight bytes of `x` in little-endian order.
pub open spec fn le_bytes_64(x: u64) -> Seq<u8> {
    seq![
        (x % 0x100) as u8,
        ((x / 0x100) % 0x100) as u8,
        ((x / 0x10000) % 0x100) as u8,
        ((x / 0x1000000) % 0x100) as u8,
        ((x / 0x100000000) % 0x100) as u8,
        ((x / 0x10000000000) % 0x100) as u8,
        ((x / 0x1000000000000) % 0x100) as u8,
        ((x / 0x100000000000000) % 0x100) as u8,
    ]
}

/// Encoding of `push r64`: a one-byte opcode, with a REX.B prefix for the
/// extended registers.
pub open spec fn push_reg64_bytes(reg: Register) -> Seq<u8> {
    if reg.spec_number() < 8 {
        seq![(0x50 + reg.spec_number()) as u8]
    } else {
        seq![0x41u8, (0x50 + (reg.spec_number() - 8)) as u8]
    }
}

/// Encoding of `pop r64`: a one-byte opcode, with a REX.B prefix for the
/// extended registers.
pub open spec fn pop_reg64_bytes(reg: Register) -> Seq<u8> {
    if reg.spec_number() < 8 {
        seq![(0x58 + reg.spec_number()) as u8]
    } else {
        seq![0x41u8, (0x58 + (reg.spec_number() - 8)) as u8]
    }
}

/// Encoding of `mov r64, r64` (opcode 0x89, register-direct addressing):
/// REX.W prefix, opcode, then a ModR/M byte naming source and destination.
pub open spec fn mov_reg64_reg64_bytes(dst: Register, src: Register) -> Seq<u8> {
    seq![
        (0x48 + (if src.spec_number() >= 8 { 4u8 } else { 0u8 })
              + (if dst.spec_number() >= 8 { 1u8 } else { 0u8 })) as u8,
        0x89u8,
        (0xC0 + (src.spec_number() % 8) * 8 + dst.spec_number() % 8) as u8,
    ]
}

/// Encoding of `mov r64, imm32` (opcode 0xC7 /0): the four immediate bytes
/// follow the ModR/M byte in little-endian order; the processor sign-extends
/// the immediate to 64 bits.
pub open spec fn mov_reg64_imm32_bytes(dst: Register, imm: i32) -> Seq<u8> {
    seq![
        (0x48 + (if dst.spec_number() >= 8 { 1u8 } else { 0u8 })) as u8,
        0xC7u8,
        (0xC0 + dst.spec_number() % 8) as u8,
    ] + le_bytes_32(imm as u32)
}

/// Encoding of `mov r64, imm64` (opcode 0xB8 + register): the eight
/// immediate bytes follow the opcode in little-endian order.
pub open spec fn mov_reg64_imm64_bytes(dst: Register, imm: i64) -> Seq<u8> {
    seq![
        (0x48 + (if dst.spec_number() >= 8 { 1u8 } else { 0u8 })) as u8,
        (0xB8 + dst.spec_number() % 8) as u8,
    ] + le_bytes_64(imm as u64)
}

/// Encoding of the near-return instruction.
pub open spec fn ret_near_bytes() -> Seq<u8> {
    seq![0xC3u8]
}

/// Appends the four bytes of `x`, least significant first.
fn push_le_bytes_32(buf: &mut Vec<u8>, x: u32)
    ensures
        final(buf)@ == old(buf)@ + le_bytes_32(x),
{
    buf.push((x % 0x100) as u8);
    buf.push(((x / 0x100) % 0x100) as u8);
    buf.push(((x / 0x10000) % 0x100) as u8);
    buf.push(((x / 0x1000000) % 0x100) as u8);
    proof {
        assert(buf@ =~= old(buf)@ + le_bytes_32(x));
    }
}

/// Appends the eight bytes of `x`, least significant first.
fn push_le_bytes_64(buf: &mut Vec<u8>, x: u64)
    ensures
        final(buf)@ == old(buf)@ + le_bytes_64(x),
{
    buf.push((x % 0x100) as u8);
    buf.push(((x / 0x100) % 0x100) as u8);
    buf.push(((x / 0x10000) % 0x100) as u8);
    buf.push(((x / 0x1000000) % 0x100) as u8);
    buf.push(((x / 0x100000000) % 0x100) as u8);
    buf.push(((x / 0x10000000000) % 0x100) as u8);
    buf.push(((x / 0x1000000000000) % 0x100) as u8);
    buf.push(((x / 0x100000000000000) % 0x100) as u8);
    proof {
        assert(buf@ =~= old(buf)@ + le_bytes_64(x));
    }
}

/// Appends `push reg`.
pub fn push_reg64(buf: &mut Vec<u8>, reg: Register)
    ensures
        final(buf)@ == old(buf)@ + push_reg64_bytes(reg),
{
    let n = reg.number();
    if n < 8 {
        buf.push(0x50 + n);
    } else {
        buf.push(0x41);
        buf.push(0x50 + (n - 8));
    }
    proof {
        assert(buf@ =~= old(buf)@ + push_reg64_bytes(reg));
    }
}

/// Appends `pop reg`.
pub fn pop_reg64(buf: &mut Vec<u8>, reg: Register)
    ensures
        final(buf)@ == old(buf)@ + pop_reg64_bytes(reg),
{
    let n = reg.number();
    if n < 8 {
        buf.push(0x58 + n);
    } else {
        buf.push(0x41);
        buf.push(0x58 + (n - 8));
    }
    proof {
        assert(buf@ =~= old(buf)@ + pop_reg64_bytes(reg));
    }
}

/// Appends `mov dst, src` for two 64-bit registers.
pub fn mov_reg64_reg64(buf: &mut Vec<u8>, dst: Register, src: Register)
    ensures
        final(buf)@ == old(buf)@ + mov_reg64_reg64_bytes(dst, src),
{
    let d = dst.number();
    let s = src.number();
    let rex: u8 = 0x48 + (if s >= 8 { 4 } else { 0 }) + (if d >= 8 { 1 } else { 0 });
    buf.push(rex);
    buf.push(0x89);
    buf.push(0xC0 + (s % 8) * 8 + d % 8);
    proof {
        assert(buf@ =~= old(buf)@ + mov_reg64_reg64_bytes(dst, src));
    }
}

/// Appends `mov dst, imm` with a 32-bit immediate, which the processor
/// sign-extends to the full register width.
pub fn mov_reg64_imm32(buf: &mut Vec<u8>, dst: Register, imm: i32)
    ensures
        final(buf)@ == old(buf)@ + mov_reg64_imm32_bytes(dst, imm),
{
    let d = dst.number();
    let rex: u8 = 0x48 + (if d >= 8 { 1 } else { 0 });
    buf.push(rex);
    buf.push(0xC7);
    buf.push(0xC0 + d % 8);
    let image: u32 = #[verifier::truncate] (imm as u32);
    push_le_bytes_32(buf, image);
    proof {
        assert(buf@ =~= old(buf)@ + mov_reg64_imm32_bytes(dst, imm));
    }
}

/// Appends `mov dst, imm` with a full 64-bit immediate.
pub fn mov_reg64_imm64(buf: &mut Vec<u8>, dst: Register, imm: i64)
    ensures
        final(buf)@ == old(buf)@ + mov_reg64_imm64_bytes(dst, imm),
{
    let d = dst.number();
    let rex: u8 = 0x48 + (if d >= 8 { 1 } else { 0 });
    buf.push(rex);
    buf.push(0xB8 + d % 8);
    let image: u64 = #[verifier::truncate] (imm as u64);
    push_le_bytes_64(buf, image);
    proof {
        assert(buf@ =~= old(buf)@ + mov_reg64_imm64_bytes(dst, imm));
    }
}

/// Appends the near-return instruction.
pub fn ret_near(buf: &mut Vec<u8>)
    ensures
        final(buf)@ == old(buf)@ + ret_near_bytes(),
{
    buf.push(0xC3);
    proof {
        assert(buf@ =~= old(buf)@ + ret_near_bytes());
    }
}

} // verus!
