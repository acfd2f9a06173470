//! The backend state machine: tracks where each symbol's value lives,
//! accumulates the machine-code bytes of one function body, and assembles
//! the finished function (prologue, body, epilogue) on demand.

use vstd::prelude::*;

use std::collections::HashMap;

use crate::convention::convention_of;
use crate::convention::resolve_convention;
use crate::convention::ResolvedConvention;
use crate::encode;
use crate::encode::Register;

verus! {

/// An opaque, globally unique identity for a value produced somewhere in
/// the function body. The backend only compares and stores it.
#[derive(Clone, Copy, Debug, PartialEq, Eq, Hash, Structural)]
pub struct Symbol(pub u64);

/// A compile-time-known constant value.
#[derive(Clone, Copy, Debug, PartialEq, Eq, Structural)]
pub enum Literal {
    Int(i64),
}

/// The size under which a stored value is interpreted.
#[derive(Clone, Copy, Debug, PartialEq, Eq, Structural)]
pub struct Layout {
    pub size_bytes: u32,
}

/// Where a symbol's value currently resides: a known constant, a physical
/// register, or a byte offset from the frame base.
#[derive(Clone, Copy, Debug, PartialEq, Eq, Structural)]
pub enum SymbolStorage {
    Literal(Literal),
    Register(Register, Layout),
    Stack(u32, Layout),
}

/// The tag of a `SymbolStorage` variant, used to report which storage kind
/// an operation cannot handle yet.
#[derive(Clone, Copy, Debug, PartialEq, Eq, Structural)]
pub enum StorageKind {
    Literal,
    Register,
    Stack,
}

/// Every failure the backend surfaces. Errors are returned, never used for
/// ordinary control flow, and no partial byte sequence accompanies one.
#[derive(Clone, Copy, Debug, PartialEq, Eq, Structural)]
pub enum BackendError {
    /// Construction was asked for a target whose default calling convention
    /// the backend does not support.
    UnsupportedCallingConvention(ResolvedConvention),
    /// A read was attempted for a symbol with no recorded storage.
    UnknownSymbol(Symbol),
    /// A read was attempted against a storage kind with no encoder yet.
    NotYetImplemented(StorageKind),
}

/// A deferred address reference: `offset` names a byte position within the
/// emitted sequence, `target` the symbol it must be patched to at link time.
#[derive(Clone, Copy, Debug, PartialEq, Eq, Structural)]
pub struct Relocation {
    pub offset: u64,
    pub target: Symbol,
}

/// The integer return register of the architecture: the first
/// general-purpose register in the canonical physical encoding.
pub open spec fn return_register() -> Register {
    Register::RAX
}

/// Parameter registers of the System-V convention, in ABI order.
pub open spec fn systemv_param_regs() -> Seq<Register> {
    seq![
        Register::RDI,
        Register::RSI,
        Register::RDX,
        Register::RCX,
        Register::R8,
        Register::R9,
    ]
}

/// Caller-saved registers of the System-V convention.
pub open spec fn systemv_caller_saved() -> Seq<Register> {
    seq![
        Register::RAX,
        Register::RCX,
        Register::RDX,
        Register::RSP,
        Register::RSI,
        Register::RDI,
        Register::R8,
        Register::R9,
        Register::R10,
        Register::R11,
    ]
}

/// Callee-saved registers of the System-V convention.
pub open spec fn systemv_callee_saved() -> Seq<Register> {
    seq![
        Register::RBX,
        Register::RBP,
        Register::R12,
        Register::R13,
        Register::R14,
        Register::R15,
    ]
}

/// Parameter registers of the Windows fast-call convention, in ABI order.
pub open spec fn windows_param_regs() -> Seq<Register> {
    seq![Register::RCX, Register::RDX, Register::R8, Register::R9]
}

/// Caller-saved registers of the Windows fast-call convention.
pub open spec fn windows_caller_saved() -> Seq<Register> {
    seq![
        Register::RAX,
        Register::RCX,
        Register::RDX,
        Register::R8,
        Register::R9,
        Register::R10,
        Register::R11,
    ]
}

/// Callee-saved registers of the Windows fast-call convention.
pub open spec fn windows_callee_saved() -> Seq<Register> {
    seq![
        Register::RBX,
        Register::RBP,
        Register::RSI,
        Register::RSP,
        Register::RDI,
        Register::R12,
        Register::R13,
        Register::R14,
        Register::R15,
    ]
}

/// The bytes a load of literal `value` into `dst` emits: the short 32-bit
/// immediate form when the value fits the signed 32-bit range (the processor
/// sign-extends it), the full 64-bit form otherwise.
pub open spec fn load_literal_bytes(dst: Register, value: i64) -> Seq<u8> {
    if i32::MIN <= value <= i32::MAX {
        encode::mov_reg64_imm32_bytes(dst, value as i32)
    } else {
        encode::mov_reg64_imm64_bytes(dst, value)
    }
}

/// The outcome of loading `sym` out of the given symbol table: success for a
/// stored literal, a typed error for an unsupported storage kind or a symbol
/// with no entry.
pub open spec fn spec_load_result(symbols: Map<u64, SymbolStorage>, sym: Symbol) -> Result<
    (),
    BackendError,
> {
    if !symbols.contains_key(sym.0) {
        Err(BackendError::UnknownSymbol(sym))
    } else {
        match symbols[sym.0] {
            SymbolStorage::Literal(Literal::Int(_)) => Ok(()),
            SymbolStorage::Register(_, _) => Err(
                BackendError::NotYetImplemented(StorageKind::Register),
            ),
            SymbolStorage::Stack(_, _) => Err(BackendError::NotYetImplemented(StorageKind::Stack)),
        }
    }
}

/// The bytes that loading `sym` into `dst` appends to the function body:
/// empty whenever the load fails.
pub open spec fn spec_load_bytes(
    symbols: Map<u64, SymbolStorage>,
    dst: Register,
    sym: Symbol,
) -> Seq<u8> {
    if symbols.contains_key(sym.0) {
        match symbols[sym.0] {
            SymbolStorage::Literal(Literal::Int(value)) => load_literal_bytes(dst, value),
            SymbolStorage::Register(_, _) => Seq::empty(),
            SymbolStorage::Stack(_, _) => Seq::empty(),
        }
    } else {
        Seq::empty()
    }
}

/// Whether a function needs a stack frame: always when it is not a leaf,
/// and otherwise exactly when its own stack usage exceeds the slack the
/// calling convention already guarantees it (shadow space plus red zone).
pub open spec fn spec_requires_frame(
    leaf_proc: bool,
    stack_size: u16,
    shadow_space: u8,
    red_zone: u8,
) -> bool {
    !leaf_proc || stack_size > shadow_space + red_zone
}

/// The frame-establishing instructions: push the frame pointer, then move
/// the stack pointer into it.
pub open spec fn prologue_bytes() -> Seq<u8> {
    encode::push_reg64_bytes(Register::RBP) + encode::mov_reg64_reg64_bytes(
        Register::RBP,
        Register::RSP,
    )
}

/// The frame-tearing instruction: pop the frame pointer back.
pub open spec fn epilogue_bytes() -> Seq<u8> {
    encode::pop_reg64_bytes(Register::RBP)
}

/// The complete function image: the frame prologue and epilogue exactly when
/// `frame` holds, the accumulated body in the middle, and the near-return
/// instruction at the end.
pub open spec fn spec_finalize_bytes(frame: bool, body: Seq<u8>) -> Seq<u8> {
    if frame {
        prologue_bytes() + body + epilogue_bytes() + encode::ret_near_bytes()
    } else {
        body + encode::ret_near_bytes()
    }
}

/// One code-generation backend for one function: the symbol location table,
/// the liveness map, the growing body buffer, and the calling-convention
/// profile chosen at construction.
pub struct X86_64Backend {
    buf: Vec<u8>,
    /// True while the only calls this function makes are tail calls; such a
    /// function may skip the frame pointer and the stack adjustment.
    leaf_proc: bool,
    last_seen: HashMap<u64, usize>,
    symbols: HashMap<u64, SymbolStorage>,
    gp_param_regs: Vec<Register>,
    caller_saved_regs: Vec<Register>,
    callee_saved_regs: Vec<Register>,
    shadow_space_size: u8,
    red_zone_size: u8,
    stack_size: u16,
}

impl X86_64Backend {
    /// The symbol location table: symbol identity to current storage.
    pub closed spec fn symbol_table(self) -> Map<u64, SymbolStorage> {
        self.symbols@
    }

    /// The machine-code bytes accumulated for the function body so far.
    pub closed spec fn body(self) -> Seq<u8> {
        self.buf@
    }

    /// The liveness map: symbol identity to the program point of last use.
    pub closed spec fn liveness(self) -> Map<u64, usize> {
        self.last_seen@
    }

    /// Whether the function is still a leaf.
    pub closed spec fn leaf_proc(self) -> bool {
        self.leaf_proc
    }

    /// The function's own stack usage in bytes.
    pub closed spec fn stack_size(self) -> u16 {
        self.stack_size
    }

    /// The convention's mandatory scratch space in bytes.
    pub closed spec fn shadow_space(self) -> u8 {
        self.shadow_space_size
    }

    /// The convention's guaranteed leaf-function slack in bytes.
    pub closed spec fn red_zone(self) -> u8 {
        self.red_zone_size
    }

    /// The convention's parameter registers, in ABI order.
    pub closed spec fn param_regs(self) -> Seq<Register> {
        self.gp_param_regs@
    }

    /// The convention's caller-saved registers.
    pub closed spec fn caller_saved(self) -> Seq<Register> {
        self.caller_saved_regs@
    }

    /// The convention's callee-saved registers.
    pub closed spec fn callee_saved(self) -> Seq<Register> {
        self.callee_saved_regs@
    }

    /// The state of a backend that has not generated any code yet.
    pub open spec fn is_fresh(self) -> bool {
        &&& self.symbol_table() == Map::<u64, SymbolStorage>::empty()
        &&& self.body() == Seq::<u8>::empty()
        &&& self.liveness() == Map::<u64, usize>::empty()
        &&& self.leaf_proc()
        &&& self.stack_size() == 0
    }

    /// The per-ABI data of the System-V convention.
    pub open spec fn has_systemv_profile(self) -> bool {
        &&& self.param_regs() == systemv_param_regs()
        &&& self.caller_saved() == systemv_caller_saved()
        &&& self.callee_saved() == systemv_callee_saved()
        &&& self.shadow_space() == 0
        &&& self.red_zone() == 128
    }

    /// The per-ABI data of the Windows fast-call convention.
    pub open spec fn has_windows_profile(self) -> bool {
        &&& self.param_regs() == windows_param_regs()
        &&& self.caller_saved() == windows_caller_saved()
        &&& self.callee_saved() == windows_callee_saved()
        &&& self.shadow_space() == 32
        &&& self.red_zone() == 0
    }

    /// Whether two backends carry the same calling-convention profile.
    pub open spec fn same_profile(self, other: Self) -> bool {
        &&& self.param_regs() == other.param_regs()
        &&& self.caller_saved() == other.caller_saved()
        &&& self.callee_saved() == other.callee_saved()
        &&& self.shadow_space() == other.shadow_space()
        &&& self.red_zone() == other.red_zone()
    }

    /// Builds a backend for a supported calling convention, or reports the
    /// unsupported one. All construction consequences are proved here, for
    /// every possible resolved convention.
    pub fn from_convention(conv: ResolvedConvention) -> (r: Result<X86_64Backend, BackendError>)
        ensures
            conv == ResolvedConvention::SystemV ==> (r matches Ok(b) && b.is_fresh()
                && b.has_systemv_profile()),
            conv == ResolvedConvention::WindowsFastcall ==> (r matches Ok(b) && b.is_fresh()
                && b.has_windows_profile()),
            conv != ResolvedConvention::SystemV && conv != ResolvedConvention::WindowsFastcall
                ==> r == Err::<X86_64Backend, BackendError>(
                BackendError::UnsupportedCallingConvention(conv),
            ),
    {
        match conv {
            ResolvedConvention::SystemV => {
                let b = X86_64Backend {
                    buf: Vec::new(),
                    leaf_proc: true,
                    last_seen: HashMap::new(),
                    symbols: HashMap::new(),
                    gp_param_regs: vec![
                        Register::RDI,
                        Register::RSI,
                        Register::RDX,
                        Register::RCX,
                        Register::R8,
                        Register::R9,
                    ],
                    caller_saved_regs: vec![
                        Register::RAX,
                        Register::RCX,
                        Register::RDX,
                        Register::RSP,
                        Register::RSI,
                        Register::RDI,
                        Register::R8,
                        Register::R9,
                        Register::R10,
                        Register::R11,
                    ],
                    callee_saved_regs: vec![
                        Register::RBX,
                        Register::RBP,
                        Register::R12,
                        Register::R13,
                        Register::R14,
                        Register::R15,
                    ],
                    shadow_space_size: 0,
                    red_zone_size: 128,
                    stack_size: 0,
                };
                proof {
                    assert(b.param_regs() =~= systemv_param_regs());
                    assert(b.caller_saved() =~= systemv_caller_saved());
                    assert(b.callee_saved() =~= systemv_callee_saved());
                }
                Ok(b)
            },
            ResolvedConvention::WindowsFastcall => {
                let b = X86_64Backend {
                    buf: Vec::new(),
                    leaf_proc: true,
                    last_seen: HashMap::new(),
                    symbols: HashMap::new(),
                    gp_param_regs: vec![Register::RCX, Register::RDX, Register::R8, Register::R9],
                    caller_saved_regs: vec![
                        Register::RAX,
                        Register::RCX,
                        Register::RDX,
                        Register::R8,
                        Register::R9,
                        Register::R10,
                        Register::R11,
                    ],
                    callee_saved_regs: vec![
                        Register::RBX,
                        Register::RBP,
                        Register::RSI,
                        Register::RSP,
                        Register::RDI,
                        Register::R12,
                        Register::R13,
                        Register::R14,
                        Register::R15,
                    ],
                    shadow_space_size: 32,
                    red_zone_size: 0,
                    stack_size: 0,
                };
                proof {
                    assert(b.param_regs() =~= windows_param_regs());
                    assert(b.caller_saved() =~= windows_caller_saved());
                    assert(b.callee_saved() =~= windows_callee_saved());
                }
                Ok(b)
            },
            _ => Err(BackendError::UnsupportedCallingConvention(conv)),
        }
    }

    /// Builds a backend for the target triple's default calling convention:
    /// construction succeeds exactly when that convention, named by
    /// `convention_of`, is System-V or Windows fast-call, yields a fresh
    /// backend with the matching profile, and otherwise fails with the
    /// resolved convention in the error.
    pub fn create(target: &target_lexicon::Triple) -> (r: Result<X86_64Backend, BackendError>)
        ensures
            r is Ok <==> (convention_of(*target) == ResolvedConvention::SystemV
                || convention_of(*target) == ResolvedConvention::WindowsFastcall),
            convention_of(*target) == ResolvedConvention::SystemV ==> (r matches Ok(b)
                && b.is_fresh() && b.has_systemv_profile()),
            convention_of(*target) == ResolvedConvention::WindowsFastcall ==> (r matches Ok(b)
                && b.is_fresh() && b.has_windows_profile()),
            r matches Err(e) ==> e == BackendError::UnsupportedCallingConvention(
                convention_of(*target),
            ),
    {
        let conv = resolve_convention(target);
        Self::from_convention(conv)
    }

    /// Records, unconditionally, where `sym`'s value now resides, replacing
    /// any storage recorded before. Emits no bytes: the record only governs
    /// subsequent reads.
    pub fn bind_storage(&mut self, sym: Symbol, storage: SymbolStorage)
        ensures
            final(self).symbol_table() == old(self).symbol_table().insert(sym.0, storage),
            final(self).body() == old(self).body(),
            final(self).liveness() == old(self).liveness(),
            final(self).leaf_proc() == old(self).leaf_proc(),
            final(self).stack_size() == old(self).stack_size(),
            final(self).same_profile(*old(self)),
    {
        self.symbols.insert(sym.0, storage);
    }

    /// Records, unconditionally, that `sym`'s value is the constant `lit`,
    /// replacing any storage recorded before. Emits no bytes.
    pub fn bind_literal(&mut self, sym: Symbol, lit: Literal)
        ensures
            final(self).symbol_table() == old(self).symbol_table().insert(
                sym.0,
                SymbolStorage::Literal(lit),
            ),
            final(self).body() == old(self).body(),
            final(self).liveness() == old(self).liveness(),
            final(self).leaf_proc() == old(self).leaf_proc(),
            final(self).stack_size() == old(self).stack_size(),
            final(self).same_profile(*old(self)),
    {
        self.bind_storage(sym, SymbolStorage::Literal(lit));
    }

    /// Removes `sym`'s storage record entirely. Releasing a symbol that has
    /// no record is a no-op, not an error.
    pub fn release(&mut self, sym: Symbol)
        ensures
            final(self).symbol_table() == old(self).symbol_table().remove(sym.0),
            final(self).body() == old(self).body(),
            final(self).liveness() == old(self).liveness(),
            final(self).leaf_proc() == old(self).leaf_proc(),
            final(self).stack_size() == old(self).stack_size(),
            final(self).same_profile(*old(self)),
    {
        self.symbols.remove(&sym.0);
    }

    /// Records the program point at which `sym` is used for the last time.
    pub fn set_last_seen(&mut self, sym: Symbol, point: usize)
        ensures
            final(self).liveness() == old(self).liveness().insert(sym.0, point),
            final(self).symbol_table() == old(self).symbol_table(),
            final(self).body() == old(self).body(),
            final(self).leaf_proc() == old(self).leaf_proc(),
            final(self).stack_size() == old(self).stack_size(),
            final(self).same_profile(*old(self)),
    {
        self.last_seen.insert(sym.0, point);
    }

    /// The program point at which `sym` is used for the last time, if one
    /// was recorded.
    pub fn last_seen(&self, sym: Symbol) -> (r: Option<usize>)
        ensures
            r matches Some(point) ==> self.liveness().contains_key(sym.0)
                && self.liveness()[sym.0] == point,
            r is None ==> !self.liveness().contains_key(sym.0),
    {
        match self.last_seen.get(&sym.0) {
            Some(point) => Some(*point),
            None => None,
        }
    }

    /// Emits the instructions that materialize `sym`'s value in register
    /// `dst`: the core read path. A stored literal is moved as an immediate,
    /// in the width `load_literal_bytes` gives; register and stack storage
    /// have no encoder yet and fail with a typed error; a symbol without a
    /// record fails with `UnknownSymbol`. The symbol table is never changed:
    /// loading neither moves nor consumes the source storage.
    pub fn load_into(&mut self, dst: Register, sym: Symbol) -> (r: Result<(), BackendError>)
        ensures
            r == spec_load_result(old(self).symbol_table(), sym),
            final(self).body() == old(self).body() + spec_load_bytes(
                old(self).symbol_table(),
                dst,
                sym,
            ),
            final(self).symbol_table() == old(self).symbol_table(),
            final(self).liveness() == old(self).liveness(),
            final(self).leaf_proc() == old(self).leaf_proc(),
            final(self).stack_size() == old(self).stack_size(),
            final(self).same_profile(*old(self)),
    {
        match self.symbols.get(&sym.0) {
            Some(SymbolStorage::Literal(Literal::Int(x))) => {
                let value: i64 = *x;
                if value <= i32::MAX as i64 && value >= i32::MIN as i64 {
                    encode::mov_reg64_imm32(&mut self.buf, dst, value as i32);
                } else {
                    encode::mov_reg64_imm64(&mut self.buf, dst, value);
                }
                Ok(())
            },
            Some(SymbolStorage::Register(_, _)) => {
                proof {
                    assert(self.buf@ =~= self.buf@ + spec_load_bytes(self.symbols@, dst, sym));
                }
                Err(BackendError::NotYetImplemented(StorageKind::Register))
            },
            Some(SymbolStorage::Stack(_, _)) => {
                proof {
                    assert(self.buf@ =~= self.buf@ + spec_load_bytes(self.symbols@, dst, sym));
                }
                Err(BackendError::NotYetImplemented(StorageKind::Stack))
            },
            None => {
                proof {
                    assert(self.buf@ =~= self.buf@ + spec_load_bytes(self.symbols@, dst, sym));
                }
                Err(BackendError::UnknownSymbol(sym))
            },
        }
    }

    /// Emits the instructions that place `sym`'s value in the architecture's
    /// designated integer return register: the single, fixed policy for
    /// returning one integer-class value.
    pub fn return_symbol(&mut self, sym: Symbol) -> (r: Result<(), BackendError>)
        ensures
            r == spec_load_result(old(self).symbol_table(), sym),
            final(self).body() == old(self).body() + spec_load_bytes(
                old(self).symbol_table(),
                return_register(),
                sym,
            ),
            final(self).symbol_table() == old(self).symbol_table(),
            final(self).liveness() == old(self).liveness(),
            final(self).leaf_proc() == old(self).leaf_proc(),
            final(self).stack_size() == old(self).stack_size(),
            final(self).same_profile(*old(self)),
    {
        self.load_into(Register::RAX, sym)
    }

    /// Whether this function needs a stack frame at all: see
    /// `spec_requires_frame`.
    pub fn requires_frame(&self) -> (r: bool)
        ensures
            r == spec_requires_frame(
                self.leaf_proc(),
                self.stack_size(),
                self.shadow_space(),
                self.red_zone(),
            ),
    {
        !self.leaf_proc || self.stack_size > self.shadow_space_size as u16
            + self.red_zone_size as u16
    }

    /// Assembles the complete function: frame prologue and epilogue exactly
    /// when a frame is required, the accumulated body in between, and the
    /// near-return instruction at the end. The relocation list is genuinely
    /// empty: no operation of this backend emits a reference to an address
    /// known only at link time yet. The path is infallible given valid prior
    /// state, but the contract surfaces, rather than hides, the `Result`.
    pub fn finalize(&self) -> (r: Result<(Vec<u8>, Vec<Relocation>), BackendError>)
        ensures
            r matches Ok(out) ==> out.0@ == spec_finalize_bytes(
                spec_requires_frame(
                    self.leaf_proc(),
                    self.stack_size(),
                    self.shadow_space(),
                    self.red_zone(),
                ),
                self.body(),
            ) && out.1@ == Seq::<Relocation>::empty(),
            r is Ok,
    {
        let ghost frame = spec_requires_frame(
            self.leaf_proc(),
            self.stack_size(),
            self.shadow_space(),
            self.red_zone(),
        );
        let mut out: Vec<u8> = Vec::new();
        if self.requires_frame() {
            encode::push_reg64(&mut out, Register::RBP);
            encode::mov_reg64_reg64(&mut out, Register::RBP, Register::RSP);
        }
        let mut i: usize = 0;
        while i < self.buf.len()
            invariant
                i <= self.buf.len(),
                out@ == (if frame {
                    prologue_bytes()
                } else {
                    Seq::<u8>::empty()
                }) + self.buf@.take(i as int),
            decreases self.buf.len() - i,
        {
            out.push(self.buf[i]);
            i = i + 1;
            proof {
                assert(self.buf@.take(i as int) =~= self.buf@.take(i - 1) + seq![self.buf@[i - 1]]);
                assert(out@ =~= (if frame {
                    prologue_bytes()
                } else {
                    Seq::<u8>::empty()
                }) + self.buf@.take(i as int));
            }
        }
        proof {
            assert(self.buf@.take(self.buf@.len() as int) =~= self.buf@);
        }
        if self.requires_frame() {
            encode::pop_reg64(&mut out, Register::RBP);
        }
        encode::ret_near(&mut out);
        proof {
            assert(out@ =~= spec_finalize_bytes(frame, self.body()));
        }
        Ok((out, Vec::new()))
    }

    /// Returns the backend to an empty-but-reusable state for the next
    /// function: the symbol location table and the body buffer are cleared;
    /// the calling-convention data persist.
    pub fn reset(&mut self)
        ensures
            final(self).symbol_table() == Map::<u64, SymbolStorage>::empty(),
            final(self).body() == Seq::<u8>::empty(),
            final(self).liveness() == old(self).liveness(),
            final(self).leaf_proc() == old(self).leaf_proc(),
            final(self).stack_size() == old(self).stack_size(),
            final(self).same_profile(*old(self)),
    {
        self.symbols.clear();
        self.buf.clear();
    }
}

/// Law: the width of the immediate encoding is decided by the signed 32-bit
/// range alone. A value inside it is emitted in the short 32-bit form, every
/// other representable 64-bit value in the full 64-bit form.
pub proof fn lemma_literal_width(dst: Register, value: i64)
    ensures
        i32::MIN <= value <= i32::MAX ==> load_literal_bytes(dst, value)
            == encode::mov_reg64_imm32_bytes(dst, value as i32),
        !(i32::MIN <= value <= i32::MAX) ==> load_literal_bytes(dst, value)
            == encode::mov_reg64_imm64_bytes(dst, value),
{
}

/// Law: binding a literal and then loading the same symbol always succeeds,
/// emits exactly the literal's immediate-move bytes, and leaves the stored
/// literal intact. Since a load never changes the symbol table, repeated
/// loads of the same symbol each emit these same bytes.
pub proof fn lemma_bind_then_load(
    symbols: Map<u64, SymbolStorage>,
    sym: Symbol,
    value: i64,
    dst: Register,
)
    ensures
        spec_load_result(symbols.insert(sym.0, SymbolStorage::Literal(Literal::Int(value))), sym)
            == Ok::<(), BackendError>(()),
        spec_load_bytes(
            symbols.insert(sym.0, SymbolStorage::Literal(Literal::Int(value))),
            dst,
            sym,
        ) == load_literal_bytes(dst, value),
        symbols.insert(sym.0, SymbolStorage::Literal(Literal::Int(value)))[sym.0]
            == SymbolStorage::Literal(Literal::Int(value)),
{
}

/// Law: releasing a symbol and then loading it fails with `UnknownSymbol`.
pub proof fn lemma_release_then_load(symbols: Map<u64, SymbolStorage>, sym: Symbol)
    ensures
        spec_load_result(symbols.remove(sym.0), sym) == Err::<(), BackendError>(
            BackendError::UnknownSymbol(sym),
        ),
{
}

/// Law: loading a symbol that was never bound fails with `UnknownSymbol`.
pub proof fn lemma_load_unbound(symbols: Map<u64, SymbolStorage>, sym: Symbol)
    requires
        !symbols.contains_key(sym.0),
    ensures
        spec_load_result(symbols, sym) == Err::<(), BackendError>(BackendError::UnknownSymbol(sym)),
{
}

/// Law: a non-leaf function always needs a frame, whatever its stack usage;
/// a function whose stack usage exceeds the convention's guaranteed slack
/// needs one even as a leaf; and only a leaf whose usage fits within that
/// slack needs none.
pub proof fn lemma_frame_necessity(leaf_proc: bool, stack_size: u16, shadow: u8, red: u8)
    ensures
        !leaf_proc ==> spec_requires_frame(leaf_proc, stack_size, shadow, red),
        stack_size > shadow + red ==> spec_requires_frame(leaf_proc, stack_size, shadow, red),
        leaf_proc && stack_size <= shadow + red ==> !spec_requires_frame(
            leaf_proc,
            stack_size,
            shadow,
            red,
        ),
{
}

/// Law: the finalized image always ends with the near-return instruction,
/// and the frame prologue and epilogue appear together or not at all.
pub proof fn lemma_finalize_shape(frame: bool, body: Seq<u8>)
    ensures
        spec_finalize_bytes(frame, body).len() >= 1,
        spec_finalize_bytes(frame, body).last() == 0xC3u8,
        frame ==> spec_finalize_bytes(frame, body) == prologue_bytes() + body + epilogue_bytes()
            + encode::ret_near_bytes(),
        !frame ==> spec_finalize_bytes(frame, body) == body + encode::ret_near_bytes(),
{
    let all = spec_finalize_bytes(frame, body);
    assert(all.last() == encode::ret_near_bytes()[0]);
}

} // verus!
