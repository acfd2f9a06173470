//! A minimal direct-to-machine-code backend for the x86-64 architecture.
//!
//! The crate turns a linear sequence of simple operations on symbols
//! (bind a literal, release, return a symbol) into raw machine-code
//! bytes for one function, choosing the calling convention from a
//! target triple at construction time.

pub mod backend;
pub mod convention;
pub mod encode;

pub use backend::BackendError;
pub use backend::Layout;
pub use backend::Literal;
pub use backend::Relocation;
pub use backend::StorageKind;
pub use backend::Symbol;
pub use backend::SymbolStorage;
pub use backend::X86_64Backend;
pub use backend::lemma_bind_then_load;
pub use backend::lemma_finalize_shape;
pub use backend::lemma_frame_necessity;
pub use backend::lemma_literal_width;
pub use backend::lemma_load_unbound;
pub use backend::lemma_release_then_load;
pub use convention::convention_of;
pub use convention::ResolvedConvention;
pub use encode::Register;
