//! Calling-convention selection: the one place where the crate consults the
//! target triple. The triple is opaque here; everything downstream works on
//! the plain `ResolvedConvention` value that `resolve_convention` returns.

use vstd::prelude::*;

verus! {

/// The default calling convention that the target triple resolves to, as a
/// plain value of this crate's own. `Unknown` stands both for a triple with
/// no default convention at all and for a convention this crate has no name
/// for.
#[derive(Clone, Copy, Debug, PartialEq, Eq, Structural)]
pub enum ResolvedConvention {
    SystemV,
    WindowsFastcall,
    WasmBasicCAbi,
    AppleAarch64,
    Unknown,
}

/// `target_lexicon::Triple` is consumed opaquely: the crate reads nothing
/// from it but the default calling convention, through `resolve_convention`.
#[verifier::external_type_specification]
#[verifier::external_body]
pub struct ExTriple(target_lexicon::Triple);

/// The default calling convention of a target triple, as a value of this
/// crate's own enum. The resolution reads the triple's fields alone, so the
/// result is a function of the triple and can be named here; what the name
/// stands for is computed by `resolve_convention`.
pub uninterp spec fn convention_of(t: target_lexicon::Triple) -> ResolvedConvention;

/// Relies on `target_lexicon::Triple::default_calling_convention`, which
/// computes the default convention from the triple's fields alone; the
/// contract only names that result. The supported/unsupported decision on
/// it is proved in `X86_64Backend::from_convention`, for every possible
/// value.
#[verifier::external_body]
pub(crate) fn resolve_convention(target: &target_lexicon::Triple) -> (r: ResolvedConvention)
    ensures
        r == convention_of(*target),
{
    match target.default_calling_convention() {
        Ok(target_lexicon::CallingConvention::SystemV) => ResolvedConvention::SystemV,
        Ok(target_lexicon::CallingConvention::WindowsFastcall) => {
            ResolvedConvention::WindowsFastcall
        },
        Ok(target_lexicon::CallingConvention::WasmBasicCAbi) => ResolvedConvention::WasmBasicCAbi,
        Ok(target_lexicon::CallingConvention::AppleAarch64) => ResolvedConvention::AppleAarch64,
        Ok(_) => ResolvedConvention::Unknown,
        Err(()) => ResolvedConvention::Unknown,
    }
}

} // verus!
