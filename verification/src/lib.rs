//! Planning of an interception shim for a dynamic library.
//!
//! Given the image of a shared library, the crate reads its export table,
//! reconciles the exported names with the names that the caller implements by
//! hand, and lays out what the shim consists of: one symbol slot per export,
//! a loader that fills the slots exactly once, a forwarding trampoline for each
//! export that is passed through, and a binding for each export that is
//! replaced.

/// The loader of dynamic libraries with which a generated shim opens the real
/// library.
pub use libloading;

pub mod binding;
pub mod exports;
pub mod layout;
pub mod loader;
pub mod mitm;
pub mod reconcile;
pub mod symbols;
pub mod target;
pub mod text;
pub mod trampoline;

use vstd::prelude::*;
use crate::binding::{binding_result_view, binds_to, ItemFn, OverrideBinding, OverrideError};
use crate::mitm::{generates, shim_result_view, DylibMitmSpecifiedArgs, GenerationError, ShimPlan};

verus! {

/// Plans the shim for a library, for the operating system and the
/// instruction set that the options name.
pub fn dylib_mitm_specified(args: &DylibMitmSpecifiedArgs, dll_img: &[u8]) -> (r: Result<
    ShimPlan,
    GenerationError,
>)
    ensures
        generates(args@, dll_img@, shim_result_view(r)),
{
    mitm::impl_dylib_mitm_specified(args, dll_img)
}

/// Binds a function of the caller to the export of its name.
pub fn manual_impl(item: &ItemFn) -> (r: Result<OverrideBinding, OverrideError>)
    ensures
        binds_to(item@, binding_result_view(r)),
{
    binding::impl_manual_impl(item)
}

} // verus!
