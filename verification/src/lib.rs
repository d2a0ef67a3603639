//! A typed, memory-safe embedding layer around an opaque bytecode
//! interpreter, together with a bridge to a managed-language runtime that
//! itself runs as guest bytecode.
//!
//! The interpreter engine (module parsing, instruction execution, raw memory
//! management) is an external collaborator: every engine primitive is
//! represented here by the value it hands back, and the library verifies the
//! embedding logic built on those values — the slot-level value marshalling
//! protocol, signature validation, store-identity checks on every handle,
//! the closure-link protocol, and the managed-object bridge with its
//! UTF-16 string marshalling and exception-check discipline.

use vstd::prelude::*;

pub mod borrow;
pub mod error;
pub mod function;
pub mod memory;
pub mod module;
pub mod store;
pub mod teavm;
pub mod ty;
pub mod utf16;

verus! {

/// The host-defined shared data one store carries: the managed runtime's
/// resolved accessor table, once the guest module has been linked.
pub struct Data {
    /// The accessor table, present after linking.
    pub teavm: Option<teavm::TeaVM>,
}

impl Data {
    /// Data with no accessor table yet.
    pub fn new() -> (r: Data)
        ensures
            r.teavm is None,
    {
        Data { teavm: None }
    }
}

} // verus!
