//! Typed function handles and the calling convention around them.
//!
//! A `Function` pairs an engine handle with the identity of its store and a
//! native signature. Its invariant: the native signature was validated
//! against the guest function's declared signature when the handle was
//! constructed, once, at lookup time — a handle that exists has passed
//! validation, and a call through it never re-validates.

use vstd::prelude::*;

use crate::error::{spec_engine_error, Error, Trap};
use crate::store::{StoreContext, StoredData};
use crate::ty::{
    decode_values, encode_values, ret_matches, ret_slot_count, spec_ret_slot_count, spec_slot_of,
    spec_value_of, types_match, validate_ret, validate_types, NativeType, ValueType, WasmValue,
    values_match,
};

verus! {

/// What the engine reports about one guest function: its handle, its
/// declared parameter and result type sequences, and the handle of the
/// module it belongs to, if any.
pub struct GuestFunction {
    /// The engine's function handle.
    pub handle: u64,
    /// The declared parameter type tags, in order.
    pub params: Vec<ValueType>,
    /// The declared result type tags, in order.
    pub results: Vec<ValueType>,
    /// The handle of the module the function belongs to.
    pub module: Option<u64>,
}

/// What the engine answered when a function was looked up by name.
pub enum FindOutcome {
    /// The function exists; this is what the engine reports about it.
    Found(GuestFunction),
    /// No function of that name exists in the loaded modules.
    Missing,
    /// The lookup itself failed with this diagnostic message.
    Failed(String),
}

/// A validated reference to one exported guest function, tagged with the
/// identity of its originating store and carrying its native signature.
#[derive(Debug)]
pub struct Function {
    pub(crate) raw: StoredData,
    pub(crate) args: Vec<NativeType>,
    pub(crate) ret: Option<NativeType>,
}

impl Function {
    /// The engine's function handle.
    pub closed spec fn spec_handle(&self) -> u64 {
        self.raw.raw
    }

    /// The identity of the store this handle originates from.
    pub closed spec fn spec_store_id(&self) -> u64 {
        self.raw.store_id
    }

    /// The native argument kinds this handle was validated for.
    pub closed spec fn spec_args(&self) -> Seq<NativeType> {
        self.args@
    }

    /// The native return kind this handle was validated for; `None` is
    /// unit.
    pub closed spec fn spec_ret(&self) -> Option<NativeType> {
        self.ret
    }

    /// An identical handle for the same guest function.
    pub fn duplicate(&self) -> (r: Function)
        ensures
            r.spec_handle() == self.spec_handle(),
            r.spec_store_id() == self.spec_store_id(),
            r.spec_args() == self.spec_args(),
            r.spec_ret() == self.spec_ret(),
    {
        let mut args: Vec<NativeType> = Vec::new();
        let n = self.args.len();
        let mut i: usize = 0;
        while i < n
            invariant
                n == self.args@.len(),
                0 <= i <= n,
                args@ =~= self.args@.take(i as int),
            decreases n - i,
        {
            args.push(self.args[i]);
            i = i + 1;
        }
        proof {
            assert(args@ =~= self.args@);
        }
        Function { raw: self.raw, args, ret: self.ret }
    }

    /// Validates a looked-up guest function against a native signature and
    /// constructs the handle. Accepts exactly the guest functions whose
    /// parameter type sequence matches the native argument kinds
    /// positionally and whose result arity and type match the native
    /// return kind; everything else is `InvalidFunctionSignature`.
    pub fn from_guest(ctx: &StoreContext, guest: &GuestFunction, args: Vec<NativeType>, ret: Option<
        NativeType,
    >) -> (r: Result<Function, Error>)
        ensures
            types_match(guest.params@, args@) && ret_matches(guest.results@, ret) ==> (
            r matches Result::Ok(f) && f.spec_handle() == guest.handle && f.spec_store_id()
                == ctx.id && f.spec_args() == args@ && f.spec_ret() == ret),
            !(types_match(guest.params@, args@) && ret_matches(guest.results@, ret)) ==> r
                == Result::<Function, Error>::Err(Error::InvalidFunctionSignature),
    {
        if validate_types(&guest.params, &args) && validate_ret(&guest.results, ret) {
            Ok(Function { raw: StoredData::new(ctx, guest.handle), args, ret })
        } else {
            Err(Error::InvalidFunctionSignature)
        }
    }
}

/// What the engine answered when a guest function was called: possibly
/// reallocated linear memory, and either the returned stack slots or a
/// diagnostic message (a trap message for a guest trap).
pub struct CallOutcome {
    /// The linear memory after the call, when the call may have grown or
    /// reallocated it; `None` when it is untouched.
    pub new_memory: Option<Vec<u8>>,
    /// The returned stack slots on success, or the diagnostic message.
    pub result: Result<Vec<u64>, String>,
}

impl Function {
    /// Starts a typed call: checks that this handle belongs to the given
    /// store, and lays the arguments out as consecutive stack slots. A
    /// handle from another store is rejected with `StoreMismatch` and the
    /// store is not touched at all.
    pub fn begin_call<T>(&self, store: &crate::store::Store<T>, args: &Vec<WasmValue>) -> (r:
        Result<Vec<u64>, Error>)
        requires
            values_match(args@, self.spec_args()),
        ensures
            self.spec_store_id() != store.spec_id() ==> r == Result::<Vec<u64>, Error>::Err(
                Error::StoreMismatch,
            ),
            self.spec_store_id() == store.spec_id() ==> (r matches Result::Ok(slots)
                && slots@.len() == args@.len() && (forall|i: int|
                0 <= i < args@.len() ==> slots@[i] == spec_slot_of(#[trigger] args@[i]))),
    {
        let ctx = store.as_context();
        match self.raw.get(&ctx) {
            Result::Err(e) => Err(e),
            Result::Ok(_) => Ok(encode_values(args)),
        }
    }

    /// Finishes a typed call from what the engine answered: applies the
    /// possibly reallocated linear memory to the store (so any earlier
    /// memory view must be re-fetched), then either decodes the returned
    /// slot at this handle's return kind or maps the diagnostic message to
    /// its error. The store itself stays valid either way — a trap
    /// terminates only this call.
    pub fn finish_call<T>(&self, store: &mut crate::store::Store<T>, outcome: CallOutcome) -> (r:
        Result<Option<WasmValue>, Error>)
        requires
            self.spec_store_id() == old(store).spec_id(),
            outcome.result matches Result::Ok(s) ==> s@.len() == spec_ret_slot_count(
                self.spec_ret(),
            ),
        ensures
            final(store).same_but_memory(old(store)),
            final(store).spec_memory() == (match outcome.new_memory {
                Option::Some(m) => m@,
                Option::None => old(store).spec_memory(),
            }),
            match outcome.result {
                Result::Ok(ret_slots) => match self.spec_ret() {
                    Option::None => r == Result::<Option<WasmValue>, Error>::Ok(None),
                    Option::Some(t) => r == Result::<Option<WasmValue>, Error>::Ok(
                        Some(spec_value_of(ret_slots@[0], t)),
                    ),
                },
                Result::Err(m) => r == Result::<Option<WasmValue>, Error>::Err(
                    spec_engine_error(m),
                ),
            },
    {
        match outcome.new_memory {
            Option::Some(m) => {
                let mem = store.memory_mut();
                *mem = m;
            },
            Option::None => {},
        }
        match outcome.result {
            Result::Ok(ret_slots) => match self.ret {
                Option::None => Ok(None),
                Option::Some(t) => Ok(Some(crate::ty::read_slot(ret_slots[0], t))),
            },
            Result::Err(m) => Err(Error::engine_error(m)),
        }
    }
}

/// Reads a host function's native arguments out of the engine's raw
/// call-stack slots, skipping the slots reserved for the return value.
pub fn trampoline_read_args(slots: &Vec<u64>, arg_types: &Vec<NativeType>, ret: Option<
    NativeType,
>) -> (r: Vec<WasmValue>)
    requires
        spec_ret_slot_count(ret) + arg_types@.len() <= slots@.len(),
    ensures
        r@.len() == arg_types@.len(),
        forall|i: int| 0 <= i < arg_types@.len() ==> r@[i] == spec_value_of(
            slots@[spec_ret_slot_count(ret) + i],
            #[trigger] arg_types@[i],
        ),
{
    decode_values(slots, arg_types, ret_slot_count(ret))
}

/// Writes a host function's outcome back into the engine's raw call-stack
/// slots: a returned value goes into the first slot, a unit result writes
/// nothing, and a guest-visible fault writes nothing and hands back the
/// trap to report to the engine instead.
pub fn trampoline_write_result(slots: &mut Vec<u64>, result: &Result<Option<WasmValue>, Trap>) -> (
    marker: Option<Trap>)
    requires
        (*result) matches Result::Ok(Some(_)) ==> old(slots)@.len() >= 1,
    ensures
        match *result {
            Result::Ok(Some(v)) => marker is None && final(slots)@ == old(slots)@.update(
                0,
                spec_slot_of(v),
            ),
            Result::Ok(None) => marker is None && final(slots)@ == old(slots)@,
            Result::Err(t) => marker == Some(t) && final(slots)@ == old(slots)@,
        },
{
    match result {
        Result::Ok(Some(v)) => {
            let mut slot: u64 = 0;
            crate::ty::write_slot(v, &mut slot);
            slots.set(0, slot);
            None
        },
        Result::Ok(None) => None,
        Result::Err(t) => Some(*t),
    }
}

} // verus!
