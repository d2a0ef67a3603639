//! The store: single owner of one execution context's state — its linear
//! memory, its loaded module records, its linked closure records, and one
//! piece of host-defined shared data.
//!
//! Every store carries a numeric identity, and every handle created against
//! a store is tagged with that identity; using a handle with any other
//! store is rejected with `StoreMismatch` before anything else happens.

use vstd::prelude::*;

use vstd::string::StrSliceExecFns;

use crate::error::Error;
use crate::function::{FindOutcome, Function};
use crate::module::{Environment, Instance, Module};
use crate::ty::{ret_matches, types_match, NativeType};

verus! {

/// A source of fresh numeric identities for stores and environments.
/// Identities are handed out in strictly increasing order, so two
/// identities from one source are never equal.
pub struct Ids {
    next: u64,
}

impl Ids {
    /// The next identity this source would hand out.
    pub closed spec fn spec_next(&self) -> u64 {
        self.next
    }

    /// A fresh source.
    pub fn new() -> (r: Ids)
        ensures
            r.spec_next() == 0,
    {
        Ids { next: 0 }
    }

    /// Hands out the next identity, or `None` when the source is exhausted.
    pub fn fresh(&mut self) -> (r: Option<u64>)
        ensures
            old(self).spec_next() < u64::MAX ==> r == Some(old(self).spec_next())
                && final(self).spec_next() == old(self).spec_next() + 1,
            old(self).spec_next() == u64::MAX ==> r is None && final(self).spec_next() == old(
                self,
            ).spec_next(),
    {
        if self.next < u64::MAX {
            let id = self.next;
            self.next = self.next + 1;
            Some(id)
        } else {
            None
        }
    }
}

/// A short-lived borrow token over one store, carrying the store's
/// identity. Handles are validated against such a token rather than against
/// a raw pointer.
#[derive(Copy, Clone, Debug, PartialEq, Eq, Structural)]
pub struct StoreContext {
    /// The identity of the store this context was taken from.
    pub id: u64,
}

/// A raw engine handle tagged with the identity of the store it was created
/// in. The handle can only be taken out again through a context of that
/// same store.
#[derive(Copy, Clone, Debug, PartialEq, Eq, Structural)]
pub struct StoredData {
    /// The raw engine handle.
    pub raw: u64,
    /// The identity of the owning store.
    pub store_id: u64,
}

impl StoredData {
    /// Tags a raw handle with the identity of the given store.
    pub fn new(ctx: &StoreContext, raw: u64) -> (r: StoredData)
        ensures
            r.raw == raw,
            r.store_id == ctx.id,
    {
        StoredData { raw, store_id: ctx.id }
    }

    /// Returns the raw handle if and only if the context belongs to the
    /// store the handle was created in; any other context is rejected with
    /// `StoreMismatch`, and the raw handle is never exposed to it.
    pub fn get(&self, ctx: &StoreContext) -> (r: Result<u64, Error>)
        ensures
            ctx.id == self.store_id ==> r == Result::<u64, Error>::Ok(self.raw),
            ctx.id != self.store_id ==> r == Result::<u64, Error>::Err(Error::StoreMismatch),
    {
        if ctx.id == self.store_id {
            Ok(self.raw)
        } else {
            Err(Error::StoreMismatch)
        }
    }
}

/// A loaded module's retention record: the engine keeps raw pointers into
/// the module's backing bytes, so the store holds the bytes for as long as
/// it lives.
pub struct ModuleRecord {
    /// The engine's module handle.
    pub handle: u64,
    /// The bytes the module was parsed from, owned by the store from
    /// instantiation until the store is destroyed.
    pub bytes: Vec<u8>,
}

/// A linked closure's retention record, standing for the heap-pinned
/// record whose address the engine keeps for the store's whole lifetime.
pub struct ClosureRecord {
    /// The import's module namespace.
    pub module_name: String,
    /// The import's function name.
    pub function_name: String,
}

/// What the engine answered when a new execution context was allocated.
pub enum AllocOutcome {
    /// The context was allocated.
    Allocated,
    /// Allocation failed: resources are exhausted.
    Exhausted,
}

/// What the engine answered when a parsed module was loaded into a store.
pub enum LoadOutcome {
    /// The module was loaded; the guest's linear memory now has these
    /// contents.
    Loaded {
        /// The linear memory after loading.
        memory: Vec<u8>,
    },
    /// Loading failed with this diagnostic message.
    Failed {
        /// The engine's diagnostic message.
        message: String,
    },
}

/// One execution context: the owner of the guest's linear memory, the
/// loaded module records, the linked closure records, and one piece of
/// host-defined shared data.
pub struct Store<T> {
    id: u64,
    env_id: u64,
    stack_size: u32,
    memory: Vec<u8>,
    data: T,
    modules: Vec<ModuleRecord>,
    closures: Vec<ClosureRecord>,
}

impl<T> Store<T> {
    /// This store's identity.
    pub closed spec fn spec_id(&self) -> u64 {
        self.id
    }

    /// The identity of the environment this store was built from.
    pub closed spec fn spec_env_id(&self) -> u64 {
        self.env_id
    }

    /// The stack size, in slots, this store was created with.
    pub closed spec fn spec_stack_size(&self) -> u32 {
        self.stack_size
    }

    /// The guest's linear memory.
    pub closed spec fn spec_memory(&self) -> Seq<u8> {
        self.memory@
    }

    /// The host-defined shared data.
    pub closed spec fn spec_data(&self) -> T {
        self.data
    }

    /// The retained module records.
    pub closed spec fn spec_modules(&self) -> Seq<ModuleRecord> {
        self.modules@
    }

    /// The retained closure records.
    pub closed spec fn spec_closures(&self) -> Seq<ClosureRecord> {
        self.closures@
    }

    /// Everything but the linear memory is the same in both stores.
    pub open spec fn same_but_memory(&self, other: &Store<T>) -> bool {
        &&& self.spec_id() == other.spec_id()
        &&& self.spec_env_id() == other.spec_env_id()
        &&& self.spec_stack_size() == other.spec_stack_size()
        &&& self.spec_data() == other.spec_data()
        &&& self.spec_modules() == other.spec_modules()
        &&& self.spec_closures() == other.spec_closures()
    }

    /// Binds an allocation result to a new store with the given identity,
    /// built from the given environment. Fails exactly when the engine's
    /// allocation failed; the new store starts with empty memory and no
    /// modules or closures. Callers draw identities from one `Ids` source
    /// so that distinct stores never share one.
    pub fn new(id: u64, env: &Environment, stack_size: u32, data: T, alloc: AllocOutcome) -> (r:
        Result<Store<T>, Error>)
        ensures
            match alloc {
                AllocOutcome::Allocated => r matches Result::Ok(s) && s.spec_id() == id
                    && s.spec_env_id() == env.spec_id() && s.spec_stack_size() == stack_size
                    && s.spec_memory() == Seq::<u8>::empty() && s.spec_data() == data
                    && s.spec_modules().len() == 0 && s.spec_closures().len() == 0,
                AllocOutcome::Exhausted => r matches Result::Err(e) && (e matches Error::Wasm3(w)
                    && w.message@ == crate::error::malloc_failed_message()),
            },
    {
        match alloc {
            AllocOutcome::Allocated => Ok(
                Store {
                    id,
                    env_id: env.id_value(),
                    stack_size,
                    memory: Vec::new(),
                    data,
                    modules: Vec::new(),
                    closures: Vec::new(),
                },
            ),
            AllocOutcome::Exhausted => Err(Error::malloc_error()),
        }
    }

    /// A borrow token carrying this store's identity.
    pub fn as_context(&self) -> (r: StoreContext)
        ensures
            r.id == self.spec_id(),
    {
        StoreContext { id: self.id }
    }

    /// Binds a load result to a loaded module. Rejects a module parsed
    /// under another environment with `ModuleLoadEnvMismatch` without
    /// consulting the load result. On success, ownership of the module's
    /// backing bytes transfers to this store — the engine may hold raw
    /// pointers into them, so they stay alive as long as the store — and
    /// the guest's linear memory takes the loaded contents.
    pub fn instantiate(&mut self, module: Module, load: LoadOutcome) -> (r: Result<
        Instance,
        Error,
    >)
        ensures
            module.spec_env_id() != old(self).spec_env_id() ==> r == Result::<
                Instance,
                Error,
            >::Err(Error::ModuleLoadEnvMismatch) && *final(self) == *old(self),
            module.spec_env_id() == old(self).spec_env_id() ==> match load {
                LoadOutcome::Loaded { memory } => {
                    &&& r matches Result::Ok(inst)
                    &&& inst.spec_handle() == module.spec_handle()
                    &&& inst.spec_store_id() == old(self).spec_id()
                    &&& final(self).spec_memory() == memory@
                    &&& final(self).spec_modules().len() == old(self).spec_modules().len() + 1
                    &&& forall|j: int| 0 <= j < old(self).spec_modules().len() ==> final(
                        self).spec_modules()[j] == old(self).spec_modules()[j]
                    &&& final(self).spec_modules().last().handle == module.spec_handle()
                    &&& final(self).spec_modules().last().bytes@ == module.spec_bytes()
                    &&& final(self).spec_id() == old(self).spec_id()
                    &&& final(self).spec_env_id() == old(self).spec_env_id()
                    &&& final(self).spec_stack_size() == old(self).spec_stack_size()
                    &&& final(self).spec_data() == old(self).spec_data()
                    &&& final(self).spec_closures() == old(self).spec_closures()
                },
                LoadOutcome::Failed { message } => r == Result::<Instance, Error>::Err(
                    crate::error::spec_engine_error(message),
                ) && *final(self) == *old(self),
            },
    {
        if module.environment().id_value() != self.env_id {
            return Err(Error::ModuleLoadEnvMismatch);
        }
        match load {
            LoadOutcome::Loaded { memory } => {
                let (handle, bytes) = module.into_raw();
                let ctx = self.as_context();
                let instance = Instance::from_raw(StoredData::new(&ctx, handle));
                self.modules.push(ModuleRecord { handle, bytes });
                self.memory = memory;
                Ok(instance)
            },
            LoadOutcome::Failed { message } => Err(Error::engine_error(message)),
        }
    }

    /// Binds a lookup result to a typed function handle. The name must be
    /// free of null bytes; an absent function is `FunctionNotFound`; a
    /// found function is validated against the native signature, once,
    /// here.
    pub fn find_function(&self, name: &str, args: Vec<NativeType>, ret: Option<NativeType>,
        outcome: FindOutcome) -> (r: Result<Function, Error>)
        ensures
            crate::error::spec_contains_nul(name@) ==> r == Result::<Function, Error>::Err(
                Error::Nul,
            ),
            !crate::error::spec_contains_nul(name@) ==> match outcome {
                FindOutcome::Missing => r == Result::<Function, Error>::Err(
                    Error::FunctionNotFound,
                ),
                FindOutcome::Failed(m) => r == Result::<Function, Error>::Err(
                    crate::error::spec_engine_error(m),
                ),
                FindOutcome::Found(g) => {
                    if types_match(g.params@, args@) && ret_matches(g.results@, ret) {
                        r matches Result::Ok(f) && f.spec_handle() == g.handle
                            && f.spec_store_id() == self.spec_id() && f.spec_args() == args@
                            && f.spec_ret() == ret
                    } else {
                        r == Result::<Function, Error>::Err(Error::InvalidFunctionSignature)
                    }
                },
            },
    {
        if crate::error::contains_nul(name) {
            return Err(Error::Nul);
        }
        match outcome {
            FindOutcome::Missing => Err(Error::FunctionNotFound),
            FindOutcome::Failed(m) => Err(Error::engine_error(m)),
            FindOutcome::Found(g) => Function::from_guest(&self.as_context(), &g, args, ret),
        }
    }

    /// The guest's linear memory. The view is valid only until the next
    /// call into guest code: the engine may reallocate memory on growth,
    /// so callers re-fetch it after any such call.
    pub fn memory(&self) -> (r: &Vec<u8>)
        ensures
            r@ == self.spec_memory(),
    {
        &self.memory
    }

    /// The guest's linear memory, writable. The same re-fetch rule applies
    /// as for `memory`.
    pub fn memory_mut(&mut self) -> (r: &mut Vec<u8>)
        ensures
            (*r)@ == old(self).spec_memory(),
            final(self).spec_memory() == final(r)@,
            final(self).same_but_memory(old(self)),
    {
        &mut self.memory
    }

    /// The host-defined shared data.
    pub fn data(&self) -> (r: &T)
        ensures
            *r == self.spec_data(),
    {
        &self.data
    }

    /// The host-defined shared data, writable.
    pub fn data_mut(&mut self) -> (r: &mut T)
        ensures
            *r == old(self).spec_data(),
            final(self).spec_data() == *final(r),
            final(self).spec_id() == old(self).spec_id(),
            final(self).spec_env_id() == old(self).spec_env_id(),
            final(self).spec_stack_size() == old(self).spec_stack_size(),
            final(self).spec_memory() == old(self).spec_memory(),
            final(self).spec_modules() == old(self).spec_modules(),
            final(self).spec_closures() == old(self).spec_closures(),
    {
        &mut self.data
    }

    /// Normalizes the engine's description of the last error in this
    /// store: no message, or an empty one, is `None`.
    pub fn take_error_info(&mut self, info: Option<String>) -> (r: Option<String>)
        ensures
            *final(self) == *old(self),
            match info {
                Option::None => r is None,
                Option::Some(m) => if m@.len() == 0 {
                    r is None
                } else {
                    r == Some(m)
                },
            },
    {
        match info {
            Option::None => None,
            Option::Some(m) => {
                if m.as_str().unicode_len() == 0 {
                    None
                } else {
                    Some(m)
                }
            },
        }
    }

    /// Retains a linked closure record for this store's whole lifetime.
    pub(crate) fn push_closure(&mut self, record: ClosureRecord)
        ensures
            closures_extended(old(self), final(self), record.module_name@, record.function_name@),
    {
        self.closures.push(record);
    }
}

/// The second store is the first with exactly one closure record appended —
/// one with the given names — and nothing else changed. This is how a link
/// leaves a store: the pinned closure record is retained until the store
/// itself is destroyed.
pub open spec fn closures_extended<T>(
    pre: &Store<T>,
    post: &Store<T>,
    module_name: Seq<char>,
    function_name: Seq<char>,
) -> bool {
    &&& post.spec_closures().len() == pre.spec_closures().len() + 1
    &&& forall|j: int| 0 <= j < pre.spec_closures().len() ==> post.spec_closures()[j]
        == pre.spec_closures()[j]
    &&& post.spec_closures().last().module_name@ == module_name
    &&& post.spec_closures().last().function_name@ == function_name
    &&& post.spec_id() == pre.spec_id()
    &&& post.spec_env_id() == pre.spec_env_id()
    &&& post.spec_stack_size() == pre.spec_stack_size()
    &&& post.spec_memory() == pre.spec_memory()
    &&& post.spec_data() == pre.spec_data()
    &&& post.spec_modules() == pre.spec_modules()
}

} // verus!
