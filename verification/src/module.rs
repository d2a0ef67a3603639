//! Environments, parsed modules, and loaded instances.
//!
//! An environment is a parsing context with its own identity: a module
//! parsed under one environment can only be instantiated into a store built
//! from the same environment. A parsed module owns the bytes it was parsed
//! from until instantiation, at which point the owning store takes them
//! over (the engine may hold raw pointers into them for the store's whole
//! lifetime).

use vstd::prelude::*;
use vstd::string::{StrSliceExecFns, StringSliceAdditionalSpecFns};

use crate::error::{contains_nul, spec_contains_nul, spec_engine_error, Error};
use crate::function::{FindOutcome, Function};
use crate::store::{closures_extended, ClosureRecord, Store, StoreContext, StoredData};
use crate::ty::{
    function_signature, ret_matches, spec_function_signature, types_match, NativeType,
};

verus! {

/// A parsing context. Two environments with different identities are never
/// interchangeable.
#[derive(Copy, Clone, Debug, PartialEq, Eq, Structural)]
pub struct Environment {
    id: u64,
}

impl Environment {
    /// This environment's identity.
    pub closed spec fn spec_id(&self) -> u64 {
        self.id
    }

    /// An environment with the given identity. Callers draw identities
    /// from one `Ids` source so that distinct environments never share one.
    pub fn new(id: u64) -> (r: Environment)
        ensures
            r.spec_id() == id,
    {
        Environment { id }
    }

    /// This environment's identity.
    pub fn id_value(&self) -> (r: u64)
        ensures
            r == self.spec_id(),
    {
        self.id
    }
}

/// What the engine answered when a byte buffer was parsed as a module.
pub enum ParseOutcome {
    /// The bytes are a well-formed module; the engine produced this handle.
    Parsed {
        /// The engine's module handle.
        handle: u64,
    },
    /// The bytes are not a well-formed module.
    Failed {
        /// The engine's diagnostic message.
        message: String,
    },
}

/// An immutable parsed module: the engine's handle, the bytes it was parsed
/// from, and the identity of the environment it was parsed under.
pub struct Module {
    handle: u64,
    bytes: Vec<u8>,
    env_id: u64,
}

impl Module {
    /// The engine's handle for this module.
    pub closed spec fn spec_handle(&self) -> u64 {
        self.handle
    }

    /// The bytes this module was parsed from.
    pub closed spec fn spec_bytes(&self) -> Seq<u8> {
        self.bytes@
    }

    /// The identity of the environment this module was parsed under.
    pub closed spec fn spec_env_id(&self) -> u64 {
        self.env_id
    }

    /// Binds a parse result to a module value. Succeeds exactly when the
    /// engine parsed the bytes; the module then keeps the bytes alive and
    /// remembers its environment.
    pub fn parse(env: &Environment, bytes: Vec<u8>, outcome: ParseOutcome) -> (r: Result<
        Module,
        Error,
    >)
        requires
            bytes@.len() <= u32::MAX,
        ensures
            match outcome {
                ParseOutcome::Parsed { handle } => r matches Result::Ok(m) && m.spec_handle()
                    == handle && m.spec_bytes() == bytes@ && m.spec_env_id() == env.spec_id(),
                ParseOutcome::Failed { message } => r == Result::<Module, Error>::Err(
                    spec_engine_error(message),
                ),
            },
    {
        match outcome {
            ParseOutcome::Parsed { handle } => Ok(Module { handle, bytes, env_id: env.id }),
            ParseOutcome::Failed { message } => Err(Error::engine_error(message)),
        }
    }

    /// The environment this module was parsed under.
    pub fn environment(&self) -> (r: Environment)
        ensures
            r.spec_id() == self.spec_env_id(),
    {
        Environment { id: self.env_id }
    }

    /// Takes the module apart into its handle and backing bytes; used when
    /// a store takes ownership of them.
    pub(crate) fn into_raw(self) -> (r: (u64, Vec<u8>))
        ensures
            r.0 == self.spec_handle(),
            r.1@ == self.spec_bytes(),
    {
        (self.handle, self.bytes)
    }
}

/// A loaded module's identity inside one specific store.
#[derive(Debug)]
pub struct Instance {
    pub(crate) raw: StoredData,
}

impl Instance {
    /// The engine's module handle.
    pub closed spec fn spec_handle(&self) -> u64 {
        self.raw.raw
    }

    /// The identity of the store this instance lives in.
    pub closed spec fn spec_store_id(&self) -> u64 {
        self.raw.store_id
    }

    /// Wraps a tagged module handle.
    pub(crate) fn from_raw(raw: StoredData) -> (r: Instance)
        ensures
            r.spec_handle() == raw.raw,
            r.spec_store_id() == raw.store_id,
    {
        Instance { raw }
    }

    /// Binds a lookup result to a typed function handle, like
    /// `Store::find_function`, but additionally requires the found function
    /// to belong to this instance's module: one from any other module is
    /// `FunctionNotFound`, and an instance used against another store is
    /// `StoreMismatch`.
    pub fn find_function<T>(
        &self,
        store: &Store<T>,
        name: &str,
        args: Vec<NativeType>,
        ret: Option<NativeType>,
        outcome: FindOutcome,
    ) -> (r: Result<Function, Error>)
        ensures
            spec_contains_nul(name@) ==> r == Result::<Function, Error>::Err(Error::Nul),
            !spec_contains_nul(name@) ==> match outcome {
                FindOutcome::Missing => r == Result::<Function, Error>::Err(
                    Error::FunctionNotFound,
                ),
                FindOutcome::Failed(m) => r == Result::<Function, Error>::Err(
                    spec_engine_error(m),
                ),
                FindOutcome::Found(g) => {
                    if !(types_match(g.params@, args@) && ret_matches(g.results@, ret)) {
                        r == Result::<Function, Error>::Err(Error::InvalidFunctionSignature)
                    } else if self.spec_store_id() != store.spec_id() {
                        r == Result::<Function, Error>::Err(Error::StoreMismatch)
                    } else if g.module != Some(self.spec_handle()) {
                        r == Result::<Function, Error>::Err(Error::FunctionNotFound)
                    } else {
                        r matches Result::Ok(f) && f.spec_handle() == g.handle
                            && f.spec_store_id() == store.spec_id() && f.spec_args() == args@
                            && f.spec_ret() == ret
                    }
                },
            },
    {
        if contains_nul(name) {
            return Err(Error::Nul);
        }
        match outcome {
            FindOutcome::Missing => Err(Error::FunctionNotFound),
            FindOutcome::Failed(m) => Err(Error::engine_error(m)),
            FindOutcome::Found(g) => {
                match Function::from_guest(&store.as_context(), &g, args, ret) {
                    Result::Err(e) => Err(e),
                    Result::Ok(f) => {
                        match self.raw.get(&store.as_context()) {
                            Result::Err(e) => Err(e),
                            Result::Ok(own_handle) => {
                                match g.module {
                                    Option::Some(m) => if m == own_handle {
                                        Ok(f)
                                    } else {
                                        Err(Error::FunctionNotFound)
                                    },
                                    Option::None => Err(Error::FunctionNotFound),
                                }
                            },
                        }
                    },
                }
            },
        }
    }

    /// Builds everything a link hands to the engine: the two names as
    /// null-terminated byte strings and the textual type signature. A name
    /// with an embedded null byte fails with `Nul`, and an instance used
    /// against another store's context fails with `StoreMismatch`; both
    /// failures carry the attempted function name.
    pub fn prepare_link(
        &self,
        ctx: &StoreContext,
        module_name: &str,
        function_name: &str,
        args: &Vec<NativeType>,
        ret: Option<NativeType>,
    ) -> (r: Result<LinkRequest, ClosureLinkFailed>)
        ensures
            spec_contains_nul(module_name@) || spec_contains_nul(function_name@) ==> (
            r matches Result::Err(e) && e.source == Error::Nul && e.name@ == function_name@),
            !(spec_contains_nul(module_name@) || spec_contains_nul(function_name@))
                && self.spec_store_id() != ctx.id ==> (r matches Result::Err(e) && e.source
                == Error::StoreMismatch && e.name@ == function_name@),
            !(spec_contains_nul(module_name@) || spec_contains_nul(function_name@))
                && self.spec_store_id() == ctx.id ==> (r matches Result::Ok(req)
                && req.module_name_z@ == module_name.spec_bytes() + seq![0u8]
                && req.function_name_z@ == function_name.spec_bytes() + seq![0u8]
                && req.signature@ == spec_function_signature(args@, ret)),
    {
        if contains_nul(module_name) || contains_nul(function_name) {
            return Err(
                ClosureLinkFailed { source: Error::Nul, name: function_name.to_owned() },
            );
        }
        match self.raw.get(ctx) {
            Result::Err(e) => Err(ClosureLinkFailed { source: e, name: function_name.to_owned() }),
            Result::Ok(_) => {
                let mut module_name_z = module_name.as_bytes_vec();
                module_name_z.push(0u8);
                let mut function_name_z = function_name.as_bytes_vec();
                function_name_z.push(0u8);
                let signature = function_signature(args, ret);
                proof {
                    assert(module_name_z@ =~= module_name.spec_bytes() + seq![0u8]);
                    assert(function_name_z@ =~= function_name.spec_bytes() + seq![0u8]);
                }
                Ok(LinkRequest { module_name_z, function_name_z, signature })
            },
        }
    }

    /// Applies the engine's answer to a closure link. An import name absent
    /// from the module is tolerated as a no-op link: the closure record is
    /// still retained, since the engine may have kept its address. Any
    /// other failure is surfaced with the attempted function name, and the
    /// closure is not retained.
    pub fn complete_link<T>(
        &self,
        store: &mut Store<T>,
        module_name: &str,
        function_name: &str,
        outcome: LinkOutcome,
    ) -> (r: Result<(), ClosureLinkFailed>)
        ensures
            match outcome {
                LinkOutcome::Linked => r is Ok && closures_extended(
                    old(store),
                    final(store),
                    module_name@,
                    function_name@,
                ),
                LinkOutcome::Missing => r is Ok && closures_extended(
                    old(store),
                    final(store),
                    module_name@,
                    function_name@,
                ),
                LinkOutcome::Failed(m) => {
                    if spec_engine_error(m) == Error::FunctionNotFound {
                        r is Ok && closures_extended(
                            old(store),
                            final(store),
                            module_name@,
                            function_name@,
                        )
                    } else {
                        (r matches Result::Err(e) && e.source == spec_engine_error(m) && e.name@
                            == function_name@) && *final(store) == *old(store)
                    }
                },
            },
    {
        let record = ClosureRecord {
            module_name: module_name.to_owned(),
            function_name: function_name.to_owned(),
        };
        match outcome {
            LinkOutcome::Linked => {
                store.push_closure(record);
                Ok(())
            },
            LinkOutcome::Missing => {
                store.push_closure(record);
                Ok(())
            },
            LinkOutcome::Failed(m) => {
                let e = Error::engine_error(m);
                match e {
                    Error::FunctionNotFound => {
                        store.push_closure(record);
                        Ok(())
                    },
                    _ => Err(ClosureLinkFailed { source: e, name: function_name.to_owned() }),
                }
            },
        }
    }

    /// Applies the engine's answer to a raw function link. Unlike a closure
    /// link, nothing is retained and an absent import name is surfaced as
    /// `FunctionNotFound`.
    pub fn link_function<T>(
        &self,
        store: &Store<T>,
        module_name: &str,
        function_name: &str,
        outcome: LinkOutcome,
    ) -> (r: Result<(), Error>)
        ensures
            spec_contains_nul(module_name@) || spec_contains_nul(function_name@) ==> r
                == Result::<(), Error>::Err(Error::Nul),
            ({
                let clean = !spec_contains_nul(module_name@) && !spec_contains_nul(
                    function_name@,
                );
                &&& clean && self.spec_store_id() != store.spec_id() ==> r == Result::<
                    (),
                    Error,
                >::Err(Error::StoreMismatch)
                &&& clean && self.spec_store_id() == store.spec_id() ==> match outcome {
                    LinkOutcome::Linked => r is Ok,
                    LinkOutcome::Missing => r == Result::<(), Error>::Err(
                        Error::FunctionNotFound,
                    ),
                    LinkOutcome::Failed(m) => r == Result::<(), Error>::Err(
                        spec_engine_error(m),
                    ),
                }
            }),
    {
        if contains_nul(module_name) || contains_nul(function_name) {
            return Err(Error::Nul);
        }
        match self.raw.get(&store.as_context()) {
            Result::Err(e) => Err(e),
            Result::Ok(_) => match outcome {
                LinkOutcome::Linked => Ok(()),
                LinkOutcome::Missing => Err(Error::FunctionNotFound),
                LinkOutcome::Failed(m) => Err(Error::engine_error(m)),
            },
        }
    }
}

/// What a link hands to the engine: both names as null-terminated byte
/// strings, and the function's textual type signature.
#[derive(Debug)]
pub struct LinkRequest {
    /// The import's module namespace, null-terminated.
    pub module_name_z: Vec<u8>,
    /// The import's function name, null-terminated.
    pub function_name_z: Vec<u8>,
    /// The null-terminated textual type signature.
    pub signature: Vec<u8>,
}

/// What the engine answered when a host function was linked against a
/// module.
pub enum LinkOutcome {
    /// The import was linked.
    Linked,
    /// The module has no import of that name.
    Missing,
    /// Linking failed with this diagnostic message.
    Failed(String),
}

/// A closure failed to link; carries the name of the function that was
/// being linked, for diagnostics.
#[derive(Debug, PartialEq, Eq)]
pub struct ClosureLinkFailed {
    /// Why the link failed.
    pub source: Error,
    /// The name of the function that was being linked.
    pub name: String,
}

} // verus!
