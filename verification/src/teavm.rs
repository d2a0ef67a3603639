//! The managed-object bridge: marshalling for the string and array objects
//! of a managed-language runtime that itself runs as guest bytecode, and
//! the exception-check discipline around every call into that runtime.
//!
//! The managed runtime exposes a fixed set of exported accessor functions
//! (allocate a string or array, resolve an object to its raw storage
//! address or length, and read the exception flag). A managed object is an
//! opaque 32-bit reference, never dereferenced directly: the bridge
//! resolves it through accessors to a byte offset into the guest's linear
//! memory, and every resolved address is used before the next call into
//! guest code, never after.

use vstd::prelude::*;
use vstd::string::StrSliceExecFns;
use vstd::utf8::encode_utf8;

use crate::error::{contains_nul, spec_contains_nul, spec_engine_error, Error};
use crate::function::{CallOutcome, Function};
use crate::memory::{
    le_bytes_u32, overlay, read_u16s, units_at, utf16_le_bytes, write_region,
};
use crate::store::Store;
use crate::ty::NativeType;
use crate::utf16::{decode_units, decode_utf16_lossy, encode_units, encode_utf16};

verus! {

/// A fault detected by the bridge. Every one of these is fatal for the
/// current top-level operation: the bridge does not attempt partial
/// recovery.
#[derive(Debug, PartialEq, Eq)]
pub enum BridgeError {
    /// A resolved address or length fell outside the guest's linear
    /// memory.
    OutOfBounds,
    /// The managed runtime's exception flag was set after a call.
    GuestException,
    /// A call into the guest failed before the bridge could check the
    /// exception flag.
    Call(Error),
    /// A string bound for a null-terminated consumer held an embedded null
    /// character.
    Nul,
    /// A guest memory region that should hold text was not valid UTF-8.
    InvalidUtf8,
}

/// The managed runtime's accessor functions, resolved once after the
/// module is linked: the exception flag reader, the allocators, and one
/// raw-data resolver per managed array kind.
pub struct TeaVM {
    /// Reads the exception flag: nonzero means the most recent managed
    /// call threw.
    pub catch_exception: Function,
    /// Allocates a managed `String[]` of a given length.
    pub allocate_string_array: Function,
    /// Resolves an object array to its raw storage.
    pub object_array_data: Function,
    /// Resolves a byte array to its raw storage.
    pub byte_array_data: Function,
    /// Resolves a 16-bit integer array to its raw storage.
    pub short_array_data: Function,
    /// Resolves a character array to its raw storage.
    pub char_array_data: Function,
    /// Resolves a 32-bit integer array to its raw storage.
    pub int_array_data: Function,
    /// Resolves a 64-bit integer array to its raw storage.
    pub long_array_data: Function,
    /// Resolves a 32-bit float array to its raw storage.
    pub float_array_data: Function,
    /// Resolves a 64-bit float array to its raw storage.
    pub double_array_data: Function,
    /// Allocates a managed string of a given length.
    pub allocate_string: Function,
    /// Resolves a string object to its backing character array.
    pub string_data: Function,
    /// Resolves an array object to its length.
    pub array_length: Function,
}

/// The signature every data accessor was validated for: one 32-bit
/// argument (the object reference), one 32-bit result.
pub open spec fn accessor_wf(f: &Function, store_id: u64) -> bool {
    &&& f.spec_store_id() == store_id
    &&& f.spec_args() =~= seq![NativeType::I32]
    &&& f.spec_ret() == Some(NativeType::I32)
}

/// The signature the exception flag reader was validated for: no
/// arguments, one 32-bit result.
pub open spec fn catcher_wf(f: &Function, store_id: u64) -> bool {
    &&& f.spec_store_id() == store_id
    &&& f.spec_args() =~= Seq::<NativeType>::empty()
    &&& f.spec_ret() == Some(NativeType::I32)
}

impl TeaVM {
    /// Every accessor belongs to the store with this identity and carries
    /// its validated signature.
    pub open spec fn wf(&self, store_id: u64) -> bool {
        &&& catcher_wf(&self.catch_exception, store_id)
        &&& accessor_wf(&self.allocate_string_array, store_id)
        &&& accessor_wf(&self.object_array_data, store_id)
        &&& accessor_wf(&self.byte_array_data, store_id)
        &&& accessor_wf(&self.short_array_data, store_id)
        &&& accessor_wf(&self.char_array_data, store_id)
        &&& accessor_wf(&self.int_array_data, store_id)
        &&& accessor_wf(&self.long_array_data, store_id)
        &&& accessor_wf(&self.float_array_data, store_id)
        &&& accessor_wf(&self.double_array_data, store_id)
        &&& accessor_wf(&self.allocate_string, store_id)
        &&& accessor_wf(&self.string_data, store_id)
        &&& accessor_wf(&self.array_length, store_id)
    }
}

/// Decides on the managed runtime's exception flag: any nonzero flag means
/// the most recent managed call threw, which is fatal for the current
/// bridge operation.
pub fn check_exception(flag: i32) -> (r: Result<(), BridgeError>)
    ensures
        flag == 0 ==> r is Ok,
        flag != 0 ==> r == Result::<(), BridgeError>::Err(BridgeError::GuestException),
{
    if flag != 0 {
        Err(BridgeError::GuestException)
    } else {
        Ok(())
    }
}

/// The linear memory an outcome leaves behind.
pub open spec fn applied_memory(pre: Seq<u8>, outcome: &CallOutcome) -> Seq<u8> {
    match outcome.new_memory {
        Option::Some(m) => m@,
        Option::None => pre,
    }
}

/// Finishes one accessor call and the exception-flag call that must
/// immediately follow it, and decides the protocol: a failed guest call is
/// fatal before the flag is even read, a set flag is fatal, and only a
/// clean pair yields the accessor's result. The flag call happens only
/// when the accessor call itself succeeded, so `catch` is present exactly
/// then.
pub fn accessor_result<T>(
    f: &Function,
    catcher: &Function,
    store: &mut Store<T>,
    call: CallOutcome,
    catch: Option<CallOutcome>,
) -> (r: Result<i32, BridgeError>)
    requires
        f.spec_store_id() == old(store).spec_id(),
        f.spec_ret() == Some(NativeType::I32),
        catcher.spec_store_id() == old(store).spec_id(),
        catcher.spec_ret() == Some(NativeType::I32),
        call.result matches Result::Ok(s) ==> s@.len() == 1,
        catch matches Some(co) ==> (co.result matches Result::Ok(s) ==> s@.len() == 1),
        catch is Some <==> call.result is Ok,
    ensures
        final(store).same_but_memory(old(store)),
        ({
            let mem1 = applied_memory(old(store).spec_memory(), &call);
            match catch {
                Option::Some(co) => final(store).spec_memory() == applied_memory(mem1, &co),
                Option::None => final(store).spec_memory() == mem1,
            }
        }),
        match (call.result, catch) {
            (Result::Err(m), _) => r == Result::<i32, BridgeError>::Err(
                BridgeError::Call(spec_engine_error(m)),
            ),
            (Result::Ok(s), Some(co)) => match co.result {
                Result::Err(m) => r == Result::<i32, BridgeError>::Err(
                    BridgeError::Call(spec_engine_error(m)),
                ),
                Result::Ok(cs) => {
                    if ((cs@[0] as u32) as i32) != 0 {
                        r == Result::<i32, BridgeError>::Err(BridgeError::GuestException)
                    } else {
                        r == Result::<i32, BridgeError>::Ok((s@[0] as u32) as i32)
                    }
                },
            },
            (Result::Ok(_), None) => true,
        },
{
    let r1 = f.finish_call(store, call);
    match r1 {
        Result::Err(e) => Err(BridgeError::Call(e)),
        Result::Ok(v) => {
            match catch {
                Option::Some(co) => {
                    let r2 = catcher.finish_call(store, co);
                    match r2 {
                        Result::Err(e) => Err(BridgeError::Call(e)),
                        Result::Ok(flag_value) => {
                            let flag: i32 = match flag_value {
                                Some(crate::ty::WasmValue::I32(x)) => x,
                                _ => 0,
                            };
                            if flag != 0 {
                                Err(BridgeError::GuestException)
                            } else {
                                let result: i32 = match v {
                                    Some(crate::ty::WasmValue::I32(x)) => x,
                                    _ => 0,
                                };
                                Ok(result)
                            }
                        },
                    }
                },
                Option::None => Err(BridgeError::GuestException),
            }
        },
    }
}

/// Copies a managed string's UTF-16 code units out of the guest's linear
/// memory, at a resolved backing address and length, and decodes them
/// lossily into a host string. Succeeds exactly when the whole unit range
/// lies inside memory.
pub fn get_string(mem: &Vec<u8>, addr: usize, len: usize) -> (r: Result<String, BridgeError>)
    ensures
        len <= 0x7FFFFFFF && addr + 2 * len <= mem@.len() ==> (r matches Result::Ok(s) && s@
            == decode_utf16_lossy(units_at(mem@, addr as int, len as nat))),
        !(len <= 0x7FFFFFFF && addr + 2 * len <= mem@.len()) ==> r == Result::<
            String,
            BridgeError,
        >::Err(BridgeError::OutOfBounds),
{
    match read_u16s(mem, addr, len) {
        Some(units) => {
            proof {
                assert(units@ =~= units_at(mem@, addr as int, len as nat));
            }
            Ok(decode_units(&units))
        },
        None => Err(BridgeError::OutOfBounds),
    }
}

/// Like `get_string`, but hands the decoded string back as
/// null-terminated UTF-8 bytes for a C-style consumer. A decoded string
/// with an embedded null character cannot be represented that way and is
/// rejected.
pub fn get_cstring(mem: &Vec<u8>, addr: usize, len: usize) -> (r: Result<Vec<u8>, BridgeError>)
    ensures
        ({
            let decoded = decode_utf16_lossy(units_at(mem@, addr as int, len as nat));
            &&& (len <= 0x7FFFFFFF && addr + 2 * len <= mem@.len() && !spec_contains_nul(decoded))
                ==> (r matches Result::Ok(b) && b@ == encode_utf8(decoded) + seq![0u8])
            &&& (len <= 0x7FFFFFFF && addr + 2 * len <= mem@.len() && spec_contains_nul(decoded))
                ==> r == Result::<Vec<u8>, BridgeError>::Err(BridgeError::Nul)
            &&& !(len <= 0x7FFFFFFF && addr + 2 * len <= mem@.len()) ==> r == Result::<
                Vec<u8>,
                BridgeError,
            >::Err(BridgeError::OutOfBounds)
        }),
{
    match get_string(mem, addr, len) {
        Result::Err(e) => Err(e),
        Result::Ok(s) => {
            if contains_nul(s.as_str()) {
                Err(BridgeError::Nul)
            } else {
                let mut bytes = s.as_str().as_bytes_vec();
                bytes.push(0u8);
                proof {
                    assert(bytes@ =~= encode_utf8(s@) + seq![0u8]);
                }
                Ok(bytes)
            }
        },
    }
}

/// Materializes a host string's UTF-16 code units into the guest's linear
/// memory at a resolved backing address. Every byte of the write is
/// bounds-checked: a range that does not lie inside memory leaves memory
/// untouched.
pub fn write_string(mem: &mut Vec<u8>, addr: usize, s: &str) -> (r: Result<(), BridgeError>)
    ensures
        addr + 2 * encode_utf16(s@).len() <= old(mem)@.len() ==> r is Ok && final(mem)@ == overlay(
            old(mem)@,
            addr as int,
            utf16_le_bytes(encode_utf16(s@)),
        ),
        addr + 2 * encode_utf16(s@).len() > old(mem)@.len() ==> r == Result::<
            (),
            BridgeError,
        >::Err(BridgeError::OutOfBounds) && final(mem)@ == old(mem)@,
{
    let units = encode_units(s);
    let bytes = units_to_bytes(&units);
    proof {
        crate::memory::lemma_utf16_le_bytes_len(units@);
    }
    if write_region(mem, addr, &bytes) {
        Ok(())
    } else {
        Err(BridgeError::OutOfBounds)
    }
}

/// Flattens code units into their little-endian byte image.
fn units_to_bytes(units: &Vec<u16>) -> (r: Vec<u8>)
    ensures
        r@ == utf16_le_bytes(units@),
{
    let n = units.len();
    let mut out: Vec<u8> = Vec::new();
    let mut j: usize = 0;
    while j < n
        invariant
            n == units@.len(),
            0 <= j <= n,
            out@.len() == 2 * j,
            forall|k: int| 0 <= k < j ==> out@[2 * k] == crate::memory::le_bytes_u16(
                #[trigger] units@[k],
            )[0] && out@[2 * k + 1] == crate::memory::le_bytes_u16(units@[k])[1],
        decreases n - j,
    {
        let u = units[j];
        out.push((u & 0xFF) as u8);
        out.push((u >> 8) as u8);
        j = j + 1;
    }
    proof {
        crate::memory::lemma_utf16_le_bytes_len(units@);
        assert forall|k: int| 0 <= k < utf16_le_bytes(units@).len() implies out@[k]
            == utf16_le_bytes(units@)[k] by {
            crate::memory::lemma_utf16_le_bytes_index(units@, k / 2);
        }
        assert(out@ =~= utf16_le_bytes(units@));
    }
    out
}

/// Relies on `core::str::from_utf8`: `Some` exactly when the bytes are
/// valid UTF-8, and the returned string's byte content is the input,
/// unchanged.
#[verifier::external_body]
fn string_from_utf8(bytes: &Vec<u8>) -> (r: Option<String>)
    ensures
        r is Some <==> vstd::utf8::valid_utf8(bytes@),
        r matches Some(s) ==> encode_utf8(s@) == bytes@,
{
    match core::str::from_utf8(bytes.as_slice()) {
        Ok(s) => Some(s.to_string()),
        Err(_) => None,
    }
}

/// Copies a bounds-checked region of guest memory out as text for the
/// guest's console sink. The region must lie inside memory and hold valid
/// UTF-8; either failure is reported, never a partial read.
pub fn console_text(mem: &Vec<u8>, addr: usize, count: usize) -> (r: Result<String, BridgeError>)
    ensures
        ({
            let region = mem@.subrange(addr as int, addr + count);
            &&& addr + count > mem@.len() ==> r == Result::<String, BridgeError>::Err(
                BridgeError::OutOfBounds,
            )
            &&& addr + count <= mem@.len() && vstd::utf8::valid_utf8(region) ==> (
            r matches Result::Ok(s) && encode_utf8(s@) == region)
            &&& addr + count <= mem@.len() && !vstd::utf8::valid_utf8(region) ==> r == Result::<
                String,
                BridgeError,
            >::Err(BridgeError::InvalidUtf8)
        }),
{
    match crate::memory::read_region(mem, addr, count) {
        Some(bytes) => match string_from_utf8(&bytes) {
            Some(s) => Ok(s),
            None => Err(BridgeError::InvalidUtf8),
        },
        None => Err(BridgeError::OutOfBounds),
    }
}

/// One accessor call the argument-array builder asks its driver to make
/// into the managed runtime. Each is exception-checked individually.
#[derive(Copy, Clone, Debug, PartialEq, Eq, Structural)]
pub enum AccessorRequest {
    /// Allocate a managed `String[]` of this length.
    AllocateStringArray(i32),
    /// Allocate a managed string of this length.
    AllocateString(i32),
    /// Resolve this string object to its backing character array.
    StringData(i32),
    /// Resolve this object to its raw storage address.
    ObjectArrayData(i32),
}

/// Where the argument-array builder stands in its protocol.
#[derive(Copy, Clone, Debug, PartialEq, Eq, Structural)]
pub enum BuildState {
    /// The `String[]` itself has not been allocated yet.
    NeedArray,
    /// The current argument's managed string has not been allocated yet.
    NeedString,
    /// The current argument's string object awaits resolution to its
    /// backing data.
    NeedStringData {
        /// The managed string object for the current argument.
        java_arg: i32,
    },
    /// The backing data awaits resolution to a raw storage address.
    NeedAddress {
        /// The managed string object for the current argument.
        java_arg: i32,
        /// The string's backing data object.
        string_data: i32,
    },
    /// Every argument has been materialized.
    Done,
}

/// Builds the managed `String[]` handed to the guest program's entry
/// point, one chained, individually exception-checked accessor call at a
/// time: allocate the array, then per argument allocate a managed string,
/// resolve it to its backing data and raw address, copy the argument's
/// UTF-16 bytes in, and write the 32-bit object reference into the
/// array's raw storage. Every memory write is bounds-checked.
pub struct ArgsBuilder {
    args: Vec<String>,
    idx: usize,
    base: u32,
    state: BuildState,
}

impl ArgsBuilder {
    /// The arguments being materialized.
    pub closed spec fn spec_args(&self) -> Seq<Seq<char>> {
        self.args.deep_view()
    }

    /// How many arguments are fully materialized.
    pub closed spec fn spec_idx(&self) -> nat {
        self.idx as nat
    }

    /// The array's raw storage base address, once allocated.
    pub closed spec fn spec_base(&self) -> u32 {
        self.base
    }

    /// Where the builder stands.
    pub closed spec fn spec_state(&self) -> BuildState {
        self.state
    }

    /// The builder's own invariant: the argument count and every
    /// argument's byte length are small enough for the runtime's 32-bit
    /// interface, and the position always agrees with the state.
    pub closed spec fn wf(&self) -> bool {
        &&& self.args@.len() <= 0x7FFFFFFF
        &&& (forall|i: int| 0 <= i < self.args@.len() ==> encode_utf8(
            (#[trigger] self.args@[i])@,
        ).len() <= 0x3FFFFFFF)
        &&& self.idx <= self.args@.len()
        &&& match self.state {
            BuildState::NeedArray => self.idx == 0,
            BuildState::Done => self.idx == self.args@.len(),
            _ => self.idx < self.args@.len(),
        }
    }

    /// Starts a build. `None` exactly when the arguments cannot cross the
    /// runtime's 32-bit interface: too many of them, or one too long.
    pub fn new(args: Vec<String>) -> (r: Option<ArgsBuilder>)
        ensures
            (args@.len() <= 0x7FFFFFFF && (forall|i: int|
                0 <= i < args@.len() ==> encode_utf8((#[trigger] args@[i])@).len()
                    <= 0x3FFFFFFF)) <==> r is Some,
            r matches Some(b) ==> b.wf() && b.spec_args() == args.deep_view() && b.spec_state()
                == BuildState::NeedArray && b.spec_idx() == 0,
    {
        if args.len() > 0x7FFFFFFF {
            return None;
        }
        let n = args.len();
        let mut i: usize = 0;
        while i < n
            invariant
                n == args@.len(),
                0 <= i <= n,
                forall|j: int| 0 <= j < i ==> encode_utf8((#[trigger] args@[j])@).len()
                    <= 0x3FFFFFFF,
            decreases n - i,
        {
            let bytes = args[i].as_str().as_bytes_vec();
            if bytes.len() > 0x3FFFFFFF {
                return None;
            }
            i = i + 1;
        }
        Some(ArgsBuilder { args, idx: 0, base: 0, state: BuildState::NeedArray })
    }

    /// The accessor call to make next, or `None` when the array is fully
    /// built.
    pub fn next_request(&self) -> (r: Option<AccessorRequest>)
        requires
            self.wf(),
        ensures
            match self.spec_state() {
                BuildState::NeedArray => r == Some(
                    AccessorRequest::AllocateStringArray(self.spec_args().len() as i32),
                ),
                BuildState::NeedString => r == Some(
                    AccessorRequest::AllocateString(
                        encode_utf8(self.spec_args()[self.spec_idx() as int]).len() as i32,
                    ),
                ),
                BuildState::NeedStringData { java_arg } => r == Some(
                    AccessorRequest::StringData(java_arg),
                ),
                BuildState::NeedAddress { java_arg, string_data } => r == Some(
                    AccessorRequest::ObjectArrayData(string_data),
                ),
                BuildState::Done => r is None,
            },
    {
        match self.state {
            BuildState::NeedArray => Some(
                AccessorRequest::AllocateStringArray(self.args.len() as i32),
            ),
            BuildState::NeedString => Some(
                AccessorRequest::AllocateString(self.args[self.idx].as_str().len() as i32),
            ),
            BuildState::NeedStringData { java_arg } => Some(AccessorRequest::StringData(java_arg)),
            BuildState::NeedAddress { java_arg: _, string_data } => Some(
                AccessorRequest::ObjectArrayData(string_data),
            ),
            BuildState::Done => None,
        }
    }

    /// Feeds the checked result of the pending accessor call back in and
    /// advances the protocol. The raw-address answer triggers the two
    /// bounds-checked memory writes for the current argument: its UTF-16
    /// bytes at the resolved address, then its object reference into the
    /// array's raw storage slot. An out-of-range write leaves memory and
    /// the builder untouched and is fatal.
    pub fn provide(&mut self, value: i32, mem: &mut Vec<u8>) -> (r: Result<(), BridgeError>)
        requires
            old(self).wf(),
            old(self).spec_state() != BuildState::Done,
        ensures
            final(self).wf(),
            final(self).spec_args() == old(self).spec_args(),
            match old(self).spec_state() {
                BuildState::NeedArray => {
                    &&& r is Ok
                    &&& final(mem)@ == old(mem)@
                    &&& final(self).spec_base() == value as u32
                    &&& final(self).spec_idx() == 0
                    &&& final(self).spec_state() == (if old(self).spec_args().len() == 0 {
                        BuildState::Done
                    } else {
                        BuildState::NeedString
                    })
                },
                BuildState::NeedString => {
                    &&& r is Ok
                    &&& final(mem)@ == old(mem)@
                    &&& final(self).spec_base() == old(self).spec_base()
                    &&& final(self).spec_idx() == old(self).spec_idx()
                    &&& final(self).spec_state() == (BuildState::NeedStringData {
                        java_arg: value,
                    })
                },
                BuildState::NeedStringData { java_arg } => {
                    &&& r is Ok
                    &&& final(mem)@ == old(mem)@
                    &&& final(self).spec_base() == old(self).spec_base()
                    &&& final(self).spec_idx() == old(self).spec_idx()
                    &&& final(self).spec_state() == (BuildState::NeedAddress {
                        java_arg,
                        string_data: value,
                    })
                },
                BuildState::NeedAddress { java_arg, string_data } => {
                    let i = old(self).spec_idx() as int;
                    let arg = old(self).spec_args()[i];
                    let addr = (value as u32) as int;
                    let slot = (old(self).spec_base() as int) + 4 * i;
                    let fits = addr + 2 * encode_utf8(arg).len() <= old(mem)@.len() && (old(
                        self,
                    ).spec_base() as int) + 4 * old(self).spec_args().len() <= old(mem)@.len();
                    if fits {
                        &&& r is Ok
                        &&& final(mem)@ == overlay(
                            overlay(old(mem)@, addr, utf16_le_bytes(encode_utf16(arg))),
                            slot,
                            le_bytes_u32(java_arg as u32),
                        )
                        &&& final(self).spec_base() == old(self).spec_base()
                        &&& final(self).spec_idx() == old(self).spec_idx() + 1
                        &&& final(self).spec_state() == (if old(self).spec_idx() + 1 == old(
                            self,
                        ).spec_args().len() {
                            BuildState::Done
                        } else {
                            BuildState::NeedString
                        })
                    } else {
                        &&& r == Result::<(), BridgeError>::Err(BridgeError::OutOfBounds)
                        &&& final(mem)@ == old(mem)@
                        &&& *final(self) == *old(self)
                    }
                },
                BuildState::Done => true,
            },
    {
        match self.state {
            BuildState::NeedArray => {
                self.base = value as u32;
                self.state = if self.args.len() == 0 {
                    BuildState::Done
                } else {
                    BuildState::NeedString
                };
                Ok(())
            },
            BuildState::NeedString => {
                self.state = BuildState::NeedStringData { java_arg: value };
                Ok(())
            },
            BuildState::NeedStringData { java_arg } => {
                self.state = BuildState::NeedAddress { java_arg, string_data: value };
                Ok(())
            },
            BuildState::NeedAddress { java_arg, string_data: _ } => {
                let i = self.idx;
                let arg_bytes_len = self.args[i].as_str().len();
                let addr = (value as u32) as usize;
                let base = self.base as usize;
                let count = self.args.len();
                let m = mem.len();
                let fits_arg = addr as u64 <= m as u64 && 2 * (arg_bytes_len as u64) <= m as u64
                    - addr as u64;
                let fits_slots = base as u64 <= m as u64 && 4 * (count as u64) <= m as u64
                    - base as u64;
                if !(fits_arg && fits_slots) {
                    return Err(BridgeError::OutOfBounds);
                }
                let units = encode_units(self.args[i].as_str());
                let bytes = units_to_bytes(&units);
                proof {
                    crate::memory::lemma_utf16_le_bytes_len(units@);
                    crate::utf16::lemma_utf16_no_longer_than_utf8(self.args@[i as int]@);
                }
                let ok_string = write_region(mem, addr, &bytes);
                proof {
                    assert(ok_string);
                }
                let slot_addr = base + 4 * i;
                let slot_bytes = u32_to_le_bytes(java_arg as u32);
                let ok_slot = write_region(mem, slot_addr, &slot_bytes);
                proof {
                    assert(ok_slot);
                }
                self.idx = i + 1;
                self.state = if i + 1 == count {
                    BuildState::Done
                } else {
                    BuildState::NeedString
                };
                Ok(())
            },
            BuildState::Done => Ok(()),
        }
    }
}

/// One accessor call the string reader asks its driver to make into the
/// managed runtime. Each is exception-checked individually.
#[derive(Copy, Clone, Debug, PartialEq, Eq, Structural)]
pub enum StringReadRequest {
    /// Resolve this string object to its backing character array.
    StringData(i32),
    /// Resolve this array to its length.
    ArrayLength(i32),
    /// Resolve this character array to its raw storage address.
    CharArrayData(i32),
}

/// Where the string reader stands in its protocol.
#[derive(Copy, Clone, Debug, PartialEq, Eq, Structural)]
pub enum StringReadState {
    /// The string object has not been resolved yet.
    NeedData {
        /// The managed string object being read.
        string_obj: i32,
    },
    /// The backing array awaits its length.
    NeedLength {
        /// The string's backing character array.
        array: i32,
    },
    /// The backing array awaits its raw storage address.
    NeedAddress {
        /// The string's backing character array.
        array: i32,
        /// The array's length in code units.
        len: i32,
    },
    /// The address and length are resolved; the bytes can be copied out.
    Ready {
        /// The raw storage address of the code units.
        addr: i32,
        /// The array's length in code units.
        len: i32,
    },
}

/// Reads a managed string out to the host, one chained, individually
/// exception-checked accessor call at a time: resolve the string object to
/// its backing character array, the array to its length and to its raw
/// address, then copy the code units out and decode them. The copy uses
/// the address immediately, before any further call into guest code could
/// invalidate it.
pub struct StringReader {
    state: StringReadState,
}

impl StringReader {
    /// Where the reader stands.
    pub closed spec fn spec_state(&self) -> StringReadState {
        self.state
    }

    /// Starts reading the given managed string object.
    pub fn new(string_obj: i32) -> (r: StringReader)
        ensures
            r.spec_state() == (StringReadState::NeedData { string_obj }),
    {
        StringReader { state: StringReadState::NeedData { string_obj } }
    }

    /// The accessor call to make next, or `None` once the backing storage
    /// is resolved.
    pub fn next_request(&self) -> (r: Option<StringReadRequest>)
        ensures
            match self.spec_state() {
                StringReadState::NeedData { string_obj } => r == Some(
                    StringReadRequest::StringData(string_obj),
                ),
                StringReadState::NeedLength { array } => r == Some(
                    StringReadRequest::ArrayLength(array),
                ),
                StringReadState::NeedAddress { array, len } => r == Some(
                    StringReadRequest::CharArrayData(array),
                ),
                StringReadState::Ready { addr, len } => r is None,
            },
    {
        match self.state {
            StringReadState::NeedData { string_obj } => Some(
                StringReadRequest::StringData(string_obj),
            ),
            StringReadState::NeedLength { array } => Some(StringReadRequest::ArrayLength(array)),
            StringReadState::NeedAddress { array, len: _ } => Some(
                StringReadRequest::CharArrayData(array),
            ),
            StringReadState::Ready { addr: _, len: _ } => None,
        }
    }

    /// Feeds the checked result of the pending accessor call back in.
    pub fn provide(&mut self, value: i32)
        requires
            !(old(self).spec_state() matches StringReadState::Ready { .. }),
        ensures
            match old(self).spec_state() {
                StringReadState::NeedData { string_obj } => final(self).spec_state() == (
                StringReadState::NeedLength { array: value }),
                StringReadState::NeedLength { array } => final(self).spec_state() == (
                StringReadState::NeedAddress { array, len: value }),
                StringReadState::NeedAddress { array, len } => final(self).spec_state() == (
                StringReadState::Ready { addr: value, len }),
                StringReadState::Ready { .. } => true,
            },
    {
        self.state = match self.state {
            StringReadState::NeedData { string_obj: _ } => StringReadState::NeedLength {
                array: value,
            },
            StringReadState::NeedLength { array } => StringReadState::NeedAddress {
                array,
                len: value,
            },
            StringReadState::NeedAddress { array: _, len } => StringReadState::Ready {
                addr: value,
                len,
            },
            StringReadState::Ready { addr, len } => StringReadState::Ready { addr, len },
        };
    }

    /// Copies the resolved code units out of linear memory and decodes
    /// them, bounds-checked, exactly as `get_string` does.
    pub fn finish(&self, mem: &Vec<u8>) -> (r: Result<String, BridgeError>)
        requires
            self.spec_state() matches StringReadState::Ready { .. },
        ensures
            match self.spec_state() {
                StringReadState::Ready { addr, len } => {
                    let a = (addr as u32) as int;
                    let n = (len as u32) as nat;
                    &&& n <= 0x7FFFFFFF && a + 2 * n <= mem@.len() ==> (r matches Result::Ok(s)
                        && s@ == decode_utf16_lossy(units_at(mem@, a, n)))
                    &&& !(n <= 0x7FFFFFFF && a + 2 * n <= mem@.len()) ==> r == Result::<
                        String,
                        BridgeError,
                    >::Err(BridgeError::OutOfBounds)
                },
                _ => true,
            },
    {
        match self.state {
            StringReadState::Ready { addr, len } => {
                get_string(mem, (addr as u32) as usize, (len as u32) as usize)
            },
            _ => Err(BridgeError::OutOfBounds),
        }
    }
}

/// The little-endian byte image of a 32-bit value.
fn u32_to_le_bytes(x: u32) -> (r: Vec<u8>)
    ensures
        r@ == le_bytes_u32(x),
{
    let mut out: Vec<u8> = Vec::new();
    out.push((x & 0xFF) as u8);
    out.push(((x >> 8) & 0xFF) as u8);
    out.push(((x >> 16) & 0xFF) as u8);
    out.push((x >> 24) as u8);
    proof {
        assert(out@ =~= le_bytes_u32(x));
    }
    out
}

/// Writing a host string into a region of the guest's memory and reading
/// it back through the string-decode path gives the string back exactly,
/// for every string and every in-bounds region: surrogate pairs included.
pub proof fn lemma_string_round_trip_in_memory(mem: Seq<u8>, addr: int, s: Seq<char>)
    requires
        0 <= addr,
        addr + 2 * encode_utf16(s).len() <= mem.len(),
    ensures
        decode_utf16_lossy(
            units_at(
                overlay(mem, addr, utf16_le_bytes(encode_utf16(s))),
                addr,
                encode_utf16(s).len(),
            ),
        ) == s,
{
    crate::memory::lemma_units_at_overlay(mem, addr, encode_utf16(s));
    crate::utf16::lemma_utf16_round_trip(s);
}

} // verus!
