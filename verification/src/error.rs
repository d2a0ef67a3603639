//! Error taxonomy of the embedding layer.
//!
//! The engine reports failures as diagnostic message strings; a fixed set of
//! those messages are the guest traps. `Trap` enumerates them, `Wasm3Error`
//! carries an arbitrary engine message, and `Error` is the full taxonomy
//! surfaced to callers of the embedding layer.

use vstd::prelude::*;
use vstd::string::StrSliceExecFns;

verus! {

/// A guest trap: an engine-raised fault that terminates the current guest
/// call. The store itself stays valid afterwards.
#[derive(Copy, Clone, Debug, PartialEq, Eq, Structural)]
pub enum Trap {
    /// Out of bounds memory access.
    OutOfBoundsMemoryAccess,
    /// Division by zero.
    DivisionByZero,
    /// Integer overflow.
    IntegerOverflow,
    /// Integer conversion.
    IntegerConversion,
    /// Indirect call type mismatch.
    IndirectCallTypeMismatch,
    /// Table index out of range.
    TableIndexOutOfRange,
    /// Exit.
    Exit,
    /// Abort.
    Abort,
    /// Unreachable.
    Unreachable,
    /// Stack overflow.
    StackOverflow,
}

/// The diagnostic message the engine uses for each trap.
pub open spec fn trap_message(t: Trap) -> Seq<char> {
    match t {
        Trap::OutOfBoundsMemoryAccess => "[trap] out of bounds memory access"@,
        Trap::DivisionByZero => "[trap] integer divide by zero"@,
        Trap::IntegerOverflow => "[trap] integer overflow"@,
        Trap::IntegerConversion => "[trap] invalid conversion to integer"@,
        Trap::IndirectCallTypeMismatch => "[trap] indirect call type mismatch"@,
        Trap::TableIndexOutOfRange => "[trap] undefined element"@,
        Trap::Exit => "[trap] program called exit"@,
        Trap::Abort => "[trap] program called abort"@,
        Trap::Unreachable => "[trap] unreachable executed"@,
        Trap::StackOverflow => "[trap] stack overflow"@,
    }
}

impl Trap {
    /// The trap's diagnostic message.
    pub fn as_str(&self) -> (r: &'static str)
        ensures
            r@ == trap_message(*self),
    {
        match self {
            Trap::OutOfBoundsMemoryAccess => "[trap] out of bounds memory access",
            Trap::DivisionByZero => "[trap] integer divide by zero",
            Trap::IntegerOverflow => "[trap] integer overflow",
            Trap::IntegerConversion => "[trap] invalid conversion to integer",
            Trap::IndirectCallTypeMismatch => "[trap] indirect call type mismatch",
            Trap::TableIndexOutOfRange => "[trap] undefined element",
            Trap::Exit => "[trap] program called exit",
            Trap::Abort => "[trap] program called abort",
            Trap::Unreachable => "[trap] unreachable executed",
            Trap::StackOverflow => "[trap] stack overflow",
        }
    }
}

/// The engine's diagnostic message for a failed function lookup.
pub open spec fn lookup_failed_message() -> Seq<char> {
    "function lookup failed"@
}

/// The engine's diagnostic message for an allocation failure.
pub open spec fn malloc_failed_message() -> Seq<char> {
    "memory allocation failed"@
}

/// True when the character sequence contains an embedded null character.
pub open spec fn spec_contains_nul(s: Seq<char>) -> bool {
    exists|i: int| 0 <= i < s.len() && (#[trigger] s[i]) as u32 == 0
}

/// Checks a name for an embedded null character; the engine takes
/// null-terminated strings, so such a name can never be handed to it.
pub fn contains_nul(s: &str) -> (r: bool)
    ensures
        r == spec_contains_nul(s@),
{
    let n = s.unicode_len();
    let mut i: usize = 0;
    while i < n
        invariant
            n == s@.len(),
            0 <= i <= n,
            forall|j: int| 0 <= j < i ==> (#[trigger] s@[j]) as u32 != 0,
        decreases n - i,
    {
        let c = s.get_char(i);
        if c as u32 == 0 {
            return true;
        }
        i = i + 1;
    }
    false
}

/// Compares two string slices by contents.
pub fn str_eq(a: &str, b: &str) -> (r: bool)
    ensures
        r == (a@ == b@),
{
    let sa: String = a.to_owned();
    let sb: String = b.to_owned();
    sa == sb
}

/// An error reported by the engine itself, as its diagnostic message.
/// It may or may not be one of the guest traps.
#[derive(Debug, PartialEq, Eq)]
pub struct Wasm3Error {
    /// The engine's diagnostic message.
    pub message: String,
}

impl Wasm3Error {
    /// True when this engine error is the given trap.
    pub fn eq_trap(&self, trap: Trap) -> (r: bool)
        ensures
            r == (self.message@ == trap_message(trap)),
    {
        str_eq(self.message.as_str(), trap.as_str())
    }

    /// The error message.
    pub fn as_str(&self) -> (r: &str)
        ensures
            r@ == self.message@,
    {
        self.message.as_str()
    }
}

/// An error surfaced by the embedding layer.
#[derive(Debug, PartialEq, Eq)]
pub enum Error {
    /// An error originating from the engine; may or may not be a trap.
    Wasm3(Wasm3Error),
    /// A function has been found but its signature did not match.
    InvalidFunctionSignature,
    /// The specified function could not be found.
    FunctionNotFound,
    /// The specified module could not be found.
    ModuleNotFound,
    /// The module's environment did not match the store's environment.
    ModuleLoadEnvMismatch,
    /// A handle was used with a store other than the one it was created with.
    StoreMismatch,
    /// A null byte was found inside a string.
    Nul,
}

/// The `Error` a raw engine diagnostic message maps to: the lookup-failure
/// message becomes `FunctionNotFound`, and any other message is carried as
/// an engine error.
pub open spec fn spec_engine_error(message: String) -> Error {
    if message@ == lookup_failed_message() {
        Error::FunctionNotFound
    } else {
        Error::Wasm3(Wasm3Error { message })
    }
}

/// The `Error` that a raw engine result maps to: no message is success, and
/// a message maps through `spec_engine_error`.
pub open spec fn spec_from_engine(message: Option<String>) -> Result<(), Error> {
    match message {
        Option::None => Result::Ok(()),
        Option::Some(m) => Result::Err(spec_engine_error(m)),
    }
}

impl Error {
    /// Maps an engine diagnostic message to the error it stands for.
    pub fn engine_error(message: String) -> (r: Error)
        ensures
            r == spec_engine_error(message),
    {
        if str_eq(message.as_str(), "function lookup failed") {
            Error::FunctionNotFound
        } else {
            Error::Wasm3(Wasm3Error { message })
        }
    }

    /// Classifies a raw engine result: `None` is success, the engine's
    /// lookup-failure message becomes `FunctionNotFound`, and any other
    /// message is carried through as an engine error.
    pub fn from_engine(message: Option<String>) -> (r: Result<(), Error>)
        ensures
            r == spec_from_engine(message),
    {
        match message {
            Option::None => Result::Ok(()),
            Option::Some(m) => Result::Err(Error::engine_error(m)),
        }
    }

    /// The error that stands for an allocation failure in the engine.
    pub fn malloc_error() -> (r: Error)
        ensures
            r matches Error::Wasm3(w) && w.message@ == malloc_failed_message(),
    {
        Error::Wasm3(Wasm3Error { message: "memory allocation failed".to_owned() })
    }
}

} // verus!
