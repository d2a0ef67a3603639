//! The value-marshalling protocol: native primitive kinds, their tags in the
//! guest's type system, their single-character signature codes, and the
//! encoding of values to and from the raw stack slots used by the engine's
//! calling convention.
//!
//! Every primitive occupies exactly one 64-bit stack slot. 32-bit values use
//! the low half of a slot. Floating-point values are carried as their raw bit
//! patterns (`F32`/`F64` hold `u32`/`u64` bits), so marshalling preserves
//! them bit for bit and never converts.

use vstd::prelude::*;

verus! {

/// A type tag in the guest's type system.
#[derive(Copy, Clone, Debug, PartialEq, Eq, Structural)]
pub enum ValueType {
    /// 32-bit integer.
    I32,
    /// 64-bit integer.
    I64,
    /// 32-bit float.
    F32,
    /// 64-bit float.
    F64,
}

/// A native primitive kind that can cross the host/guest boundary.
/// Several native kinds share one guest tag (`tag_of`).
#[derive(Copy, Clone, Debug, PartialEq, Eq, Structural)]
pub enum NativeType {
    /// Signed 32-bit integer.
    I32,
    /// Unsigned 32-bit integer.
    U32,
    /// Boolean, carried as a 32-bit integer.
    Bool,
    /// Signed 64-bit integer.
    I64,
    /// Unsigned 64-bit integer.
    U64,
    /// 32-bit float, carried as its bit pattern.
    F32,
    /// 64-bit float, carried as its bit pattern.
    F64,
}

/// The guest type tag of a native primitive kind.
pub open spec fn spec_tag_of(t: NativeType) -> ValueType {
    match t {
        NativeType::I32 => ValueType::I32,
        NativeType::U32 => ValueType::I32,
        NativeType::Bool => ValueType::I32,
        NativeType::I64 => ValueType::I64,
        NativeType::U64 => ValueType::I64,
        NativeType::F32 => ValueType::F32,
        NativeType::F64 => ValueType::F64,
    }
}

/// The guest type tag of a native primitive kind.
pub fn tag_of(t: NativeType) -> (r: ValueType)
    ensures
        r == spec_tag_of(t),
{
    match t {
        NativeType::I32 => ValueType::I32,
        NativeType::U32 => ValueType::I32,
        NativeType::Bool => ValueType::I32,
        NativeType::I64 => ValueType::I64,
        NativeType::U64 => ValueType::I64,
        NativeType::F32 => ValueType::F32,
        NativeType::F64 => ValueType::F64,
    }
}

/// Signature code of the 32-bit integer tag: the byte `'i'`.
pub const SIG_I32: u8 = 105;

/// Signature code of the 64-bit integer tag: the byte `'I'`.
pub const SIG_I64: u8 = 73;

/// Signature code of the 32-bit float tag: the byte `'f'`.
pub const SIG_F32: u8 = 102;

/// Signature code of the 64-bit float tag: the byte `'F'`.
pub const SIG_F64: u8 = 70;

/// Signature code of an empty (unit) return: the byte `'v'`.
pub const SIG_VOID: u8 = 118;

/// The single-character signature code of a native primitive kind.
pub open spec fn spec_signature_char(t: NativeType) -> u8 {
    match spec_tag_of(t) {
        ValueType::I32 => SIG_I32,
        ValueType::I64 => SIG_I64,
        ValueType::F32 => SIG_F32,
        ValueType::F64 => SIG_F64,
    }
}

/// The single-character signature code of a native primitive kind.
pub fn signature_char(t: NativeType) -> (r: u8)
    ensures
        r == spec_signature_char(t),
{
    match tag_of(t) {
        ValueType::I32 => SIG_I32,
        ValueType::I64 => SIG_I64,
        ValueType::F32 => SIG_F32,
        ValueType::F64 => SIG_F64,
    }
}

/// A marshalled native value. Float kinds carry raw bit patterns.
#[derive(Copy, Clone, Debug, PartialEq, Eq, Structural)]
pub enum WasmValue {
    /// Signed 32-bit integer.
    I32(i32),
    /// Unsigned 32-bit integer.
    U32(u32),
    /// Boolean.
    Bool(bool),
    /// Signed 64-bit integer.
    I64(i64),
    /// Unsigned 64-bit integer.
    U64(u64),
    /// The bit pattern of a 32-bit float.
    F32(u32),
    /// The bit pattern of a 64-bit float.
    F64(u64),
}

/// The native kind of a marshalled value.
pub open spec fn spec_native_type_of(v: WasmValue) -> NativeType {
    match v {
        WasmValue::I32(_) => NativeType::I32,
        WasmValue::U32(_) => NativeType::U32,
        WasmValue::Bool(_) => NativeType::Bool,
        WasmValue::I64(_) => NativeType::I64,
        WasmValue::U64(_) => NativeType::U64,
        WasmValue::F32(_) => NativeType::F32,
        WasmValue::F64(_) => NativeType::F64,
    }
}

/// The native kind of a marshalled value.
pub fn native_type_of(v: &WasmValue) -> (r: NativeType)
    ensures
        r == spec_native_type_of(*v),
{
    match v {
        WasmValue::I32(_) => NativeType::I32,
        WasmValue::U32(_) => NativeType::U32,
        WasmValue::Bool(_) => NativeType::Bool,
        WasmValue::I64(_) => NativeType::I64,
        WasmValue::U64(_) => NativeType::U64,
        WasmValue::F32(_) => NativeType::F32,
        WasmValue::F64(_) => NativeType::F64,
    }
}

/// The stack-slot encoding of a value: 32-bit kinds occupy the low half of
/// the slot, 64-bit kinds the whole slot, booleans encode as 0 or 1, and
/// float bit patterns are stored unchanged.
pub open spec fn spec_slot_of(v: WasmValue) -> u64 {
    match v {
        WasmValue::I32(x) => (x as u32) as u64,
        WasmValue::U32(x) => x as u64,
        WasmValue::Bool(b) => if b {
            1u64
        } else {
            0u64
        },
        WasmValue::I64(x) => x as u64,
        WasmValue::U64(x) => x,
        WasmValue::F32(bits) => bits as u64,
        WasmValue::F64(bits) => bits,
    }
}

/// The value a stack slot decodes to, at a given native kind. Booleans
/// decode as "low 32 bits nonzero".
pub open spec fn spec_value_of(slot: u64, t: NativeType) -> WasmValue {
    match t {
        NativeType::I32 => WasmValue::I32((slot as u32) as i32),
        NativeType::U32 => WasmValue::U32(slot as u32),
        NativeType::Bool => WasmValue::Bool(((slot as u32) as i32) != 0),
        NativeType::I64 => WasmValue::I64(slot as i64),
        NativeType::U64 => WasmValue::U64(slot),
        NativeType::F32 => WasmValue::F32(slot as u32),
        NativeType::F64 => WasmValue::F64(slot),
    }
}

/// Encodes one value into a stack slot.
pub fn write_slot(v: &WasmValue, slot: &mut u64)
    ensures
        *final(slot) == spec_slot_of(*v),
{
    match v {
        WasmValue::I32(x) => {
            *slot = (*x as u32) as u64;
        },
        WasmValue::U32(x) => {
            *slot = *x as u64;
        },
        WasmValue::Bool(b) => {
            *slot = if *b {
                1u64
            } else {
                0u64
            };
        },
        WasmValue::I64(x) => {
            *slot = *x as u64;
        },
        WasmValue::U64(x) => {
            *slot = *x;
        },
        WasmValue::F32(bits) => {
            *slot = *bits as u64;
        },
        WasmValue::F64(bits) => {
            *slot = *bits;
        },
    }
}

/// Decodes one stack slot at a given native kind.
pub fn read_slot(slot: u64, t: NativeType) -> (r: WasmValue)
    ensures
        r == spec_value_of(slot, t),
{
    match t {
        NativeType::I32 => WasmValue::I32((slot as u32) as i32),
        NativeType::U32 => WasmValue::U32(slot as u32),
        NativeType::Bool => WasmValue::Bool(((slot as u32) as i32) != 0),
        NativeType::I64 => WasmValue::I64(slot as i64),
        NativeType::U64 => WasmValue::U64(slot),
        NativeType::F32 => WasmValue::F32(slot as u32),
        NativeType::F64 => WasmValue::F64(slot),
    }
}

/// Encoding a value to its stack slot and decoding at the value's own kind
/// gives the value back, for every supported primitive kind — including the
/// float kinds, whose bit patterns round-trip unchanged.
pub proof fn lemma_slot_round_trip(v: WasmValue)
    ensures
        spec_value_of(spec_slot_of(v), spec_native_type_of(v)) == v,
{
    match v {
        WasmValue::I32(x) => {
            assert((((x as u32) as u64) as u32) as i32 == x) by (bit_vector);
        },
        WasmValue::U32(x) => {
            assert(((x as u64) as u32) == x) by (bit_vector);
        },
        WasmValue::Bool(b) => {
        },
        WasmValue::I64(x) => {
            assert(((x as u64) as i64) == x) by (bit_vector);
        },
        WasmValue::U64(x) => {
        },
        WasmValue::F32(bits) => {
            assert(((bits as u64) as u32) == bits) by (bit_vector);
        },
        WasmValue::F64(bits) => {
        },
    }
}

/// The bit pattern of a 32-bit float, standing in for the float itself so
/// that marshalling stays exact: the engine's calling convention
/// reinterprets float bits, it never converts them.
#[derive(Copy, Clone, Debug, PartialEq, Eq, Structural)]
pub struct F32Bits {
    /// The raw bits.
    pub bits: u32,
}

/// The bit pattern of a 64-bit float, standing in for the float itself.
#[derive(Copy, Clone, Debug, PartialEq, Eq, Structural)]
pub struct F64Bits {
    /// The raw bits.
    pub bits: u64,
}

/// A native type that can be passed to and from the guest. Each
/// implementation fixes the type's native kind, its marshalled form, and
/// its single-slot stack encoding.
pub trait WasmType: Sized {
    /// The native kind of this type.
    spec fn spec_native_type() -> NativeType;

    /// The marshalled form of a value of this type.
    spec fn as_value(self) -> WasmValue;

    /// The value of this type a marshalled value of the right kind stands
    /// for.
    spec fn spec_from_value(v: WasmValue) -> Self;

    /// A value of this type always marshals at this type's own kind.
    proof fn as_value_wf(self)
        ensures
            spec_native_type_of(self.as_value()) == Self::spec_native_type(),
    ;

    /// Reading back the marshalled form of a value gives the value.
    proof fn from_value_inverse(self)
        ensures
            Self::spec_from_value(self.as_value()) == self,
    ;

    /// The native kind of this type.
    fn native_type() -> (t: NativeType)
        ensures
            t == Self::spec_native_type(),
    ;

    /// Writes this value into one stack slot.
    fn push_on_stack(self, slot: &mut u64)
        ensures
            *final(slot) == spec_slot_of(self.as_value()),
    ;

    /// Reads a value of this type out of one stack slot.
    fn pop_from_stack(slot: &u64) -> (r: Self)
        ensures
            r == Self::spec_from_value(spec_value_of(*slot, Self::spec_native_type())),
    ;
}

/// A native type that can be passed to the guest as an argument.
pub trait WasmArg: WasmType {
}

/// Encoding a value of any marshalled type to its stack slot and decoding
/// the slot back at the type's own kind yields the original value — for the
/// float kinds this preserves the bit pattern exactly, so a float NaN
/// payload round-trips unchanged.
pub proof fn lemma_marshal_round_trip<T: WasmType>(x: T)
    ensures
        T::spec_from_value(spec_value_of(spec_slot_of(x.as_value()), T::spec_native_type())) == x,
{
    x.as_value_wf();
    lemma_slot_round_trip(x.as_value());
    x.from_value_inverse();
}

impl WasmType for i32 {
    open spec fn spec_native_type() -> NativeType {
        NativeType::I32
    }

    open spec fn as_value(self) -> WasmValue {
        WasmValue::I32(self)
    }

    open spec fn spec_from_value(v: WasmValue) -> Self {
        match v {
            WasmValue::I32(x) => x,
            _ => arbitrary(),
        }
    }

    proof fn as_value_wf(self) {
    }

    proof fn from_value_inverse(self) {
    }

    fn native_type() -> NativeType {
        NativeType::I32
    }

    fn push_on_stack(self, slot: &mut u64) {
        *slot = (self as u32) as u64;
    }

    fn pop_from_stack(slot: &u64) -> Self {
        (*slot as u32) as i32
    }
}

impl WasmArg for i32 {
}

impl WasmType for u32 {
    open spec fn spec_native_type() -> NativeType {
        NativeType::U32
    }

    open spec fn as_value(self) -> WasmValue {
        WasmValue::U32(self)
    }

    open spec fn spec_from_value(v: WasmValue) -> Self {
        match v {
            WasmValue::U32(x) => x,
            _ => arbitrary(),
        }
    }

    proof fn as_value_wf(self) {
    }

    proof fn from_value_inverse(self) {
    }

    fn native_type() -> NativeType {
        NativeType::U32
    }

    fn push_on_stack(self, slot: &mut u64) {
        *slot = self as u64;
    }

    fn pop_from_stack(slot: &u64) -> Self {
        *slot as u32
    }
}

impl WasmArg for u32 {
}

impl WasmType for bool {
    open spec fn spec_native_type() -> NativeType {
        NativeType::Bool
    }

    open spec fn as_value(self) -> WasmValue {
        WasmValue::Bool(self)
    }

    open spec fn spec_from_value(v: WasmValue) -> Self {
        match v {
            WasmValue::Bool(b) => b,
            _ => arbitrary(),
        }
    }

    proof fn as_value_wf(self) {
    }

    proof fn from_value_inverse(self) {
    }

    fn native_type() -> NativeType {
        NativeType::Bool
    }

    fn push_on_stack(self, slot: &mut u64) {
        *slot = if self {
            1u64
        } else {
            0u64
        };
    }

    fn pop_from_stack(slot: &u64) -> Self {
        ((*slot as u32) as i32) != 0
    }
}

impl WasmArg for bool {
}

impl WasmType for i64 {
    open spec fn spec_native_type() -> NativeType {
        NativeType::I64
    }

    open spec fn as_value(self) -> WasmValue {
        WasmValue::I64(self)
    }

    open spec fn spec_from_value(v: WasmValue) -> Self {
        match v {
            WasmValue::I64(x) => x,
            _ => arbitrary(),
        }
    }

    proof fn as_value_wf(self) {
    }

    proof fn from_value_inverse(self) {
    }

    fn native_type() -> NativeType {
        NativeType::I64
    }

    fn push_on_stack(self, slot: &mut u64) {
        *slot = self as u64;
    }

    fn pop_from_stack(slot: &u64) -> Self {
        *slot as i64
    }
}

impl WasmArg for i64 {
}

impl WasmType for u64 {
    open spec fn spec_native_type() -> NativeType {
        NativeType::U64
    }

    open spec fn as_value(self) -> WasmValue {
        WasmValue::U64(self)
    }

    open spec fn spec_from_value(v: WasmValue) -> Self {
        match v {
            WasmValue::U64(x) => x,
            _ => arbitrary(),
        }
    }

    proof fn as_value_wf(self) {
    }

    proof fn from_value_inverse(self) {
    }

    fn native_type() -> NativeType {
        NativeType::U64
    }

    fn push_on_stack(self, slot: &mut u64) {
        *slot = self;
    }

    fn pop_from_stack(slot: &u64) -> Self {
        *slot
    }
}

impl WasmArg for u64 {
}

impl WasmType for F32Bits {
    open spec fn spec_native_type() -> NativeType {
        NativeType::F32
    }

    open spec fn as_value(self) -> WasmValue {
        WasmValue::F32(self.bits)
    }

    open spec fn spec_from_value(v: WasmValue) -> Self {
        match v {
            WasmValue::F32(bits) => F32Bits { bits },
            _ => arbitrary(),
        }
    }

    proof fn as_value_wf(self) {
    }

    proof fn from_value_inverse(self) {
    }

    fn native_type() -> NativeType {
        NativeType::F32
    }

    fn push_on_stack(self, slot: &mut u64) {
        *slot = self.bits as u64;
    }

    fn pop_from_stack(slot: &u64) -> Self {
        F32Bits { bits: *slot as u32 }
    }
}

impl WasmArg for F32Bits {
}

impl WasmType for F64Bits {
    open spec fn spec_native_type() -> NativeType {
        NativeType::F64
    }

    open spec fn as_value(self) -> WasmValue {
        WasmValue::F64(self.bits)
    }

    open spec fn spec_from_value(v: WasmValue) -> Self {
        match v {
            WasmValue::F64(bits) => F64Bits { bits },
            _ => arbitrary(),
        }
    }

    proof fn as_value_wf(self) {
    }

    proof fn from_value_inverse(self) {
    }

    fn native_type() -> NativeType {
        NativeType::F64
    }

    fn push_on_stack(self, slot: &mut u64) {
        *slot = self.bits;
    }

    fn pop_from_stack(slot: &u64) -> Self {
        F64Bits { bits: *slot }
    }
}

impl WasmArg for F64Bits {
}

/// True when a guest parameter type sequence matches a native argument kind
/// sequence positionally: same length, and each guest tag equals the tag of
/// the native kind at the same position.
pub open spec fn types_match(declared: Seq<ValueType>, native: Seq<NativeType>) -> bool {
    &&& declared.len() == native.len()
    &&& forall|i: int| 0 <= i < native.len() ==> declared[i] == spec_tag_of(#[trigger] native[i])
}

/// Validates a guest function's declared parameter types against a native
/// argument kind sequence: accepts exactly the positional matches.
pub fn validate_types(declared: &Vec<ValueType>, native: &Vec<NativeType>) -> (r: bool)
    ensures
        r == types_match(declared@, native@),
{
    if declared.len() != native.len() {
        return false;
    }
    let n = native.len();
    let mut i: usize = 0;
    while i < n
        invariant
            n == native@.len() == declared@.len(),
            0 <= i <= n,
            forall|j: int| 0 <= j < i ==> declared@[j] == spec_tag_of(#[trigger] native@[j]),
        decreases n - i,
    {
        if tag_of(native[i]) != declared[i] {
            return false;
        }
        i = i + 1;
    }
    true
}

/// True when a guest function's declared return types match a native return
/// kind: no returns only for unit, exactly one matching return otherwise.
/// More than one declared return never matches.
pub open spec fn ret_matches(declared: Seq<ValueType>, native: Option<NativeType>) -> bool {
    match native {
        Option::None => declared.len() == 0,
        Option::Some(t) => declared.len() == 1 && declared[0] == spec_tag_of(t),
    }
}

/// Validates a guest function's declared return types against the native
/// return kind (`None` stands for unit): accepts exactly the matches of
/// `ret_matches`.
pub fn validate_ret(declared: &Vec<ValueType>, native: Option<NativeType>) -> (r: bool)
    ensures
        r == ret_matches(declared@, native@),
{
    match native {
        Option::None => declared.len() == 0,
        Option::Some(t) => declared.len() == 1 && declared[0] == tag_of(t),
    }
}

/// The number of stack slots a return kind occupies: none for unit, one
/// otherwise.
pub open spec fn spec_ret_slot_count(ret: Option<NativeType>) -> nat {
    match ret {
        Option::None => 0,
        Option::Some(_) => 1,
    }
}

/// The number of stack slots a return kind occupies.
pub fn ret_slot_count(ret: Option<NativeType>) -> (n: usize)
    ensures
        n == spec_ret_slot_count(ret),
{
    match ret {
        Option::None => 0,
        Option::Some(_) => 1,
    }
}

/// The textual type signature of a function shape: the return code, the
/// argument codes in declaration order between parentheses, and a
/// terminating null byte.
pub open spec fn spec_function_signature(args: Seq<NativeType>, ret: Option<NativeType>) -> Seq<
    u8,
> {
    seq![spec_ret_char(ret), 40u8] + Seq::new(args.len(), |i: int| spec_signature_char(args[i]))
        + seq![41u8, 0u8]
}

/// The signature code of a return kind: a primitive's code, or the unit code.
pub open spec fn spec_ret_char(ret: Option<NativeType>) -> u8 {
    match ret {
        Option::None => SIG_VOID,
        Option::Some(t) => spec_signature_char(t),
    }
}

/// Builds the null-terminated textual type signature handed to the engine
/// when a host function is linked, such as `F(if)` for a function taking a
/// 32-bit integer and a 32-bit float and returning a 64-bit float.
pub fn function_signature(args: &Vec<NativeType>, ret: Option<NativeType>) -> (r: Vec<u8>)
    ensures
        r@ == spec_function_signature(args@, ret),
{
    let mut out: Vec<u8> = Vec::new();
    match ret {
        Option::None => out.push(SIG_VOID),
        Option::Some(t) => out.push(signature_char(t)),
    }
    out.push(40u8);
    let n = args.len();
    let mut i: usize = 0;
    while i < n
        invariant
            n == args@.len(),
            0 <= i <= n,
            out@.len() == 2 + i,
            out@[0] == spec_ret_char(ret),
            out@[1] == 40u8,
            forall|j: int| 0 <= j < i ==> out@[2 + j] == spec_signature_char(#[trigger] args@[j]),
        decreases n - i,
    {
        out.push(signature_char(args[i]));
        i = i + 1;
    }
    out.push(41u8);
    out.push(0u8);
    proof {
        assert(out@ =~= spec_function_signature(args@, ret));
    }
    out
}

/// True when each value's native kind matches the kind sequence positionally.
pub open spec fn values_match(values: Seq<WasmValue>, types: Seq<NativeType>) -> bool {
    &&& values.len() == types.len()
    &&& forall|i: int| 0 <= i < values.len() ==> spec_native_type_of(#[trigger] values[i])
        == types[i]
}

/// Checks that each value's native kind matches the kind sequence
/// positionally; callers use this before handing values to a typed call.
pub fn check_values(values: &Vec<WasmValue>, types: &Vec<NativeType>) -> (r: bool)
    ensures
        r == values_match(values@, types@),
{
    if values.len() != types.len() {
        return false;
    }
    let n = values.len();
    let mut i: usize = 0;
    while i < n
        invariant
            n == values@.len() == types@.len(),
            0 <= i <= n,
            forall|j: int| 0 <= j < i ==> spec_native_type_of(#[trigger] values@[j]) == types@[j],
        decreases n - i,
    {
        if native_type_of(&values[i]) != types[i] {
            return false;
        }
        i = i + 1;
    }
    true
}

/// Encodes a value sequence into consecutive stack slots, one slot per
/// value, in declaration order. This is how a multi-argument call is laid
/// out without a variadic calling convention.
pub fn encode_values(values: &Vec<WasmValue>) -> (slots: Vec<u64>)
    ensures
        slots@.len() == values@.len(),
        forall|i: int| 0 <= i < values@.len() ==> slots@[i] == spec_slot_of(#[trigger] values@[i]),
{
    let n = values.len();
    let mut slots: Vec<u64> = Vec::new();
    let mut i: usize = 0;
    while i < n
        invariant
            n == values@.len(),
            0 <= i <= n,
            slots@.len() == i,
            forall|j: int| 0 <= j < i ==> slots@[j] == spec_slot_of(#[trigger] values@[j]),
        decreases n - i,
    {
        let mut slot: u64 = 0;
        write_slot(&values[i], &mut slot);
        slots.push(slot);
        i = i + 1;
    }
    slots
}

/// Decodes consecutive stack slots, starting at `offset`, at the given
/// native kinds. The offset lets a host function skip the slots reserved
/// for its return value.
pub fn decode_values(slots: &Vec<u64>, types: &Vec<NativeType>, offset: usize) -> (r: Vec<
    WasmValue,
>)
    requires
        offset + types@.len() <= slots@.len(),
    ensures
        r@.len() == types@.len(),
        forall|i: int| 0 <= i < types@.len() ==> r@[i] == spec_value_of(
            slots@[offset + i],
            #[trigger] types@[i],
        ),
{
    let n = types.len();
    let total = slots.len();
    let mut out: Vec<WasmValue> = Vec::new();
    let mut i: usize = 0;
    while i < n
        invariant
            n == types@.len(),
            total == slots@.len(),
            offset + n <= total,
            0 <= i <= n,
            out@.len() == i,
            forall|j: int| 0 <= j < i ==> out@[j] == spec_value_of(
                slots@[offset + j],
                #[trigger] types@[j],
            ),
        decreases n - i,
    {
        out.push(read_slot(slots[offset + i], types[i]));
        i = i + 1;
    }
    out
}

} // verus!
