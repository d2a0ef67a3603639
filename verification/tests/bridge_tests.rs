use hydrozoa::error::{Error, Trap};
use hydrozoa::function::{
    trampoline_read_args, trampoline_write_result, CallOutcome, FindOutcome, GuestFunction,
};
use hydrozoa::memory::{read_region, read_u16s, read_u32_le};
use hydrozoa::module::Environment;
use hydrozoa::store::{AllocOutcome, Ids, Store};
use hydrozoa::teavm::{
    accessor_result, check_exception, console_text, get_cstring, get_string, write_string,
    AccessorRequest, ArgsBuilder, BridgeError, StringReadRequest, StringReader, TeaVM,
};
use hydrozoa::ty::{NativeType, ValueType, WasmValue};
use hydrozoa::utf16::{decode_units, encode_units};
use hydrozoa::Data;

fn runtime() -> Store<()> {
    let mut ids = Ids::new();
    let env = Environment::new(ids.fresh().unwrap());
    Store::new(ids.fresh().unwrap(), &env, 1_000, (), AllocOutcome::Allocated).unwrap()
}

fn accessor(store: &Store<()>, handle: u64) -> hydrozoa::function::Function {
    store
        .find_function(
            "teavm_accessor",
            vec![NativeType::I32],
            Some(NativeType::I32),
            FindOutcome::Found(GuestFunction {
                handle,
                params: vec![ValueType::I32],
                results: vec![ValueType::I32],
                module: None,
            }),
        )
        .unwrap()
}

fn catcher(store: &Store<()>) -> hydrozoa::function::Function {
    store
        .find_function(
            "teavm_catchException",
            vec![],
            Some(NativeType::I32),
            FindOutcome::Found(GuestFunction {
                handle: 99,
                params: vec![],
                results: vec![ValueType::I32],
                module: None,
            }),
        )
        .unwrap()
}

#[test]
fn utf16_round_trip_hello() {
    // Round-trip a host string through allocate-string, write the UTF-16
    // bytes, read back through the string-decode path.
    let mut mem = vec![0u8; 64];
    write_string(&mut mem, 10, "hello").unwrap();
    assert_eq!(get_string(&mem, 10, 5).unwrap(), "hello".to_string());
}

#[test]
fn utf16_round_trip_outside_bmp() {
    // A character outside the basic multilingual plane crosses as a
    // surrogate pair and comes back intact.
    let s = "a\u{1D11E}b";
    let units = encode_units(s);
    assert_eq!(units.len(), 4);
    assert_eq!(units[1], 0xD834);
    assert_eq!(units[2], 0xDD1E);
    let mut mem = vec![0u8; 32];
    write_string(&mut mem, 0, s).unwrap();
    assert_eq!(get_string(&mem, 0, 4).unwrap(), s.to_string());
}

#[test]
fn decode_replaces_unpaired_surrogates() {
    assert_eq!(decode_units(&vec![0xD800]), "\u{FFFD}".to_string());
    assert_eq!(decode_units(&vec![0xD800, 0x41]), "\u{FFFD}A".to_string());
    assert_eq!(decode_units(&vec![0xDC00, 0x42]), "\u{FFFD}B".to_string());
}

#[test]
fn write_string_is_bounds_checked() {
    let mut mem = vec![0u8; 8];
    // Ten UTF-16 bytes do not fit in eight bytes of memory.
    assert_eq!(
        write_string(&mut mem, 0, "hello").unwrap_err(),
        BridgeError::OutOfBounds
    );
    assert_eq!(mem, vec![0u8; 8]);
    assert_eq!(
        write_string(&mut mem, 6, "ab").unwrap_err(),
        BridgeError::OutOfBounds
    );
}

#[test]
fn get_string_is_bounds_checked() {
    let mem = vec![0u8; 8];
    assert_eq!(get_string(&mem, 6, 2).unwrap_err(), BridgeError::OutOfBounds);
    assert_eq!(get_string(&mem, 0, 5).unwrap_err(), BridgeError::OutOfBounds);
}

#[test]
fn get_cstring_appends_terminator() {
    let mut mem = vec![0u8; 16];
    write_string(&mut mem, 2, "hi").unwrap();
    assert_eq!(get_cstring(&mem, 2, 2).unwrap(), b"hi\0".to_vec());
}

#[test]
fn get_cstring_rejects_interior_nul() {
    let mut mem = vec![0u8; 16];
    write_string(&mut mem, 0, "a\0b").unwrap();
    assert_eq!(get_cstring(&mem, 0, 3).unwrap_err(), BridgeError::Nul);
}

#[test]
fn console_text_reads_utf8_region() {
    let mut mem = vec![0u8; 16];
    mem[4..9].copy_from_slice("caf\u{e9}".as_bytes());
    assert_eq!(console_text(&mem, 4, 5).unwrap(), "caf\u{e9}".to_string());
    // A region outside memory is rejected.
    assert_eq!(console_text(&mem, 14, 5).unwrap_err(), BridgeError::OutOfBounds);
    // A region holding an invalid byte sequence is rejected whole.
    let mem = vec![0xFFu8, 0x41];
    assert_eq!(console_text(&mem, 0, 2).unwrap_err(), BridgeError::InvalidUtf8);
}

#[test]
fn exception_flag_decides() {
    assert!(check_exception(0).is_ok());
    assert_eq!(check_exception(1).unwrap_err(), BridgeError::GuestException);
    assert_eq!(check_exception(-7).unwrap_err(), BridgeError::GuestException);
}

#[test]
fn accessor_call_clean_pair() {
    let mut store = runtime();
    let f = accessor(&store, 5);
    let c = catcher(&store);
    let r = accessor_result(
        &f,
        &c,
        &mut store,
        CallOutcome { new_memory: None, result: Ok(vec![123u64]) },
        Some(CallOutcome { new_memory: None, result: Ok(vec![0u64]) }),
    );
    assert_eq!(r.unwrap(), 123);
}

#[test]
fn accessor_call_guest_exception_is_fatal() {
    let mut store = runtime();
    let f = accessor(&store, 5);
    let c = catcher(&store);
    let r = accessor_result(
        &f,
        &c,
        &mut store,
        CallOutcome { new_memory: None, result: Ok(vec![123u64]) },
        Some(CallOutcome { new_memory: None, result: Ok(vec![1u64]) }),
    );
    assert_eq!(r.unwrap_err(), BridgeError::GuestException);
}

#[test]
fn accessor_call_applies_memory_growth() {
    // Either call of the checked pair may grow linear memory; the store
    // ends up with the last state the engine reported.
    let mut store = runtime();
    let f = accessor(&store, 5);
    let c = catcher(&store);
    let r = accessor_result(
        &f,
        &c,
        &mut store,
        CallOutcome { new_memory: Some(vec![1u8; 32]), result: Ok(vec![9u64]) },
        Some(CallOutcome { new_memory: Some(vec![2u8; 64]), result: Ok(vec![0u64]) }),
    );
    assert_eq!(r.unwrap(), 9);
    assert_eq!(store.memory().len(), 64);
    assert_eq!(store.memory()[0], 2);
}

#[test]
fn accessor_call_trap_is_fatal() {
    let mut store = runtime();
    let f = accessor(&store, 5);
    let c = catcher(&store);
    let r = accessor_result(
        &f,
        &c,
        &mut store,
        CallOutcome {
            new_memory: None,
            result: Err("[trap] stack overflow".to_string()),
        },
        None,
    );
    match r.unwrap_err() {
        BridgeError::Call(Error::Wasm3(w)) => assert!(w.eq_trap(Trap::StackOverflow)),
        other => panic!("expected a trapped call, got {:?}", other),
    }
}

#[test]
fn string_reader_follows_the_accessor_chain() {
    let mut mem = vec![0u8; 32];
    write_string(&mut mem, 12, "hi").unwrap();
    // Resolve string object 7 to array 8, array 8 to length 2 and then to
    // its raw address, each answer fed back in turn.
    let mut reader = StringReader::new(7);
    assert_eq!(reader.next_request(), Some(StringReadRequest::StringData(7)));
    reader.provide(8);
    assert_eq!(reader.next_request(), Some(StringReadRequest::ArrayLength(8)));
    reader.provide(2);
    assert_eq!(reader.next_request(), Some(StringReadRequest::CharArrayData(8)));
    reader.provide(12);
    assert_eq!(reader.next_request(), None);
    assert_eq!(reader.finish(&mem).unwrap(), "hi".to_string());
    // An out-of-range resolution is rejected at the copy.
    let mut reader = StringReader::new(7);
    reader.provide(8);
    reader.provide(400);
    reader.provide(12);
    assert_eq!(reader.finish(&mem).unwrap_err(), BridgeError::OutOfBounds);
}

#[test]
fn string_array_of_two_arguments() {
    // Building a String[] of ["a", "bb"]: after construction, the array's
    // raw storage reports both references, and each reference's string
    // storage decodes back to its argument.
    let mut mem = vec![0u8; 200];
    let mut b = ArgsBuilder::new(vec!["a".to_string(), "bb".to_string()]).unwrap();

    assert_eq!(b.next_request(), Some(AccessorRequest::AllocateStringArray(2)));
    b.provide(100, &mut mem).unwrap();

    assert_eq!(b.next_request(), Some(AccessorRequest::AllocateString(1)));
    b.provide(11, &mut mem).unwrap();
    assert_eq!(b.next_request(), Some(AccessorRequest::StringData(11)));
    b.provide(21, &mut mem).unwrap();
    assert_eq!(b.next_request(), Some(AccessorRequest::ObjectArrayData(21)));
    b.provide(50, &mut mem).unwrap();

    assert_eq!(b.next_request(), Some(AccessorRequest::AllocateString(2)));
    b.provide(12, &mut mem).unwrap();
    assert_eq!(b.next_request(), Some(AccessorRequest::StringData(12)));
    b.provide(22, &mut mem).unwrap();
    assert_eq!(b.next_request(), Some(AccessorRequest::ObjectArrayData(22)));
    b.provide(60, &mut mem).unwrap();

    assert_eq!(b.next_request(), None);

    // The array's raw storage holds the two object references in order.
    assert_eq!(read_u32_le(&mem, 100).unwrap(), 11);
    assert_eq!(read_u32_le(&mem, 104).unwrap(), 12);
    // Each reference's backing storage decodes back to its argument.
    assert_eq!(get_string(&mem, 50, 1).unwrap(), "a".to_string());
    assert_eq!(get_string(&mem, 60, 2).unwrap(), "bb".to_string());
}

#[test]
fn args_builder_rejects_out_of_range_write() {
    let mut mem = vec![0u8; 8];
    let mut b = ArgsBuilder::new(vec!["a".to_string()]).unwrap();
    b.provide(0, &mut mem).unwrap();
    b.provide(11, &mut mem).unwrap();
    b.provide(21, &mut mem).unwrap();
    // The resolved address lies outside linear memory.
    assert_eq!(
        b.provide(1000, &mut mem).unwrap_err(),
        BridgeError::OutOfBounds
    );
    assert_eq!(mem, vec![0u8; 8]);
}

#[test]
fn empty_argument_list_needs_only_the_array() {
    let mut mem = vec![0u8; 8];
    let mut b = ArgsBuilder::new(vec![]).unwrap();
    assert_eq!(b.next_request(), Some(AccessorRequest::AllocateStringArray(0)));
    b.provide(4, &mut mem).unwrap();
    assert_eq!(b.next_request(), None);
}

#[test]
fn trampoline_reads_args_after_return_slots() {
    // A host function's arguments sit after the slots reserved for its
    // return value.
    let slots = vec![0u64, 5u64, 2.5f32.to_bits() as u64];
    let args = trampoline_read_args(
        &slots,
        &vec![NativeType::U32, NativeType::F32],
        Some(NativeType::F64),
    );
    assert_eq!(args, vec![WasmValue::U32(5), WasmValue::F32(2.5f32.to_bits())]);
}

#[test]
fn trampoline_writes_result_or_trap() {
    let mut slots = vec![0u64, 5u64];
    let marker = trampoline_write_result(&mut slots, &Ok(Some(WasmValue::I32(7))));
    assert_eq!(marker, None);
    assert_eq!(slots[0], 7);
    assert_eq!(slots[1], 5);

    let mut slots = vec![9u64];
    let marker = trampoline_write_result(&mut slots, &Ok(None));
    assert_eq!(marker, None);
    assert_eq!(slots[0], 9);

    let mut slots = vec![9u64];
    let marker = trampoline_write_result(&mut slots, &Err(Trap::Abort));
    assert_eq!(marker, Some(Trap::Abort));
    assert_eq!(slots[0], 9);
}

#[test]
fn memory_reads_are_bounds_checked() {
    let mem = vec![1u8, 2, 3, 4];
    assert_eq!(read_region(&mem, 1, 2).unwrap(), vec![2u8, 3]);
    assert_eq!(read_region(&mem, 3, 2), None);
    assert_eq!(read_u16s(&mem, 0, 2).unwrap(), vec![0x0201, 0x0403]);
    assert_eq!(read_u16s(&mem, 2, 2), None);
    assert_eq!(read_u32_le(&mem, 0).unwrap(), 0x04030201);
    assert_eq!(read_u32_le(&mem, 1), None);
}

#[test]
fn data_starts_without_accessor_table() {
    let data = Data::new();
    assert!(data.teavm.is_none());
}

#[test]
fn data_holds_resolved_accessor_table() {
    let store = runtime();
    let teavm = TeaVM {
        catch_exception: catcher(&store),
        allocate_string_array: accessor(&store, 1),
        object_array_data: accessor(&store, 2),
        byte_array_data: accessor(&store, 3),
        short_array_data: accessor(&store, 4),
        char_array_data: accessor(&store, 5),
        int_array_data: accessor(&store, 6),
        long_array_data: accessor(&store, 7),
        float_array_data: accessor(&store, 8),
        double_array_data: accessor(&store, 9),
        allocate_string: accessor(&store, 10),
        string_data: accessor(&store, 11),
        array_length: accessor(&store, 12),
    };
    let data = Data { teavm: Some(teavm) };
    assert!(data.teavm.is_some());
}
