use hydrozoa::error::Error;
use hydrozoa::module::{Environment, LinkOutcome, Module, ParseOutcome};
use hydrozoa::store::{AllocOutcome, Ids, LoadOutcome, Store};
use hydrozoa::ty::NativeType;

fn runtime_with_instance() -> (Store<()>, hydrozoa::module::Instance) {
    let mut ids = Ids::new();
    let env = Environment::new(ids.fresh().unwrap());
    let mut store = Store::new(ids.fresh().unwrap(), &env, 1_000, (), AllocOutcome::Allocated)
        .expect("runtime init failure");
    let module = Module::parse(&env, vec![0x00, 0x61, 0x73, 0x6d], ParseOutcome::Parsed {
        handle: 42,
    })
    .expect("env alloc failure");
    let instance = store
        .instantiate(module, LoadOutcome::Loaded { memory: vec![0u8; 16] })
        .unwrap();
    (store, instance)
}

#[test]
fn test_link_functions() {
    let (store, instance) = runtime_with_instance();
    instance
        .link_function(&store, "env", "mul_u32_and_f32", LinkOutcome::Linked)
        .unwrap();
    instance
        .link_function(&store, "env", "hello", LinkOutcome::Linked)
        .unwrap();
}

#[test]
fn test_link_closures() {
    let (mut store, instance) = runtime_with_instance();
    let ctx = store.as_context();
    let req = instance
        .prepare_link(
            &ctx,
            "env",
            "mul_u32_and_f32",
            &vec![NativeType::U32, NativeType::F32],
            Some(NativeType::F64),
        )
        .unwrap();
    assert_eq!(req.module_name_z, b"env\0".to_vec());
    assert_eq!(req.function_name_z, b"mul_u32_and_f32\0".to_vec());
    assert_eq!(req.signature, b"F(if)\0".to_vec());
    instance
        .complete_link(&mut store, "env", "mul_u32_and_f32", LinkOutcome::Linked)
        .unwrap();
    let req = instance
        .prepare_link(&ctx, "env", "hello", &vec![], None)
        .unwrap();
    assert_eq!(req.signature, b"v()\0".to_vec());
    instance
        .complete_link(&mut store, "env", "hello", LinkOutcome::Linked)
        .unwrap();
}

#[test]
fn linking_absent_import_is_a_no_op() {
    // An import name absent from the module links as a no-op; the closure
    // record is still retained for the store's lifetime.
    let (mut store, instance) = runtime_with_instance();
    let r = instance.complete_link(&mut store, "env", "not_there", LinkOutcome::Missing);
    assert!(r.is_ok());
    // The engine's own lookup-failure message is tolerated the same way.
    let r = instance.complete_link(
        &mut store,
        "env",
        "also_not_there",
        LinkOutcome::Failed("function lookup failed".to_string()),
    );
    assert!(r.is_ok());
}

#[test]
fn linking_malformed_name_names_the_function() {
    // A name with an embedded null byte fails before reaching the engine,
    // with a descriptive error carrying the attempted name.
    let (store, instance) = runtime_with_instance();
    let ctx = store.as_context();
    let err = instance
        .prepare_link(
            &ctx,
            "env",
            "bad\0name",
            &vec![NativeType::I32],
            Some(NativeType::I32),
        )
        .unwrap_err();
    assert_eq!(err.source, Error::Nul);
    assert_eq!(err.name, "bad\0name".to_string());
    // A malformed module namespace also carries the function's name.
    let err = instance
        .prepare_link(&ctx, "en\0v", "fine", &vec![], None)
        .unwrap_err();
    assert_eq!(err.source, Error::Nul);
    assert_eq!(err.name, "fine".to_string());
}

#[test]
fn link_failure_carries_message_and_name() {
    let (mut store, instance) = runtime_with_instance();
    let err = instance
        .complete_link(
            &mut store,
            "env",
            "broken",
            LinkOutcome::Failed("mismatched function signature".to_string()),
        )
        .unwrap_err();
    assert_eq!(err.name, "broken".to_string());
    match err.source {
        Error::Wasm3(w) => assert_eq!(w.as_str(), "mismatched function signature"),
        other => panic!("expected an engine error, got {:?}", other),
    }
}

#[test]
fn link_function_missing_import_is_an_error() {
    // Unlike a closure link, the raw link surfaces an absent import.
    let (store, instance) = runtime_with_instance();
    let r = instance.link_function(&store, "env", "gone", LinkOutcome::Missing);
    assert_eq!(r.unwrap_err(), Error::FunctionNotFound);
}
