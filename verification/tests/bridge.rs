//! The registration/invocation bridge, exercised end to end against the
//! engine registry model.

use fakeit_ext::Batch;
use fakeit_ext::BoolGen;
use fakeit_ext::ColumnData;
use fakeit_ext::EngineRegistry;
use fakeit_ext::IntGen;
use fakeit_ext::NativeFn;
use fakeit_ext::PairGen;
use fakeit_ext::PayloadHandle;
use fakeit_ext::RegistrationError;
use fakeit_ext::TextGen;
use fakeit_ext::register_scalar;
use fakeit_ext::run_broadcast_text;
use fakeit_ext::run_elementwise_pair;

fn text_fixed(s: &str) -> NativeFn {
    NativeFn::Text0(TextGen::Fixed(s.to_string()))
}

#[test]
fn payload_round_trip_is_stable() {
    let native = text_fixed("abc");
    let handle = PayloadHandle::wrap(native.clone());
    let first = handle.recover().clone();
    let second = handle.recover().clone();
    assert_eq!(first, native);
    assert_eq!(second, native);
    assert_eq!(first, second);
    // Recovery does not consume the payload: it stays recoverable.
    assert_eq!(*handle.recover(), native);
}

#[test]
fn broadcast_writes_exactly_n_cells() {
    let gen = TextGen::Fixed("x".to_string());
    assert_eq!(run_broadcast_text(&gen, 0).len(), 0);
    assert_eq!(run_broadcast_text(&gen, 1).len(), 1);
    assert_eq!(run_broadcast_text(&gen, 7).len(), 7);
}

#[test]
fn empty_batch_invokes_without_writes() {
    let mut reg = EngineRegistry::new();
    register_scalar(&mut reg, "stub".to_string(), text_fixed("v")).unwrap();
    let out = reg.invoke_by_name(&"stub".to_string(), &Batch::zero_arg(0)).unwrap();
    assert_eq!(out, ColumnData::Text(Vec::new()));
}

#[test]
fn text_stub_broadcasts_to_three_rows() {
    let mut reg = EngineRegistry::new();
    register_scalar(&mut reg, "stub_abc".to_string(), text_fixed("abc")).unwrap();
    let out = reg.invoke_by_name(&"stub_abc".to_string(), &Batch::zero_arg(3)).unwrap();
    let expected = vec!["abc".to_string(), "abc".to_string(), "abc".to_string()];
    assert_eq!(out, ColumnData::Text(expected));
}

#[test]
fn pair_function_is_elementwise_min() {
    // `LesserBits` orders by bit pattern, which on these nonnegative
    // finite doubles is the numeric order, so it computes min(a, b).
    let mut reg = EngineRegistry::new();
    register_scalar(
        &mut reg,
        "min_pair".to_string(),
        NativeFn::FloatPair(PairGen::LesserBits),
    )
    .unwrap();
    let a = vec![1.0f64.to_bits(), 5.0f64.to_bits()];
    let b = vec![2.0f64.to_bits(), 3.0f64.to_bits()];
    let out = reg
        .invoke_by_name(&"min_pair".to_string(), &Batch::two_arg(a, b))
        .unwrap();
    let expected = vec![1.0f64.to_bits(), 3.0f64.to_bits()];
    assert_eq!(out, ColumnData::Float64(expected));
}

#[test]
fn pair_function_never_broadcasts() {
    // A function that returns its first argument must reproduce a varying
    // input column, not repeat one value.
    let gen = PairGen::First;
    let a = vec![10u64, 20u64, 30u64];
    let b = vec![7u64, 7u64, 7u64];
    let out = run_elementwise_pair(&gen, &a, &b, 3);
    assert_eq!(out, a);
}

#[test]
fn duplicate_name_fails_and_first_stays_callable() {
    let mut reg = EngineRegistry::new();
    register_scalar(&mut reg, "dup".to_string(), text_fixed("first")).unwrap();
    let second = register_scalar(&mut reg, "dup".to_string(), text_fixed("second"));
    match second {
        Err(RegistrationError::DuplicateOrInvalid(name)) => assert_eq!(name, "dup"),
        Ok(()) => panic!("second registration under a taken name must fail"),
    }
    assert_eq!(reg.len(), 1);
    let out = reg.invoke_by_name(&"dup".to_string(), &Batch::zero_arg(2)).unwrap();
    assert_eq!(
        out,
        ColumnData::Text(vec!["first".to_string(), "first".to_string()])
    );
}

#[test]
fn descriptor_destroyed_once_per_attempt() {
    let mut reg = EngineRegistry::new();
    assert_eq!(reg.descriptors_created, 0);
    assert_eq!(reg.descriptors_destroyed, 0);
    register_scalar(&mut reg, "a".to_string(), text_fixed("1")).unwrap();
    assert_eq!(reg.descriptors_created, 1);
    assert_eq!(reg.descriptors_destroyed, 1);
    // A failing attempt also creates and destroys exactly one handle.
    register_scalar(&mut reg, "a".to_string(), text_fixed("2")).unwrap_err();
    assert_eq!(reg.descriptors_created, 2);
    assert_eq!(reg.descriptors_destroyed, 2);
}

#[test]
fn fixed_generators_of_every_kind() {
    let mut reg = EngineRegistry::new();
    register_scalar(
        &mut reg,
        "int7".to_string(),
        NativeFn::Integer0(IntGen::Fixed(7)),
    )
    .unwrap();
    register_scalar(
        &mut reg,
        "yes".to_string(),
        NativeFn::Bool0(BoolGen::Fixed(true)),
    )
    .unwrap();
    let ints = reg.invoke_by_name(&"int7".to_string(), &Batch::zero_arg(2)).unwrap();
    assert_eq!(ints, ColumnData::Integer64(vec![7, 7]));
    let bools = reg.invoke_by_name(&"yes".to_string(), &Batch::zero_arg(3)).unwrap();
    assert_eq!(bools, ColumnData::Boolean(vec![true, true, true]));
}

#[test]
fn unknown_name_is_not_invocable() {
    let reg = EngineRegistry::new();
    assert_eq!(
        reg.invoke_by_name(&"missing".to_string(), &Batch::zero_arg(1)),
        None
    );
}

#[test]
fn engine_rejects_an_incomplete_descriptor() {
    // Drive the registration interface call by call, leaving the return
    // type undeclared: the engine must refuse the descriptor, and the
    // handle is still created and destroyed exactly once.
    let mut reg = EngineRegistry::new();
    let mut descriptor = reg.create_function();
    descriptor.set_name("half_built".to_string());
    descriptor.set_extra_info(PayloadHandle::wrap(text_fixed("v")));
    descriptor.set_function(fakeit_ext::TrampolineKind::BroadcastText);
    let accepted = reg.register_function(&mut descriptor);
    reg.destroy_function(descriptor);
    assert!(!accepted);
    assert_eq!(reg.len(), 0);
    assert_eq!(reg.descriptors_created, 1);
    assert_eq!(reg.descriptors_destroyed, 1);
}

#[test]
fn engine_accepts_a_complete_descriptor() {
    let mut reg = EngineRegistry::new();
    let native = text_fixed("whole");
    let mut descriptor = reg.create_function();
    descriptor.set_name("whole".to_string());
    descriptor.set_return_type(native.return_kind());
    descriptor.set_function(native.trampoline());
    descriptor.set_extra_info(PayloadHandle::wrap(native));
    let accepted = reg.register_function(&mut descriptor);
    reg.destroy_function(descriptor);
    assert!(accepted);
    assert_eq!(reg.len(), 1);
    let out = reg.invoke_by_name(&"whole".to_string(), &Batch::zero_arg(1)).unwrap();
    assert_eq!(out, ColumnData::Text(vec!["whole".to_string()]));
}
