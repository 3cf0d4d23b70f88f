//! The fixed mapping from logical kinds to the engine's type identifiers
//! and buffer disciplines, and the signatures derived from native
//! functions.

use fakeit_ext::LogicalKind;
use fakeit_ext::NativeFn;
use fakeit_ext::PairGen;
use fakeit_ext::TextGen;
use fakeit_ext::TrampolineKind;

#[test]
fn engine_type_identifiers() {
    assert_eq!(LogicalKind::Text.engine_type_id(), 17);
    assert_eq!(LogicalKind::Integer64.engine_type_id(), 5);
    assert_eq!(LogicalKind::Float64.engine_type_id(), 11);
    assert_eq!(LogicalKind::Boolean.engine_type_id(), 1);
}

#[test]
fn buffer_disciplines() {
    // Text has no pre-sized array; the fixed-width kinds have one cell
    // width each.
    assert_eq!(LogicalKind::Text.fixed_width(), None);
    assert_eq!(LogicalKind::Integer64.fixed_width(), Some(8));
    assert_eq!(LogicalKind::Float64.fixed_width(), Some(8));
    assert_eq!(LogicalKind::Boolean.fixed_width(), Some(1));
}

#[test]
fn signatures_follow_the_native_function() {
    let text = NativeFn::Text0(TextGen::Fixed("x".to_string()));
    let sig = text.signature();
    assert_eq!(sig.params.len(), 0);
    assert_eq!(sig.ret, LogicalKind::Text);
    assert_eq!(text.trampoline(), TrampolineKind::BroadcastText);

    let pair = NativeFn::FloatPair(PairGen::First);
    let sig = pair.signature();
    assert_eq!(sig.params, vec![LogicalKind::Float64, LogicalKind::Float64]);
    assert_eq!(sig.ret, LogicalKind::Float64);
    assert_eq!(pair.trampoline(), TrampolineKind::ElementwisePair);
}
