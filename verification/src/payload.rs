//! The type-erased callable payload that crosses the registration
//! boundary.
//!
//! The engine treats the payload as opaque "extra info": it receives it
//! at registration time and hands it back unchanged on every invocation.
//! `NativeFn` is the tagged union of every native function shape the
//! adapter supports; `PayloadHandle` owns one such value for the lifetime
//! of a registration.

use vstd::prelude::*;

use crate::generators::{BoolGen, FloatGen, IntGen, PairGen, TextGen};
use crate::kinds::{FunctionSignature, LogicalKind};
use crate::trampoline::TrampolineKind;

verus! {

/// One native function, tagged by return kind and arity.
///
/// The four zero-argument shapes produce one value per call; `FloatPair`
/// takes two `Float64` arguments. This closed set mirrors the five
/// invocation trampolines.
#[derive(Debug, Clone, PartialEq, Eq)]
pub enum NativeFn {
    Text0(TextGen),
    Integer0(IntGen),
    Float0(FloatGen),
    Bool0(BoolGen),
    FloatPair(PairGen),
}

impl NativeFn {
    /// The kind of value this function returns.
    pub open spec fn spec_return_kind(self) -> LogicalKind {
        match self {
            NativeFn::Text0(_) => LogicalKind::Text,
            NativeFn::Integer0(_) => LogicalKind::Integer64,
            NativeFn::Float0(_) => LogicalKind::Float64,
            NativeFn::Bool0(_) => LogicalKind::Boolean,
            NativeFn::FloatPair(_) => LogicalKind::Float64,
        }
    }

    /// The parameter kinds this function takes: none, or two `Float64`.
    pub open spec fn spec_params(self) -> Seq<LogicalKind> {
        match self {
            NativeFn::FloatPair(_) => seq![LogicalKind::Float64, LogicalKind::Float64],
            _ => Seq::empty(),
        }
    }

    /// The invocation trampoline that matches this function.
    pub open spec fn spec_trampoline(self) -> TrampolineKind {
        match self {
            NativeFn::Text0(_) => TrampolineKind::BroadcastText,
            NativeFn::Integer0(_) => TrampolineKind::BroadcastInteger,
            NativeFn::Float0(_) => TrampolineKind::BroadcastFloat,
            NativeFn::Bool0(_) => TrampolineKind::BroadcastBoolean,
            NativeFn::FloatPair(_) => TrampolineKind::ElementwisePair,
        }
    }

    /// The kind of value this function returns.
    pub fn return_kind(&self) -> (r: LogicalKind)
        ensures
            r == self.spec_return_kind(),
    {
        match self {
            NativeFn::Text0(_) => LogicalKind::Text,
            NativeFn::Integer0(_) => LogicalKind::Integer64,
            NativeFn::Float0(_) => LogicalKind::Float64,
            NativeFn::Bool0(_) => LogicalKind::Boolean,
            NativeFn::FloatPair(_) => LogicalKind::Float64,
        }
    }

    /// The invocation trampoline that matches this function.
    pub fn trampoline(&self) -> (t: TrampolineKind)
        ensures
            t == self.spec_trampoline(),
    {
        match self {
            NativeFn::Text0(_) => TrampolineKind::BroadcastText,
            NativeFn::Integer0(_) => TrampolineKind::BroadcastInteger,
            NativeFn::Float0(_) => TrampolineKind::BroadcastFloat,
            NativeFn::Bool0(_) => TrampolineKind::BroadcastBoolean,
            NativeFn::FloatPair(_) => TrampolineKind::ElementwisePair,
        }
    }

    /// The full signature under which this function is declared to the
    /// engine.
    pub fn signature(&self) -> (s: FunctionSignature)
        ensures
            s.params@ == self.spec_params(),
            s.ret == self.spec_return_kind(),
            s.wf(),
    {
        let mut params: Vec<LogicalKind> = Vec::new();
        if let NativeFn::FloatPair(_) = self {
            params.push(LogicalKind::Float64);
            params.push(LogicalKind::Float64);
        }
        proof {
            assert(params@ =~= self.spec_params());
        }
        FunctionSignature { params, ret: self.return_kind() }
    }
}

/// The heap-allocated holder of one native function, handed to the
/// engine as opaque extra info at registration time.
///
/// The engine returns the handle unchanged to the trampoline on every
/// invocation; `recover` may therefore be called arbitrarily often and
/// always yields the same function. The adapter installs no release
/// callback, so for a registration that lives as long as the process the
/// handle is never released — a deliberate leak, bounded by the size of
/// the catalog. `release` exists for an embedder that can guarantee
/// no further invocations; recovering from a released handle is ruled
/// out by ownership, since `release` consumes the handle.
pub struct PayloadHandle {
    func: NativeFn,
}

impl PayloadHandle {
    /// The function this handle was wrapped around.
    pub closed spec fn func(self) -> NativeFn {
        self.func
    }

    /// Box a native function into an opaque payload.
    pub fn wrap(func: NativeFn) -> (h: PayloadHandle)
        ensures
            h.func() == func,
    {
        PayloadHandle { func }
    }

    /// Reinterpret the payload back to the held function, without
    /// consuming it. Every recovery yields the function the handle was
    /// wrapped around, however often it is repeated.
    pub fn recover(&self) -> (f: &NativeFn)
        ensures
            f == self.func(),
    {
        &self.func
    }

    /// Free the payload. Must be called at most once, and only once the
    /// engine guarantees no further invocations; both are enforced here
    /// by consuming the handle.
    pub fn release(self) {
    }
}

/// Wrapping a native function and recovering it gives back the wrapped
/// function, exactly, on every recovery: the payload round-trips.
pub proof fn lemma_payload_round_trip(h: PayloadHandle, f1: NativeFn, f2: NativeFn)
    requires
        f1 == h.func(),
        f2 == h.func(),
    ensures
        f1 == f2,
{
}

} // verus!
