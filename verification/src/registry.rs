//! The engine-side function registry and the descriptor lifecycle.
//!
//! `EngineRegistry` models the host engine's per-connection registry of
//! scalar functions, together with the engine's descriptor objects: a
//! `FunctionDescriptor` is created, configured through the same calls the
//! engine's C interface offers, submitted, and destroyed. The registry
//! counts descriptor creations and destructions, so the scoped
//! acquire/release discipline of the registration routine — destroy the
//! handle exactly once per attempt, on success and on failure alike — is
//! stated in its contract and checked.

use vstd::prelude::*;

use crate::kinds::{FunctionSignature, LogicalKind};
use crate::payload::{NativeFn, PayloadHandle};
use crate::trampoline::{batch_post, run_trampoline, Batch, ColumnData, TrampolineKind};

verus! {

/// Why a registration attempt was rejected.
#[derive(Debug, PartialEq, Eq)]
pub enum RegistrationError {
    /// The engine refused the submitted descriptor: its name collides
    /// with an already-registered function, or the descriptor was not
    /// completely configured. Carries the offending function name.
    DuplicateOrInvalid(String),
}

impl RegistrationError {
    /// The offending function name.
    pub fn name(&self) -> (r: &String)
        ensures
            *self matches RegistrationError::DuplicateOrInvalid(n) && r == n,
    {
        match self {
            RegistrationError::DuplicateOrInvalid(n) => n,
        }
    }
}

/// One successfully registered scalar function as the engine keeps it:
/// its name, declared signature, the opaque payload, and the attached
/// invocation trampoline.
pub struct RegisteredFunction {
    pub name: String,
    pub signature: FunctionSignature,
    pub payload: PayloadHandle,
    pub trampoline: TrampolineKind,
}

impl RegisteredFunction {
    /// The declared signature and trampoline agree with the function
    /// held by the payload.
    pub open spec fn wf(self) -> bool {
        &&& self.trampoline == self.payload.func().spec_trampoline()
        &&& self.signature.params@ == self.payload.func().spec_params()
        &&& self.signature.ret == self.payload.func().spec_return_kind()
    }
}

/// A transient, engine-owned descriptor for one function under
/// registration: created empty, filled by the builder calls, submitted,
/// and destroyed whatever the outcome.
pub struct FunctionDescriptor {
    pub name: Option<String>,
    pub params: Vec<LogicalKind>,
    pub ret: Option<LogicalKind>,
    pub payload: Option<PayloadHandle>,
    pub trampoline: Option<TrampolineKind>,
}

impl FunctionDescriptor {
    /// A descriptor with nothing configured yet.
    pub open spec fn is_blank(self) -> bool {
        &&& self.name is None
        &&& self.params@ =~= Seq::<LogicalKind>::empty()
        &&& self.ret is None
        &&& self.payload is None
        &&& self.trampoline is None
    }

    /// Fully configured and internally consistent: every field is set,
    /// and the declared parameter kinds, return kind and trampoline all
    /// match the function held by the payload.
    pub open spec fn complete(self) -> bool {
        &&& self.name is Some
        &&& self.ret is Some
        &&& self.payload is Some
        &&& self.trampoline is Some
        &&& self.params@ == self.payload.unwrap().func().spec_params()
        &&& self.ret.unwrap() == self.payload.unwrap().func().spec_return_kind()
        &&& self.trampoline.unwrap() == self.payload.unwrap().func().spec_trampoline()
    }

    /// Set the function's name.
    pub fn set_name(&mut self, name: String)
        ensures
            *final(self) == (FunctionDescriptor { name: Some(name), ..*old(self) }),
    {
        self.name = Some(name);
    }

    /// Declare one more parameter of the given kind.
    pub fn add_parameter(&mut self, kind: LogicalKind)
        ensures
            final(self).params@ == old(self).params@.push(kind),
            *final(self) == (FunctionDescriptor { params: final(self).params, ..*old(self) }),
    {
        self.params.push(kind);
    }

    /// Declare the return kind.
    pub fn set_return_type(&mut self, kind: LogicalKind)
        ensures
            *final(self) == (FunctionDescriptor { ret: Some(kind), ..*old(self) }),
    {
        self.ret = Some(kind);
    }

    /// Attach the opaque payload. No release callback is installed: the
    /// payload lives until the process ends (the adapter's accepted
    /// leak), so the engine can never invoke a released payload.
    pub fn set_extra_info(&mut self, payload: PayloadHandle)
        ensures
            *final(self) == (FunctionDescriptor { payload: Some(payload), ..*old(self) }),
    {
        self.payload = Some(payload);
    }

    /// Attach the invocation trampoline.
    pub fn set_function(&mut self, trampoline: TrampolineKind)
        ensures
            *final(self) == (FunctionDescriptor { trampoline: Some(trampoline), ..*old(self) }),
    {
        self.trampoline = Some(trampoline);
    }
}

/// The engine's registry of scalar functions, doubling as the resource
/// tracker for descriptor handles.
pub struct EngineRegistry {
    pub entries: Vec<RegisteredFunction>,
    pub descriptors_created: u64,
    pub descriptors_destroyed: u64,
}

impl EngineRegistry {
    /// Registry invariant: every entry is internally consistent, no two
    /// entries share a name, and no descriptor was destroyed more often
    /// than one was created.
    pub open spec fn wf(self) -> bool {
        &&& forall|i: int| 0 <= i < self.entries@.len() ==> (#[trigger] self.entries@[i]).wf()
        &&& forall|i: int, j: int|
            0 <= i < self.entries@.len() && 0 <= j < self.entries@.len() && i != j
                ==> self.entries@[i].name@ != self.entries@[j].name@
        &&& self.descriptors_destroyed <= self.descriptors_created
    }

    /// Whether a function of this name is registered.
    pub open spec fn contains_name(self, name: Seq<char>) -> bool {
        exists|i: int| 0 <= i < self.entries@.len() && (#[trigger] self.entries@[i]).name@ == name
    }

    /// An empty registry.
    pub fn new() -> (r: EngineRegistry)
        ensures
            r.wf(),
            r.entries@.len() == 0,
            r.descriptors_created == 0,
            r.descriptors_destroyed == 0,
    {
        EngineRegistry { entries: Vec::new(), descriptors_created: 0, descriptors_destroyed: 0 }
    }

    /// Number of registered functions.
    pub fn len(&self) -> (n: usize)
        ensures
            n == self.entries@.len(),
    {
        self.entries.len()
    }

    /// Whether a function of this name is registered.
    pub fn contains(&self, name: &String) -> (r: bool)
        ensures
            r == self.contains_name(name@),
    {
        let mut i: usize = 0;
        while i < self.entries.len()
            invariant
                i <= self.entries@.len(),
                forall|k: int| 0 <= k < i ==> (#[trigger] self.entries@[k]).name@ != name@,
            decreases self.entries@.len() - i,
        {
            if self.entries[i].name == *name {
                return true;
            }
            i += 1;
        }
        false
    }

    /// Create a fresh descriptor handle.
    pub fn create_function(&mut self) -> (d: FunctionDescriptor)
        requires
            old(self).descriptors_created < u64::MAX,
        ensures
            d.is_blank(),
            final(self).descriptors_created == old(self).descriptors_created + 1,
            final(self).descriptors_destroyed == old(self).descriptors_destroyed,
            final(self).entries == old(self).entries,
    {
        self.descriptors_created = self.descriptors_created + 1;
        FunctionDescriptor {
            name: None,
            params: Vec::new(),
            ret: None,
            payload: None,
            trampoline: None,
        }
    }

    /// Destroy a descriptor handle, whatever state it is in.
    pub fn destroy_function(&mut self, descriptor: FunctionDescriptor)
        requires
            old(self).descriptors_destroyed < u64::MAX,
        ensures
            final(self).descriptors_destroyed == old(self).descriptors_destroyed + 1,
            final(self).descriptors_created == old(self).descriptors_created,
            final(self).entries == old(self).entries,
    {
        self.descriptors_destroyed = self.descriptors_destroyed + 1;
    }

    /// Submit a configured descriptor to the registry.
    ///
    /// The engine accepts it — and takes ownership of the payload, which
    /// it removes from the descriptor — exactly when the descriptor is
    /// complete, consistent, and its name collides with no registered
    /// function. Otherwise it reports failure and changes nothing, and
    /// previously registered functions are untouched either way.
    pub fn register_function(&mut self, descriptor: &mut FunctionDescriptor) -> (ok: bool)
        requires
            old(self).wf(),
        ensures
            final(self).wf(),
            final(self).descriptors_created == old(self).descriptors_created,
            final(self).descriptors_destroyed == old(self).descriptors_destroyed,
            ok <==> (old(descriptor).complete() && !old(self).contains_name(
                old(descriptor).name.unwrap()@,
            )),
            ok ==> {
                &&& final(self).entries@.len() == old(self).entries@.len() + 1
                &&& final(self).entries@.subrange(0, old(self).entries@.len() as int) == old(
                    self,
                ).entries@
                &&& final(self).entries@.last().name@ == old(descriptor).name.unwrap()@
                &&& final(self).entries@.last().payload == old(descriptor).payload.unwrap()
                &&& *final(descriptor) == (FunctionDescriptor {
                    payload: None,
                    ..*old(descriptor)
                })
            },
            !ok ==> {
                &&& final(self).entries == old(self).entries
                &&& *final(descriptor) == *old(descriptor)
            },
    {
        let valid = match (
            &descriptor.name,
            &descriptor.ret,
            &descriptor.payload,
            &descriptor.trampoline,
        ) {
            (Some(name), Some(ret), Some(payload), Some(trampoline)) => {
                let func = payload.recover();
                let arity_ok = match func {
                    NativeFn::FloatPair(_) => {
                        descriptor.params.len() == 2 && descriptor.params[0]
                            == LogicalKind::Float64 && descriptor.params[1]
                            == LogicalKind::Float64
                    },
                    _ => descriptor.params.len() == 0,
                };
                proof {
                    if arity_ok {
                        assert(descriptor.params@ =~= func.spec_params());
                    }
                }
                arity_ok && *ret == func.return_kind() && *trampoline == func.trampoline()
                    && !self.contains(name)
            },
            _ => false,
        };
        if valid {
            let payload = descriptor.payload.take();
            let func = match &payload {
                Some(p) => p.recover().signature(),
                None => FunctionSignature { params: Vec::new(), ret: LogicalKind::Text },
            };
            let entry = RegisteredFunction {
                name: match &descriptor.name {
                    Some(n) => n.clone(),
                    None => String::new(),
                },
                signature: func,
                payload: payload.unwrap(),
                trampoline: match &descriptor.trampoline {
                    Some(t) => *t,
                    None => TrampolineKind::BroadcastText,
                },
            };
            self.entries.push(entry);
            proof {
                assert(final(self).entries@.subrange(0, old(self).entries@.len() as int) =~= old(
                    self,
                ).entries@);
            }
            true
        } else {
            false
        }
    }

    /// Look a registered function up by name and invoke it on one batch.
    ///
    /// Returns `None` exactly when no function of that name is
    /// registered; otherwise the filled output column, produced by the
    /// entry's trampoline from its recovered payload, so the batch
    /// guarantees of `batch_post` hold of it.
    pub fn invoke_by_name(&self, name: &String, batch: &Batch) -> (r: Option<ColumnData>)
        requires
            self.wf(),
            batch.wf(),
        ensures
            match r {
                Option::None => !self.contains_name(name@),
                Option::Some(out) => exists|i: int|
                    0 <= i < self.entries@.len() && (#[trigger] self.entries@[i]).name@ == name@
                        && batch_post(
                        self.entries@[i].payload.func(),
                        batch.rows as nat,
                        batch.input_a@,
                        batch.input_b@,
                        out,
                    ),
            },
    {
        let mut i: usize = 0;
        while i < self.entries.len()
            invariant
                i <= self.entries@.len(),
                batch.wf(),
                forall|k: int| 0 <= k < i ==> (#[trigger] self.entries@[k]).name@ != name@,
            decreases self.entries@.len() - i,
        {
            if self.entries[i].name == *name {
                let func = self.entries[i].payload.recover();
                return Some(run_trampoline(func, batch));
            }
            i += 1;
        }
        None
    }
}

} // verus!
