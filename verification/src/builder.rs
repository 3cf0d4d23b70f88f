//! The function descriptor builder: one registration attempt, end to
//! end.
//!
//! `register_scalar` performs the whole per-function protocol against the
//! engine registry: create a descriptor, set its name, declare the
//! parameter and return kinds, attach the payload (with no release
//! callback) and the matching trampoline, submit it, and destroy the
//! descriptor — on success and on failure alike, so a handle is never
//! leaked, not even by a rejected registration.

use vstd::prelude::*;

use crate::kinds::LogicalKind;
use crate::payload::{NativeFn, PayloadHandle};
use crate::registry::{EngineRegistry, RegisteredFunction, RegistrationError};

verus! {

/// The engine holds a registration of `func` under `name`: the stored
/// payload recovers to `func`, and the declared signature and trampoline
/// are the ones `func` demands.
pub open spec fn registered_as(entry: RegisteredFunction, name: Seq<char>, func: NativeFn) -> bool {
    &&& entry.name@ == name
    &&& entry.payload.func() == func
    &&& entry.trampoline == func.spec_trampoline()
    &&& entry.signature.params@ == func.spec_params()
    &&& entry.signature.ret == func.spec_return_kind()
}

/// Register one native function under the given name.
///
/// Exactly one descriptor handle is created and exactly one is destroyed,
/// whether the attempt succeeds or fails. The attempt succeeds if and
/// only if the name is not yet registered; on success the new function is
/// appended to the registry and every earlier entry is untouched, on
/// failure the registry is exactly as before and the error carries the
/// offending name.
pub fn register_scalar(reg: &mut EngineRegistry, name: String, func: NativeFn) -> (r: Result<
    (),
    RegistrationError,
>)
    requires
        old(reg).wf(),
        old(reg).descriptors_created < u64::MAX,
    ensures
        final(reg).wf(),
        final(reg).descriptors_created == old(reg).descriptors_created + 1,
        final(reg).descriptors_destroyed == old(reg).descriptors_destroyed + 1,
        r is Ok <==> !old(reg).contains_name(name@),
        r is Ok ==> {
            &&& final(reg).entries@.len() == old(reg).entries@.len() + 1
            &&& final(reg).entries@.subrange(0, old(reg).entries@.len() as int) == old(
                reg,
            ).entries@
            &&& registered_as(final(reg).entries@.last(), name@, func)
        },
        r is Err ==> {
            &&& final(reg).entries == old(reg).entries
            &&& (r matches Err(RegistrationError::DuplicateOrInvalid(n)) && n@ == name@)
        },
{
    let name_for_error = name.clone();
    let mut descriptor = reg.create_function();
    descriptor.set_name(name);
    if let NativeFn::FloatPair(_) = &func {
        descriptor.add_parameter(LogicalKind::Float64);
        descriptor.add_parameter(LogicalKind::Float64);
    }
    descriptor.set_return_type(func.return_kind());
    let trampoline = func.trampoline();
    proof {
        if func is FloatPair {
            assert(descriptor.params@ =~= func.spec_params());
        } else {
            assert(descriptor.params@ =~= func.spec_params());
        }
    }
    descriptor.set_extra_info(PayloadHandle::wrap(func));
    descriptor.set_function(trampoline);
    let accepted = reg.register_function(&mut descriptor);
    reg.destroy_function(descriptor);
    if accepted {
        Ok(())
    } else {
        Err(RegistrationError::DuplicateOrInvalid(name_for_error))
    }
}

} // verus!
