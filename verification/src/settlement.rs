//! What ends every promise: the cleanup hook goes, the deferred is settled, the pin is lifted.
use crate::call::{Call, Env, Handle, NULL};
use crate::status::Error;
use vstd::prelude::*;

verus! {

/// The calls that take back the cleanup hook registered with `data`: unregister it, then free
/// its data, which the hook will no longer do. A null `data` stands for no hook.
pub open spec fn hook_calls(env: Env, data: Handle) -> Seq<Call> {
    if data == NULL {
        Seq::empty()
    } else {
        seq![Call::RemoveEnvCleanupHook { env, data }, Call::FreeHookData { data }]
    }
}

/// The call that settles `deferred` with `outcome`.
pub open spec fn settlement(env: Env, deferred: Handle, outcome: Result<Handle, Error>) -> Call {
    match outcome {
        Ok(value) => Call::ResolveDeferred { env, deferred, value },
        Err(error) => Call::RejectDeferred { env, deferred, error },
    }
}

/// The calls that lift the pin from a promise. A null `reference` stands for no pin.
///
/// The count is lowered and the reference itself is left to the runtime: it clears the slot
/// when the promise is collected, and destroys the empty reference when the environment goes.
pub open spec fn unpin_calls(env: Env, reference: Handle) -> Seq<Call> {
    if reference == NULL {
        Seq::empty()
    } else {
        seq![Call::ReferenceUnref { env, reference }]
    }
}

/// Lists the calls that take back a cleanup hook.
pub(crate) fn release_hook(env: Env, data: Handle) -> (calls: Vec<Call>)
    ensures
        calls@ == hook_calls(env, data),
{
    let mut calls: Vec<Call> = Vec::new();
    if data != NULL {
        calls.push(Call::RemoveEnvCleanupHook { env, data });
        calls.push(Call::FreeHookData { data });
    }
    calls
}

/// The call that settles a deferred.
pub(crate) fn settle(env: Env, deferred: Handle, outcome: Result<Handle, Error>) -> (call: Call)
    ensures
        call == settlement(env, deferred, outcome),
{
    match outcome {
        Ok(value) => Call::ResolveDeferred { env, deferred, value },
        Err(error) => Call::RejectDeferred { env, deferred, error },
    }
}

/// Appends the calls that lift the pin from a promise.
pub(crate) fn unpin(env: Env, reference: Handle, calls: &mut Vec<Call>)
    ensures
        final(calls)@ == old(calls)@ + unpin_calls(env, reference),
{
    if reference != NULL {
        calls.push(Call::ReferenceUnref { env, reference });
    }
}

} // verus!
