//! What the operations are for, stated of the calls themselves.
//!
//! Each law takes arguments and results of operations, `call_ensures(operation, arguments,
//! result)`, and says in plain terms what the results are: which calls are made, with which
//! arguments, what is settled with what, and who is released. None of them leans on how the
//! operations or their contracts put it.
use crate::async_work;
use crate::async_work::{
    AsyncWork, AsyncWorkPromise, Completing, Completion, Launching, Queueing, Run, RunStep, Task,
};
use crate::call::{Call, CallMode, Env, Handle, JsObject, ReleaseMode, Reply};
use crate::lifecycle;
use crate::lifecycle::{is_walk, visits, Lifecycle, Process, Releasable, ShutdownWalk};
use crate::model::Runtime;
use crate::promise;
use crate::promise::{
    Callback, Create, CreateStep, Delivery, DeliveryStep, FuturePromise, Resolving, Starting,
    TSFNValue,
};
use crate::status;
use crate::status::{Error, Status};
use vstd::prelude::*;

verus! {

/// A handle holds any address of the machine.
pub proof fn law_handle_holds_any_address(address: usize)
    ensures
        (address as Handle) as int == address as int,
{
}

/// A call has succeeded exactly if its status says so, and the error of a call that has not
/// carries its status and no text.
pub proof fn law_only_success_is_no_error(status: Status, r: Result<(), Error>)
    requires
        call_ensures(status::check_status, (status,), r),
    ensures
        r is Ok <==> status == Status::Success,
        r matches Err(e) ==> e.status == status && e.reason@.len() == 0,
{
}

/// The object of a promise is that promise, and cancelling asks for its own work.
pub proof fn law_promise_stands_for_its_work<'env>(
    promise: &AsyncWorkPromise<'env>,
    object: JsObject,
    cancel: Call,
)
    requires
        call_ensures(AsyncWorkPromise::<'env>::promise_object, (promise,), object),
        call_ensures(AsyncWorkPromise::<'env>::cancel, (*promise,), cancel),
    ensures
        object.env == *promise.env,
        object.value == promise.raw_promise,
        cancel == (Call::CancelAsyncWork { env: *promise.env, work: promise.napi_async_work }),
{
}

/// Whether `steps` are the steps of a task on its way that was given `replies`.
pub open spec fn runs<'env, T: Task>(
    env: &'env Env,
    task: T,
    replies: Seq<Reply>,
    steps: Seq<RunStep<'env, T>>,
) -> bool {
    &&& steps.len() == replies.len() + 1
    &&& call_ensures(async_work::run::<T>, (env, task), steps[0])
    &&& forall|i: int|
        0 <= i < replies.len() && #[trigger] steps[i] is Call ==> call_ensures(
            Run::<'env, T>::reply,
            (steps[i]->next, replies[i]),
            steps[i + 1],
        )
}

/// A task whose first four calls succeed is launched, by these calls and no others: an object,
/// a promise, a name, a pin with a count of one on that promise, a flag that is not set, a hook
/// that sets that flag, and the async work for that object under that name. What is launched
/// holds the task as it was, nothing computed, the deferred of that promise, that pin, that
/// flag and that hook.
pub proof fn law_run_launches<'env, T: Task>(
    env: &'env Env,
    task: T,
    replies: Seq<Reply>,
    steps: Seq<RunStep<'env, T>>,
)
    requires
        replies.len() == 6,
        runs(env, task, replies, steps),
        forall|i: int| 0 <= i < 4 ==> (#[trigger] replies[i]).status == Status::Success,
    ensures
        forall|i: int| 0 <= i < 6 ==> #[trigger] steps[i] is Call,
        steps[0]->Call_call == (Call::CreateObject { env: *env }),
        steps[1]->Call_call == (Call::CreatePromise { env: *env }),
        steps[2]->Call_call == (Call::CreateString { env: *env, text: "napi_rs_async_work" }),
        steps[3]->Call_call == (Call::CreateReference {
            env: *env,
            value: replies[1].second,
            initial_refcount: 1,
        }),
        steps[4]->Call_call == (Call::CreateFlag { initial: false }),
        steps[5]->Call_call == (Call::AddEnvCleanupHook { env: *env, flag: replies[4].first }),
        steps[6] is Launch,
        steps[6]->Launch_call == (Call::CreateAsyncWork {
            env: *env,
            resource: replies[0].first,
            name: replies[2].first,
        }),
        steps[6]->work.inner_task == task,
        steps[6]->work.deferred == replies[1].first,
        steps[6]->work.value is None,
        steps[6]->work.napi_async_work == 0,
        steps[6]->work.env_tearing_down == replies[4].first,
        steps[6]->work.cleanup_hook_data == replies[5].first,
        steps[6]->work.promise_ref == replies[3].first,
        steps[6]->launching.env == env,
        steps[6]->launching.promise == replies[1].second,
{
    assert(steps[0] is Call);
    assert(steps[1] is Call);
    assert(steps[2] is Call);
    assert(steps[3] is Call);
    assert(steps[4] is Call);
    assert(steps[5] is Call);
    assert(steps[6] is Launch);
}

/// A task stops at the first of its first four calls that fails, with the status of that call
/// and no text, and comes back as it was.
pub proof fn law_run_stops_at_the_first_failure<'env, T: Task>(
    env: &'env Env,
    task: T,
    replies: Seq<Reply>,
    steps: Seq<RunStep<'env, T>>,
)
    requires
        1 <= replies.len() <= 4,
        runs(env, task, replies, steps),
        forall|i: int|
            0 <= i < replies.len() - 1 ==> (#[trigger] replies[i]).status == Status::Success,
        replies.last().status != Status::Success,
    ensures
        forall|i: int| 0 <= i < replies.len() ==> #[trigger] steps[i] is Call,
        steps.last() is Failed,
        steps.last()->task == task,
        steps.last()->error.status == replies.last().status,
        steps.last()->error.reason@.len() == 0,
{
    assert(steps[0] is Call);
    if replies.len() > 1 {
        assert(replies[0].status == Status::Success);
        assert(steps[1] is Call);
    }
    if replies.len() > 2 {
        assert(replies[1].status == Status::Success);
        assert(steps[2] is Call);
    }
    if replies.len() > 3 {
        assert(replies[2].status == Status::Success);
        assert(steps[3] is Call);
    }
}

/// A launched task is queued with the async work that was created for it, which is also what it
/// notes and what its promise stands for. Nothing else of it changes.
pub proof fn law_launched_work_is_queued<'env, T: Task>(
    launching: Launching<'env>,
    work: &mut AsyncWork<T>,
    created: Reply,
    queueing: Queueing<'env>,
    call: Call,
    queued: Reply,
    promise: Result<AsyncWorkPromise<'env>, Error>,
)
    requires
        call_ensures(
            Launching::<'env>::created::<T>,
            (launching, work, created),
            Ok::<Queueing<'env>, Error>(queueing),
        ),
        call_ensures(Queueing::<'env>::call, (&queueing,), call),
        call_ensures(Queueing::<'env>::queued, (queueing, queued), promise),
    ensures
        created.status == Status::Success,
        final(work).napi_async_work == created.first,
        final(work).inner_task == old(work).inner_task,
        final(work).deferred == old(work).deferred,
        final(work).value == old(work).value,
        final(work).env_tearing_down == old(work).env_tearing_down,
        final(work).cleanup_hook_data == old(work).cleanup_hook_data,
        final(work).promise_ref == old(work).promise_ref,
        call == (Call::QueueAsyncWork { env: *launching.env, work: created.first }),
        promise is Ok <==> queued.status == Status::Success,
        promise matches Ok(p) ==> {
            &&& p.napi_async_work == created.first
            &&& p.raw_promise == launching.promise
            &&& p.env == launching.env
        },
        promise matches Err(e) ==> e.status == queued.status && e.reason@.len() == 0,
{
}

/// A work goes on to the queue exactly if its async work could be created. Where it could not,
/// the work is as it was, and the error has the status of the call and no text.
pub proof fn law_refused_work_is_not_queued<'env, T: Task>(
    launching: Launching<'env>,
    work: &mut AsyncWork<T>,
    created: Reply,
    r: Result<Queueing<'env>, Error>,
)
    requires
        call_ensures(Launching::<'env>::created::<T>, (launching, work, created), r),
    ensures
        r is Ok <==> created.status == Status::Success,
        r matches Err(e) ==> {
            &&& e.status == created.status
            &&& e.reason@.len() == 0
            &&& *final(work) == *old(work)
        },
{
}

/// To execute a work is to compute once and to keep what came of it. Nothing else of the work
/// changes.
pub proof fn law_execute_keeps_what_was_computed<T: Task>(work: &mut AsyncWork<T>)
    requires
        call_ensures(async_work::execute::<T>, (work,), ()),
    ensures
        final(work).value is Some,
        T::computes(old(work).inner_task, final(work).inner_task, final(work).value->0),
        final(work).deferred == old(work).deferred,
        final(work).napi_async_work == old(work).napi_async_work,
        final(work).env_tearing_down == old(work).env_tearing_down,
        final(work).cleanup_hook_data == old(work).cleanup_hook_data,
        final(work).promise_ref == old(work).promise_ref,
{
}

/// A work is abandoned if it was cancelled, its environment is going or shutdown was signalled,
/// and in no other case. It then comes back as it was.
pub proof fn law_work_is_abandoned_only_if_it_must_be<T: Task>(
    env: Env,
    status: Status,
    work: AsyncWork<T>,
    env_tearing_down: bool,
    shutdown_requested: bool,
    completion: Completion<T>,
)
    requires
        call_ensures(
            async_work::complete::<T>,
            (env, status, work, env_tearing_down, shutdown_requested),
            completion,
        ),
    ensures
        completion is Abandoned <==> status == Status::Cancelled || env_tearing_down
            || shutdown_requested,
        completion matches Completion::Abandoned(dropped) ==> dropped == work,
        completion is Proceed <==> status != Status::Cancelled && !env_tearing_down
            && !shutdown_requested,
{
}

/// What ends a work of which `value` is known is this: its deferred is fulfilled with that very
/// value or rejected with that very error, its async work is deleted, and its pin, if there is
/// one, is lifted. If the work itself failed, its deferred is rejected with its status instead.
pub proof fn law_settle_uses_the_very_value(
    settling: async_work::Settling,
    value: Result<Handle, Error>,
    calls: Vec<Call>,
)
    requires
        call_ensures(async_work::Settling::settle, (settling, value), calls),
    ensures
        calls@.len() == (if settling.promise_ref == 0 {
            2int
        } else {
            3int
        }),
        settling.status == Status::Success && value is Ok ==> calls@[0]
            == (Call::ResolveDeferred {
            env: settling.env,
            deferred: settling.deferred,
            value: value->Ok_0,
        }),
        settling.status == Status::Success && value is Err ==> calls@[0]
            == (Call::RejectDeferred {
            env: settling.env,
            deferred: settling.deferred,
            error: value->Err_0,
        }),
        settling.status != Status::Success ==> {
            &&& calls@[0] is RejectDeferred
            &&& calls@[0]->RejectDeferred_env == settling.env
            &&& calls@[0]->RejectDeferred_deferred == settling.deferred
            &&& calls@[0]->error.status == settling.status
            &&& calls@[0]->error.reason@.len() == 0
        },
        calls@[1] == (Call::DeleteAsyncWork {
            env: settling.env,
            work: settling.napi_async_work,
        }),
        settling.promise_ref != 0 ==> calls@[2] == (Call::ReferenceUnref {
            env: settling.env,
            reference: settling.promise_ref,
        }),
{
    assert(calls@.skip(2).len() == calls@.len() - 2);
    if settling.promise_ref != 0 {
        assert(calls@[2] == calls@.skip(2)[0]);
    }
}

/// A work that is not abandoned ends like this, whatever it computed: its cleanup hook, if
/// there is one, is unregistered and its data freed; its task is asked once, to resolve what it
/// computed or to answer its own error, and whatever the work's status; then the work's own
/// deferred is settled, with what the task said if the work succeeded and with the work's
/// status if not, the work's own async work is deleted, and the work's own pin, if there is
/// one, is lifted. Nothing else is called.
pub proof fn law_completed_work_settles_with_what_its_task_said<T: Task>(
    env: Env,
    status: Status,
    work: AsyncWork<T>,
    env_tearing_down: bool,
    shutdown_requested: bool,
    first: Vec<Call>,
    rest: Completing<T>,
    finished: (Vec<Call>, T),
)
    requires
        call_ensures(
            async_work::complete::<T>,
            (env, status, work, env_tearing_down, shutdown_requested),
            Completion::Proceed { calls: first, rest },
        ),
        call_ensures(Completing::<T>::finish, (rest,), finished),
    ensures
        work.cleanup_hook_data == 0 ==> first@.len() == 0,
        work.cleanup_hook_data != 0 ==> first@ == seq![
            Call::RemoveEnvCleanupHook { env, data: work.cleanup_hook_data },
            Call::FreeHookData { data: work.cleanup_hook_data },
        ],
        ({
            let last = finished.0@;
            let after = finished.1;
            &&& last.len() == (if work.promise_ref == 0 {
                2int
            } else {
                3int
            })
            &&& last[1] == (Call::DeleteAsyncWork { env, work: work.napi_async_work })
            &&& work.promise_ref != 0 ==> last[2] == (Call::ReferenceUnref {
                env,
                reference: work.promise_ref,
            })
            &&& exists|said: Result<Handle, Error>|
                #![trigger T::resolves(work.inner_task, after, env, work.value->0->Ok_0, said)]
                #![trigger T::rejects(work.inner_task, after, env, work.value->0->Err_0, said)]
                {
                    &&& work.value->0 is Ok ==> T::resolves(
                        work.inner_task,
                        after,
                        env,
                        work.value->0->Ok_0,
                        said,
                    )
                    &&& work.value->0 is Err ==> T::rejects(
                        work.inner_task,
                        after,
                        env,
                        work.value->0->Err_0,
                        said,
                    )
                    &&& status == Status::Success && said is Ok ==> last[0]
                        == (Call::ResolveDeferred {
                        env,
                        deferred: work.deferred,
                        value: said->Ok_0,
                    })
                    &&& status == Status::Success && said is Err ==> last[0]
                        == (Call::RejectDeferred {
                        env,
                        deferred: work.deferred,
                        error: said->Err_0,
                    })
                }
            &&& status != Status::Success ==> {
                &&& last[0] is RejectDeferred
                &&& last[0]->RejectDeferred_env == env
                &&& last[0]->RejectDeferred_deferred == work.deferred
                &&& last[0]->error.status == status
                &&& last[0]->error.reason@.len() == 0
            }
        }),
{
    let last = finished.0@;
    assert(last.skip(2).len() == last.len() - 2);
    if work.promise_ref != 0 {
        assert(last[2] == last.skip(2)[0]);
    }
}

/// Whatever it computed, a work that is not abandoned gives back what it took: each of its calls
/// finds what it works on, and after them its deferred is settled, the count of its pin is
/// zero, its cleanup hook is gone together with its data, and its async work is deleted. What
/// others hold has not changed.
pub proof fn law_completed_work_gives_back_what_it_took<T: Task>(
    runtime: Runtime,
    env: Env,
    status: Status,
    work: AsyncWork<T>,
    env_tearing_down: bool,
    shutdown_requested: bool,
    first: Vec<Call>,
    rest: Completing<T>,
    finished: (Vec<Call>, T),
)
    requires
        call_ensures(
            async_work::complete::<T>,
            (env, status, work, env_tearing_down, shutdown_requested),
            Completion::Proceed { calls: first, rest },
        ),
        call_ensures(Completing::<T>::finish, (rest,), finished),
        work.promise_ref != 0,
        work.cleanup_hook_data != 0,
        runtime.pending.contains(work.deferred),
        runtime.refs.contains_key(work.promise_ref),
        runtime.refs[work.promise_ref] == 1,
        runtime.hooks.contains_key(work.cleanup_hook_data),
        runtime.hook_data.contains(work.cleanup_hook_data),
        runtime.works.contains(work.napi_async_work),
    ensures
        runtime.permits_all(first@ + finished.0@),
        runtime.without_all(first@ + finished.0@).pending == runtime.pending.remove(work.deferred),
        runtime.without_all(first@ + finished.0@).refs == runtime.refs.insert(work.promise_ref, 0),
        runtime.without_all(first@ + finished.0@).hooks == runtime.hooks.remove(
            work.cleanup_hook_data,
        ),
        runtime.without_all(first@ + finished.0@).hook_data == runtime.hook_data.remove(
            work.cleanup_hook_data,
        ),
        runtime.without_all(first@ + finished.0@).works == runtime.works.remove(
            work.napi_async_work,
        ),
{
    law_completed_work_settles_with_what_its_task_said(
        env,
        status,
        work,
        env_tearing_down,
        shutdown_requested,
        first,
        rest,
        finished,
    );
    lemma_ends_by_five_calls(runtime, first@ + finished.0@);
}

/// What five calls that end a work do, one after the other.
proof fn lemma_ends_by_five_calls(runtime: Runtime, calls: Seq<Call>)
    requires
        calls.len() == 5,
    ensures
        runtime.without_all(calls) == runtime.without(calls[0]).without(calls[1]).without(
            calls[2],
        ).without(calls[3]).without(calls[4]),
        runtime.permits(calls[0]) && runtime.without(calls[0]).permits(calls[1])
            && runtime.without(calls[0]).without(calls[1]).permits(calls[2]) && runtime.without(
            calls[0],
        ).without(calls[1]).without(calls[2]).permits(calls[3]) && runtime.without(
            calls[0],
        ).without(calls[1]).without(calls[2]).without(calls[3]).permits(calls[4])
            ==> runtime.permits_all(calls),
{
    assert(calls.take(5) == calls);
    assert(calls.take(5).drop_last() == calls.take(4));
    assert(calls.take(4).drop_last() == calls.take(3));
    assert(calls.take(3).drop_last() == calls.take(2));
    assert(calls.take(2).drop_last() == calls.take(1));
    assert(calls.take(1).drop_last() == calls.take(0));
    assert(runtime.without_all(calls.take(0)) == runtime);
    assert(runtime.without_all(calls.take(1)) == runtime.without(calls[0]));
    assert(runtime.without_all(calls.take(2)) == runtime.without(calls[0]).without(calls[1]));
    assert(runtime.without_all(calls.take(3)) == runtime.without(calls[0]).without(
        calls[1],
    ).without(calls[2]));
    assert(runtime.without_all(calls.take(4)) == runtime.without(calls[0]).without(
        calls[1],
    ).without(calls[2]).without(calls[3]));
}

/// Whether `steps` are the steps of a promise in the making that was given `replies`.
pub open spec fn creates<F>(
    env: Env,
    raw_deferred: Handle,
    raw_promise: Handle,
    resolver: F,
    replies: Seq<Reply>,
    steps: Seq<CreateStep<F>>,
) -> bool {
    &&& steps.len() == replies.len() + 1
    &&& call_ensures(
        FuturePromise::<F>::create,
        (env, raw_deferred, raw_promise, resolver),
        steps[0],
    )
    &&& forall|i: int|
        0 <= i < replies.len() && #[trigger] steps[i] is Call ==> call_ensures(
            Create::<F>::reply,
            (steps[i]->next, replies[i]),
            steps[i + 1],
        )
}

/// A promise whose first two calls succeed is made, by these calls and no others: a name, a
/// pin with a count of one on the given promise, a flag that is not set, a hook that sets that
/// flag. It holds the given deferred and resolver, that name, that pin, that flag and that
/// hook, and has no thread-safe function yet.
pub proof fn law_create_makes_a_promise<F>(
    env: Env,
    raw_deferred: Handle,
    raw_promise: Handle,
    resolver: F,
    replies: Seq<Reply>,
    steps: Seq<CreateStep<F>>,
)
    requires
        replies.len() == 4,
        creates(env, raw_deferred, raw_promise, resolver, replies, steps),
        forall|i: int| 0 <= i < 2 ==> (#[trigger] replies[i]).status == Status::Success,
    ensures
        forall|i: int| 0 <= i < 4 ==> #[trigger] steps[i] is Call,
        steps[0]->call == (Call::CreateString { env, text: "napi_resolve_promise_from_future" }),
        steps[1]->call == (Call::CreateReference {
            env,
            value: raw_promise,
            initial_refcount: 1,
        }),
        steps[2]->call == (Call::CreateFlag { initial: false }),
        steps[3]->call == (Call::AddEnvCleanupHook { env, flag: replies[2].first }),
        steps[4] is Created,
        steps[4]->Created_0.deferred == raw_deferred,
        steps[4]->Created_0.env == env,
        steps[4]->Created_0.tsfn == 0,
        steps[4]->Created_0.async_resource_name == replies[0].first,
        steps[4]->Created_0.resolver == resolver,
        steps[4]->Created_0.env_tearing_down == replies[2].first,
        steps[4]->Created_0.cleanup_hook_data == replies[3].first,
        steps[4]->Created_0.promise_ref == replies[1].first,
{
    assert(steps[0] is Call);
    assert(steps[1] is Call);
    assert(steps[2] is Call);
    assert(steps[3] is Call);
    assert(steps[4] is Created);
}

/// A promise in the making stops at the first of its first two calls that fails, with the
/// status of that call and no text.
pub proof fn law_create_stops_at_the_first_failure<F>(
    env: Env,
    raw_deferred: Handle,
    raw_promise: Handle,
    resolver: F,
    replies: Seq<Reply>,
    steps: Seq<CreateStep<F>>,
)
    requires
        1 <= replies.len() <= 2,
        creates(env, raw_deferred, raw_promise, resolver, replies, steps),
        replies.len() == 2 ==> replies[0].status == Status::Success,
        replies.last().status != Status::Success,
    ensures
        forall|i: int| 0 <= i < replies.len() ==> #[trigger] steps[i] is Call,
        steps.last() is Failed,
        steps.last()->Failed_0.status == replies.last().status,
        steps.last()->Failed_0.reason@.len() == 0,
{
    assert(steps[0] is Call);
    if replies.len() == 2 {
        assert(steps[1] is Call);
    }
}

/// A promise that is started is the context of a thread-safe function under its own name, with
/// an unbounded queue and one user.
pub proof fn law_started_promise_is_the_context<F>(
    future_promise: FuturePromise<F>,
    starting: Starting<F>,
)
    requires
        call_ensures(FuturePromise::<F>::start, (future_promise,), starting),
    ensures
        starting.context == future_promise,
        starting.call == (Call::CreateThreadsafeFunction {
            env: future_promise.env,
            name: future_promise.async_resource_name,
            max_queue_size: 0,
            initial_thread_count: 1,
        }),
{
}

/// A promise has been started exactly if its function could be created. It then notes that
/// function and hands it out; otherwise the error has the status of the call and no text.
/// Nothing else of the promise changes.
pub proof fn law_started_promise_notes_its_function<F>(
    future_promise: &mut FuturePromise<F>,
    reply: Reply,
    r: Result<TSFNValue, Error>,
)
    requires
        call_ensures(FuturePromise::<F>::started, (future_promise, reply), r),
    ensures
        r is Ok <==> reply.status == Status::Success,
        r matches Ok(tsfn) ==> tsfn.0 == reply.first && final(future_promise).tsfn == reply.first,
        r matches Err(e) ==> {
            &&& e.status == reply.status
            &&& e.reason@.len() == 0
            &&& final(future_promise).tsfn == old(future_promise).tsfn
        },
        final(future_promise).deferred == old(future_promise).deferred,
        final(future_promise).env == old(future_promise).env,
        final(future_promise).async_resource_name == old(future_promise).async_resource_name,
        final(future_promise).resolver == old(future_promise).resolver,
        final(future_promise).env_tearing_down == old(future_promise).env_tearing_down,
        final(future_promise).cleanup_hook_data == old(future_promise).cleanup_hook_data,
        final(future_promise).promise_ref == old(future_promise).promise_ref,
{
}

/// The result of a future, value or error alike, is handed over as it is, by one call of the
/// function that does not wait. If that succeeds, the function is released; if that succeeds
/// too, all is done. A failure says which of the two calls failed, and with which status.
pub proof fn law_delivery_hands_over_the_very_result<T>(
    tsfn_value: TSFNValue,
    val: Result<T, Error>,
    step: DeliveryStep<T>,
    called: Reply,
    second: DeliveryStep<T>,
)
    requires
        call_ensures(promise::resolve_from_future::<T>, (tsfn_value, val), step),
        call_ensures(Delivery::reply::<T>, (step->Send_next, called), second),
    ensures
        step is Send,
        step->data == val,
        step->Send_call == (Call::CallThreadsafeFunction {
            tsfn: tsfn_value.0,
            call_mode: CallMode::Nonblocking,
        }),
        called.status == Status::Success ==> {
            &&& second is Call
            &&& second->Call_call == (Call::ReleaseThreadsafeFunction {
                tsfn: tsfn_value.0,
                release_mode: ReleaseMode::Release,
            })
        },
        called.status == Status::Success ==> forall|released: Reply, third: DeliveryStep<T>|
            #[trigger] call_ensures(
                Delivery::reply::<T>,
                (second->Call_next, released),
                third,
            ) ==> {
                &&& released.status == Status::Success ==> third is Delivered
                &&& released.status != Status::Success ==> {
                    &&& third is Failed
                    &&& third->message == "Failed to release thread safe function"
                    &&& third->error.status == released.status
                    &&& third->error.reason@.len() == 0
                }
            },
        called.status != Status::Success ==> {
            &&& second is Failed
            &&& second->message == "Failed to call thread safe function"
            &&& second->error.status == called.status
            &&& second->error.reason@.len() == 0
        },
{
}

/// A result is abandoned if the environment is going or shutdown was signalled, and in no other
/// case, whatever the result is. It and its promise then come back as they were.
pub proof fn law_result_is_abandoned_only_if_it_must_be<T, F>(
    raw_env: Env,
    future_promise: FuturePromise<F>,
    value: Result<T, Error>,
    env_tearing_down: bool,
    shutdown_requested: bool,
    callback: Callback<T, F>,
)
    requires
        call_ensures(
            promise::call_js_cb::<T, F>,
            (raw_env, future_promise, value, env_tearing_down, shutdown_requested),
            callback,
        ),
    ensures
        callback is Abandoned <==> env_tearing_down || shutdown_requested,
        callback is Proceed <==> !env_tearing_down && !shutdown_requested,
        callback is Abandoned ==> callback->value == value && callback->future_promise
            == future_promise,
{
}

/// What ends a promise with a known outcome is this: its deferred is fulfilled with that very
/// value or rejected with that very error, and its pin, if there is one, is lifted.
pub proof fn law_promise_settles_with_the_very_outcome(
    settling: promise::Settling,
    outcome: Result<Handle, Error>,
    calls: Vec<Call>,
)
    requires
        call_ensures(promise::Settling::settle, (settling, outcome), calls),
    ensures
        calls@.len() == (if settling.promise_ref == 0 {
            1int
        } else {
            2int
        }),
        outcome matches Ok(value) ==> calls@[0] == (Call::ResolveDeferred {
            env: settling.env,
            deferred: settling.deferred,
            value,
        }),
        outcome matches Err(error) ==> calls@[0] == (Call::RejectDeferred {
            env: settling.env,
            deferred: settling.deferred,
            error,
        }),
        settling.promise_ref != 0 ==> calls@[1] == (Call::ReferenceUnref {
            env: settling.env,
            reference: settling.promise_ref,
        }),
{
}

/// A result that is not abandoned ends its promise like this: the cleanup hook, if there is one,
/// is unregistered and its data freed; then the promise's own deferred is settled, and its own
/// pin, if there is one, is lifted. Nothing else is called. The deferred of a failed future is
/// rejected with the error of the future, and never fulfilled. That of a future with a value is
/// settled with what its resolver makes of that value.
pub proof fn law_result_settles_its_promise<T, F: FnOnce(Env, T) -> Result<Handle, Error>>(
    raw_env: Env,
    future_promise: FuturePromise<F>,
    value: Result<T, Error>,
    env_tearing_down: bool,
    shutdown_requested: bool,
    first: Vec<Call>,
    rest: Resolving<T, F>,
    last: Vec<Call>,
)
    requires
        call_ensures(
            promise::call_js_cb::<T, F>,
            (raw_env, future_promise, value, env_tearing_down, shutdown_requested),
            Callback::Proceed { calls: first, rest },
        ),
        call_ensures(Resolving::<T, F>::finish, (rest,), last),
    ensures
        future_promise.cleanup_hook_data == 0 ==> first@.len() == 0,
        future_promise.cleanup_hook_data != 0 ==> first@ == seq![
            Call::RemoveEnvCleanupHook { env: raw_env, data: future_promise.cleanup_hook_data },
            Call::FreeHookData { data: future_promise.cleanup_hook_data },
        ],
        last@.len() == (if future_promise.promise_ref == 0 {
            1int
        } else {
            2int
        }),
        value matches Err(error) ==> last@[0] == (Call::RejectDeferred {
            env: raw_env,
            deferred: future_promise.deferred,
            error,
        }),
        value is Ok ==> exists|outcome: Result<Handle, Error>|
            {
                &&& #[trigger] call_ensures(
                    future_promise.resolver,
                    (raw_env, value->Ok_0),
                    outcome,
                )
                &&& outcome is Ok ==> last@[0] == (Call::ResolveDeferred {
                    env: raw_env,
                    deferred: future_promise.deferred,
                    value: outcome->Ok_0,
                })
                &&& outcome is Err ==> last@[0] == (Call::RejectDeferred {
                    env: raw_env,
                    deferred: future_promise.deferred,
                    error: outcome->Err_0,
                })
            },
        future_promise.promise_ref != 0 ==> last@[1] == (Call::ReferenceUnref {
            env: raw_env,
            reference: future_promise.promise_ref,
        }),
{
}

/// A process starts with nothing registered and is not shut down.
pub proof fn law_process_starts_alive<W>(lifecycle: Lifecycle<W>, requested: bool)
    requires
        call_ensures(Lifecycle::<W>::new, (), lifecycle),
        call_ensures(lifecycle::shutdown_requested::<W>, (&lifecycle,), requested),
    ensures
        !requested,
        lifecycle@.registry.len() == 0,
{
}

/// To register a resource adds it behind the others and has no bearing on whether the process
/// is shut down.
pub proof fn law_registration_adds_and_is_no_signal<W>(
    lifecycle: &mut Lifecycle<W>,
    resource: W,
    before: bool,
    after: bool,
)
    requires
        call_ensures(lifecycle::register_releasable::<W>, (lifecycle, resource), ()),
        call_ensures(lifecycle::shutdown_requested::<W>, (&*old(lifecycle),), before),
        call_ensures(lifecycle::shutdown_requested::<W>, (&*final(lifecycle),), after),
    ensures
        after == before,
        final(lifecycle)@.registry == old(lifecycle)@.registry.push(resource),
{
}

/// A request for shutdown shuts the process down, whatever came before, and takes every entry
/// out of the registry, in order, to be walked over with the flag set.
pub proof fn law_request_takes_every_entry<W>(
    lifecycle: &mut Lifecycle<W>,
    walk: ShutdownWalk<W>,
    after: bool,
)
    requires
        call_ensures(lifecycle::request_shutdown::<W>, (lifecycle,), walk),
        call_ensures(lifecycle::shutdown_requested::<W>, (&*final(lifecycle),), after),
    ensures
        after,
        walk@.requested,
        walk@.entries == old(lifecycle)@.registry,
        final(lifecycle)@.registry.len() == 0,
{
}

/// An upgrade that found its resource alive is followed by the release of that resource, one
/// that did not by nothing.
pub proof fn law_only_the_living_are_released<R: Releasable>(
    requested: bool,
    upgraded: Option<R>,
    world: &mut R::World,
)
    requires
        call_ensures(lifecycle::release_upgraded::<R>, (requested, upgraded, world), ()),
    ensures
        upgraded matches Some(resource) ==> resource.releases(
            requested,
            *old(world),
            *final(world),
        ),
        upgraded is None ==> *final(world) == *old(world),
{
}

/// Whether a walk that went through `worlds` came to every entry, from the first to the last:
/// the entry was upgraded in the world that its predecessors left, and released in it, with the
/// flag as it is said to be, if that found it alive.
pub open spec fn comes_to_each<R: Releasable>(
    requested: bool,
    entries: Seq<R::Weak>,
    worlds: Seq<R::World>,
    strongs: Seq<Option<R>>,
) -> bool {
    &&& worlds.len() == entries.len() + 1
    &&& strongs.len() == entries.len()
    &&& forall|i: int|
        0 <= i < entries.len() ==> {
            &&& R::upgrades(entries[i], worlds[i], #[trigger] strongs[i])
            &&& strongs[i] is Some ==> strongs[i]->0.releases(
                requested,
                worlds[i],
                worlds[i + 1],
            )
            &&& strongs[i] is None ==> worlds[i + 1] == worlds[i]
        }
}

/// What the upgrades of a walk found.
proof fn lemma_walk_comes_to_each<R: Releasable>(
    requested: bool,
    entries: Seq<R::Weak>,
    worlds: Seq<R::World>,
) -> (strongs: Seq<Option<R>>)
    requires
        is_walk::<R>(requested, entries, worlds),
    ensures
        comes_to_each(requested, entries, worlds, strongs),
{
    let strongs = Seq::new(
        entries.len(),
        |i: int|
            choose|strong: Option<R>| #[trigger]
                R::upgrades(entries[i], worlds[i], strong) && lifecycle::released_if_alive(
                    requested,
                    strong,
                    worlds[i],
                    worlds[i + 1],
                ),
    );
    assert forall|i: int| 0 <= i < entries.len() implies {
        &&& R::upgrades(entries[i], worlds[i], #[trigger] strongs[i])
        &&& strongs[i] is Some ==> strongs[i]->0.releases(requested, worlds[i], worlds[i + 1])
        &&& strongs[i] is None ==> worlds[i + 1] == worlds[i]
    } by {
        assert(visits::<R>(requested, entries[i], worlds[i], worlds[i + 1]));
    }
    strongs
}

/// A walk comes to every one of its entries, with the flag that it was made under.
pub proof fn law_walk_comes_to_every_entry<R: Releasable>(
    walk: ShutdownWalk<R::Weak>,
    world: &mut R::World,
)
    requires
        call_ensures(lifecycle::release_entries::<R>, (walk, world), ()),
    ensures
        exists|worlds: Seq<R::World>, strongs: Seq<Option<R>>|
            {
                &&& #[trigger] comes_to_each::<R>(walk@.requested, walk@.entries, worlds, strongs)
                &&& worlds[0] == *old(world)
                &&& worlds.last() == *final(world)
            },
{
    let worlds = choose|worlds: Seq<R::World>| #[trigger]
        is_walk::<R>(walk@.requested, walk@.entries, worlds) && worlds.first() == *old(world)
            && worlds.last() == *final(world);
    let strongs = lemma_walk_comes_to_each::<R>(walk@.requested, walk@.entries, worlds);
    assert(comes_to_each::<R>(walk@.requested, walk@.entries, worlds, strongs));
}

/// A signal comes to every entry of the registry, with the flag set, and leaves the registry
/// empty.
pub proof fn law_signal_comes_to_every_entry<R: Releasable>(
    lifecycle: &mut Lifecycle<R::Weak>,
    world: &mut R::World,
)
    requires
        call_ensures(lifecycle::signal_shutdown_requested::<R>, (lifecycle, world), ()),
    ensures
        final(lifecycle)@.requested,
        final(lifecycle)@.registry.len() == 0,
        exists|worlds: Seq<R::World>, strongs: Seq<Option<R>>|
            {
                &&& #[trigger] comes_to_each::<R>(true, old(lifecycle)@.registry, worlds, strongs)
                &&& worlds[0] == *old(world)
                &&& worlds.last() == *final(world)
            },
{
    let entries = old(lifecycle)@.registry;
    let worlds = choose|worlds: Seq<R::World>| #[trigger]
        is_walk::<R>(true, entries, worlds) && worlds.first() == *old(world) && worlds.last()
            == *final(world);
    let strongs = lemma_walk_comes_to_each::<R>(true, entries, worlds);
    assert(comes_to_each::<R>(true, entries, worlds, strongs));
}

/// Whether `log` keeps book of the releases: a release adds its resource, and what the shutdown
/// flag read, behind what is there.
pub open spec fn keeps_book<R: Releasable>(log: spec_fn(R::World) -> Seq<(R, bool)>) -> bool {
    forall|resource: R, requested: bool, before: R::World, after: R::World| #[trigger]
        resource.releases(requested, before, after) ==> log(after) == log(before).push(
            (resource, requested),
        )
}

/// Whether `live` tells what the upgrade of an entry finds.
pub open spec fn tells_the_living<R: Releasable>(live: spec_fn(R::Weak) -> Option<R>) -> bool {
    forall|weak: R::Weak, world: R::World, strong: Option<R>| #[trigger]
        R::upgrades(weak, world, strong) ==> strong == live(weak)
}

/// Where a book is kept of the releases and entries live or are dead throughout, a walk adds to
/// the book all living resources, each once, in the order of their entries, and nothing else.
pub proof fn law_walk_releases_all_the_living<R: Releasable>(
    walk: ShutdownWalk<R::Weak>,
    world: &mut R::World,
    live: spec_fn(R::Weak) -> Option<R>,
    log: spec_fn(R::World) -> Seq<(R, bool)>,
)
    requires
        call_ensures(lifecycle::release_entries::<R>, (walk, world), ()),
        tells_the_living::<R>(live),
        keeps_book::<R>(log),
    ensures
        log(*final(world)) == log(*old(world)) + walk@.entries.filter(
            |weak: R::Weak| live(weak) is Some,
        ).map_values(|weak: R::Weak| (live(weak)->0, walk@.requested)),
{
    let worlds = choose|worlds: Seq<R::World>| #[trigger]
        is_walk::<R>(walk@.requested, walk@.entries, worlds) && worlds.first() == *old(world)
            && worlds.last() == *final(world);
    lemma_walk_fills_the_book(
        walk@.requested,
        walk@.entries,
        worlds,
        live,
        log,
        walk@.entries.len() as int,
    );
    assert(walk@.entries.take(walk@.entries.len() as int) == walk@.entries);
}

/// What the first `n` visits of a walk add to the book.
proof fn lemma_walk_fills_the_book<R: Releasable>(
    requested: bool,
    entries: Seq<R::Weak>,
    worlds: Seq<R::World>,
    live: spec_fn(R::Weak) -> Option<R>,
    log: spec_fn(R::World) -> Seq<(R, bool)>,
    n: int,
)
    requires
        is_walk::<R>(requested, entries, worlds),
        tells_the_living::<R>(live),
        keeps_book::<R>(log),
        0 <= n <= entries.len(),
    ensures
        log(worlds[n]) == log(worlds[0]) + entries.take(n).filter(
            |weak: R::Weak| live(weak) is Some,
        ).map_values(|weak: R::Weak| (live(weak)->0, requested)),
    decreases n,
{
    let alive = |weak: R::Weak| live(weak) is Some;
    let entry = |weak: R::Weak| (live(weak)->0, requested);
    reveal(Seq::filter);
    if n == 0 {
        assert(entries.take(0).filter(alive).map_values(entry) == Seq::<(R, bool)>::empty());
    } else {
        lemma_walk_fills_the_book(requested, entries, worlds, live, log, n - 1);
        let earlier = entries.take(n - 1);
        let weak = entries[n - 1];
        assert(entries.take(n).drop_last() == earlier);
        assert(entries.take(n).last() == weak);
        assert(visits::<R>(requested, weak, worlds[n - 1], worlds[n]));
        if live(weak) is Some {
            assert(entries.take(n).filter(alive) == earlier.filter(alive).push(weak));
            assert(entries.take(n).filter(alive).map_values(entry) == earlier.filter(
                alive,
            ).map_values(entry).push(entry(weak)));
        }
    }
}

/// Where a book is kept of the releases and entries live or are dead throughout, a signal adds
/// to the book all living resources of the registry, each once, in the order of their
/// registration, with the flag set, and nothing else. Then the process is shut down and the
/// registry is empty.
pub proof fn law_signal_releases_all_the_living<R: Releasable>(
    lifecycle: &mut Lifecycle<R::Weak>,
    world: &mut R::World,
    live: spec_fn(R::Weak) -> Option<R>,
    log: spec_fn(R::World) -> Seq<(R, bool)>,
    requested: bool,
)
    requires
        call_ensures(lifecycle::signal_shutdown_requested::<R>, (lifecycle, world), ()),
        call_ensures(
            lifecycle::shutdown_requested::<R::Weak>,
            (&*final(lifecycle),),
            requested,
        ),
        tells_the_living::<R>(live),
        keeps_book::<R>(log),
    ensures
        requested,
        final(lifecycle)@.registry.len() == 0,
        log(*final(world)) == log(*old(world)) + old(lifecycle)@.registry.filter(
            |weak: R::Weak| live(weak) is Some,
        ).map_values(|weak: R::Weak| (live(weak)->0, true)),
{
    let entries = old(lifecycle)@.registry;
    let worlds = choose|worlds: Seq<R::World>| #[trigger]
        is_walk::<R>(true, entries, worlds) && worlds.first() == *old(world) && worlds.last()
            == *final(world);
    lemma_walk_fills_the_book(true, entries, worlds, live, log, entries.len() as int);
    assert(entries.take(entries.len() as int) == entries);
}

/// The same of a signal whose releases can come back to the registry: the book gets all living
/// resources that were registered before the signal, whatever is registered meanwhile.
pub proof fn law_reentrant_signal_releases_all_the_living<
    W,
    S,
    R: Releasable<Weak = W, World = Process<W, S>>,
>(
    process: &mut Process<W, S>,
    live: spec_fn(W) -> Option<R>,
    log: spec_fn(Process<W, S>) -> Seq<(R, bool)>,
)
    requires
        call_ensures(lifecycle::signal_shutdown_reentrant::<W, S, R>, (process,), ()),
        tells_the_living::<R>(live),
        keeps_book::<R>(log),
        forall|a: Process<W, S>, b: Process<W, S>|
            #![trigger log(a), log(b)]
            a.rest == b.rest ==> log(a) == log(b),
    ensures
        log(*final(process)) == log(*old(process)) + old(process).lifecycle@.registry.filter(
            |weak: W| live(weak) is Some,
        ).map_values(|weak: W| (live(weak)->0, true)),
{
    let entries = old(process).lifecycle@.registry;
    let start = choose|start: Process<W, S>|
        {
            &&& start.lifecycle@ == old(process).lifecycle@.signalled()
            &&& start.rest == old(process).rest
            &&& #[trigger] lifecycle::walks::<R>(true, entries, start, *final(process))
        };
    let worlds = choose|worlds: Seq<Process<W, S>>| #[trigger]
        is_walk::<R>(true, entries, worlds) && worlds.first() == start && worlds.last()
            == *final(process);
    lemma_walk_fills_the_book::<R>(true, entries, worlds, live, log, entries.len() as int);
    assert(entries.take(entries.len() as int) == entries);
    assert(log(start) == log(*old(process)));
}

/// A signal whose releases can come back to the registry begins its walk with the flag set, the
/// registry empty and all else as it was, and comes from there to every entry that was
/// registered.
pub proof fn law_reentrant_walk_begins_after_the_signal<
    W,
    S,
    R: Releasable<Weak = W, World = Process<W, S>>,
>(process: &mut Process<W, S>)
    requires
        call_ensures(lifecycle::signal_shutdown_reentrant::<W, S, R>, (process,), ()),
    ensures
        exists|worlds: Seq<Process<W, S>>, strongs: Seq<Option<R>>|
            {
                &&& #[trigger] comes_to_each::<R>(
                    true,
                    old(process).lifecycle@.registry,
                    worlds,
                    strongs,
                )
                &&& worlds[0].lifecycle@.requested
                &&& worlds[0].lifecycle@.registry.len() == 0
                &&& worlds[0].rest == old(process).rest
                &&& worlds.last() == *final(process)
            },
{
    let entries = old(process).lifecycle@.registry;
    let start = choose|start: Process<W, S>|
        {
            &&& start.lifecycle@ == old(process).lifecycle@.signalled()
            &&& start.rest == old(process).rest
            &&& #[trigger] lifecycle::walks::<R>(true, entries, start, *final(process))
        };
    let worlds = choose|worlds: Seq<Process<W, S>>| #[trigger]
        is_walk::<R>(true, entries, worlds) && worlds.first() == start && worlds.last()
            == *final(process);
    let strongs = lemma_walk_comes_to_each::<R>(true, entries, worlds);
    assert(comes_to_each::<R>(true, entries, worlds, strongs));
}

} // verus!
