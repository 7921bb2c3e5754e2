//! What the calls do to the runtime, and what the protocols therefore keep.
//!
//! [`Runtime`] is the part of the runtime's state that promises hold on to. The laws below are
//! about the calls that the contracts of [`crate::async_work`] and [`crate::promise`] speak of,
//! made on such a state.
use crate::async_work;
use crate::async_work::{AsyncWork, Completion, Launching, Run, RunStep, Task};
use crate::call::{Call, CallMode, Env, Handle, ReleaseMode, Reply, NULL};
use crate::lifecycle::{law_requested_iff_signalled, lifecycle_after, Event};
use crate::promise;
use crate::promise::{Callback, Create, CreateStep, FuturePromise, TSFNValue};
use crate::settlement::{hook_calls, unpin_calls};
use crate::status::{Error, Status};
use vstd::prelude::*;

verus! {

/// What promises hold of the runtime.
#[verifier::ext_equal]
pub struct Runtime {
    /// The deferreds that have not been settled.
    pub pending: Set<Handle>,
    /// The references, with their counts. A value is kept from collection by a reference whose
    /// count is not zero.
    pub refs: Map<Handle, int>,
    /// The registered cleanup hooks, by their data, with the flags that they set.
    pub hooks: Map<Handle, Handle>,
    /// The flags of cleanup hooks, with what they read.
    pub flags: Map<Handle, bool>,
    /// The allocated data of cleanup hooks.
    pub hook_data: Set<Handle>,
    /// The async works that have not been deleted.
    pub works: Set<Handle>,
    /// The thread-safe functions, with the number of threads that use them.
    pub tsfns: Map<Handle, int>,
}

impl Runtime {
    /// After a call that returned `reply`. A call that failed has changed nothing, but the data
    /// of a refused cleanup hook has been allocated.
    pub open spec fn after(self, call: Call, reply: Reply) -> Runtime {
        if reply.status == Status::Success {
            self.with(call, reply)
        } else if call is AddEnvCleanupHook {
            Runtime { hook_data: self.hook_data.insert(reply.first), ..self }
        } else {
            self
        }
    }

    /// After a call that succeeded with `reply`.
    pub open spec fn with(self, call: Call, reply: Reply) -> Runtime {
        match call {
            Call::CreatePromise { .. } => Runtime {
                pending: self.pending.insert(reply.first),
                ..self
            },
            Call::CreateReference { initial_refcount, .. } => Runtime {
                refs: self.refs.insert(reply.first, initial_refcount as int),
                ..self
            },
            Call::CreateFlag { initial } => Runtime {
                flags: self.flags.insert(reply.first, initial),
                ..self
            },
            Call::AddEnvCleanupHook { flag, .. } => Runtime {
                hooks: self.hooks.insert(reply.first, flag),
                hook_data: self.hook_data.insert(reply.first),
                ..self
            },
            Call::CreateAsyncWork { .. } => Runtime {
                works: self.works.insert(reply.first),
                ..self
            },
            Call::CreateThreadsafeFunction { initial_thread_count, .. } => Runtime {
                tsfns: self.tsfns.insert(reply.first, initial_thread_count as int),
                ..self
            },
            _ => self.without(call),
        }
    }

    /// After a call that succeeded and takes nothing new.
    pub open spec fn without(self, call: Call) -> Runtime {
        match call {
            Call::RemoveEnvCleanupHook { data, .. } => Runtime {
                hooks: self.hooks.remove(data),
                ..self
            },
            Call::FreeHookData { data } => Runtime {
                hook_data: self.hook_data.remove(data),
                ..self
            },
            Call::ResolveDeferred { deferred, .. } => Runtime {
                pending: self.pending.remove(deferred),
                ..self
            },
            Call::RejectDeferred { deferred, .. } => Runtime {
                pending: self.pending.remove(deferred),
                ..self
            },
            Call::DeleteAsyncWork { work, .. } => Runtime {
                works: self.works.remove(work),
                ..self
            },
            Call::ReferenceUnref { reference, .. } => Runtime {
                refs: self.refs.insert(reference, self.refs[reference] - 1),
                ..self
            },
            Call::ReleaseThreadsafeFunction { tsfn, .. } => Runtime {
                tsfns: self.tsfns.insert(tsfn, self.tsfns[tsfn] - 1),
                ..self
            },
            _ => self,
        }
    }

    /// Whether a call finds what it works on: it settles a deferred that is pending, frees hook
    /// data that is allocated and that no hook will free again, and so on.
    pub open spec fn permits(self, call: Call) -> bool {
        match call {
            Call::RemoveEnvCleanupHook { data, .. } => self.hooks.contains_key(data),
            Call::FreeHookData { data } => {
                self.hook_data.contains(data) && !self.hooks.contains_key(data)
            },
            Call::ResolveDeferred { deferred, .. } => self.pending.contains(deferred),
            Call::RejectDeferred { deferred, .. } => self.pending.contains(deferred),
            Call::QueueAsyncWork { work, .. } => self.works.contains(work),
            Call::CancelAsyncWork { work, .. } => self.works.contains(work),
            Call::DeleteAsyncWork { work, .. } => self.works.contains(work),
            Call::ReferenceUnref { reference, .. } => {
                self.refs.contains_key(reference) && self.refs[reference] > 0
            },
            Call::CallThreadsafeFunction { tsfn, .. } => {
                self.tsfns.contains_key(tsfn) && self.tsfns[tsfn] > 0
            },
            Call::ReleaseThreadsafeFunction { tsfn, .. } => {
                self.tsfns.contains_key(tsfn) && self.tsfns[tsfn] > 0
            },
            _ => true,
        }
    }

    /// After `calls`, in order, which succeeded and none of which takes anything new.
    pub open spec fn without_all(self, calls: Seq<Call>) -> Runtime
        decreases calls.len(),
    {
        if calls.len() == 0 {
            self
        } else {
            self.without_all(calls.drop_last()).without(calls.last())
        }
    }

    /// Whether each of `calls`, made in order, finds what it works on.
    pub open spec fn permits_all(self, calls: Seq<Call>) -> bool {
        forall|i: int|
            0 <= i < calls.len() ==> self.without_all(calls.take(i)).permits(#[trigger] calls[i])
    }

    /// Whether a registered hook sets `flag`.
    pub open spec fn is_set_by_a_hook(self, flag: Handle) -> bool {
        exists|data: Handle| #[trigger]
            self.hooks.contains_key(data) && self.hooks[data] == flag
    }

    /// After the end of the environment: every hook that is registered runs, sets its flag and
    /// frees its data.
    pub open spec fn hooks_run(self) -> Runtime {
        Runtime {
            hooks: Map::empty(),
            flags: Map::new(
                |flag: Handle| self.flags.contains_key(flag),
                |flag: Handle| self.flags[flag] || self.is_set_by_a_hook(flag),
            ),
            hook_data: self.hook_data.difference(self.hooks.dom()),
            ..self
        }
    }

    /// Whether the cleanup hook with `data` is registered and sets `flag`, which is not set.
    pub open spec fn is_hooked(self, flag: Handle, data: Handle) -> bool {
        &&& data != NULL
        &&& self.hooks.contains_key(data)
        &&& self.hooks[data] == flag
        &&& self.hook_data.contains(data)
        &&& self.flags.contains_key(flag)
        &&& !self.flags[flag]
    }

    /// Whether a promise under way holds these: an unsettled deferred, a pin, and a cleanup
    /// hook with its flag.
    pub open spec fn holds(
        self,
        deferred: Handle,
        promise_ref: Handle,
        flag: Handle,
        data: Handle,
    ) -> bool {
        &&& promise_ref != NULL
        &&& self.pending.contains(deferred)
        &&& self.refs.contains_key(promise_ref)
        &&& self.refs[promise_ref] == 1
        &&& self.is_hooked(flag, data)
    }
}

/// Whether a call settles a deferred.
pub open spec fn settles(call: Call) -> bool {
    call is ResolveDeferred || call is RejectDeferred
}

/// Calls made one after the other are made in order.
proof fn lemma_without_push(runtime: Runtime, calls: Seq<Call>, call: Call)
    ensures
        runtime.without_all(calls.push(call)) == runtime.without_all(calls).without(call),
        runtime.permits_all(calls) && runtime.without_all(calls).permits(call)
            ==> runtime.permits_all(calls.push(call)),
{
    let all = calls.push(call);
    assert(all.drop_last() == calls);
    if runtime.permits_all(calls) && runtime.without_all(calls).permits(call) {
        assert forall|i: int| 0 <= i < all.len() implies runtime.without_all(
            all.take(i),
        ).permits(#[trigger] all[i]) by {
            if i < calls.len() {
                assert(all.take(i) == calls.take(i));
                assert(all[i] == calls[i]);
            } else {
                assert(all.take(i) == calls);
            }
        }
    }
}

/// The call that a step of a task on its way asks for.
pub open spec fn run_call<'env, T: Task>(step: RunStep<'env, T>) -> Call {
    match step {
        RunStep::Call { call, .. } => call,
        RunStep::Launch { call, .. } => call,
        RunStep::Failed { .. } => arbitrary(),
    }
}

/// Where a task on its way is after `replies` with which the protocol goes on.
pub open spec fn run_step<'env, T: Task>(
    env: &'env Env,
    task: T,
    replies: Seq<Reply>,
) -> RunStep<'env, T>
    decreases replies.len(),
{
    if replies.len() == 0 {
        RunStep::Call {
            call: Call::CreateObject { env: *env },
            next: Run::Resource { env, task },
        }
    } else {
        match run_step(env, task, replies.drop_last()) {
            RunStep::Call { next, .. } => next.advanced(replies.last()),
            step => step,
        }
    }
}

/// What the calls of a task on its way do to the runtime, given their replies.
pub open spec fn run_effect<T: Task>(
    runtime: Runtime,
    env: &Env,
    task: T,
    replies: Seq<Reply>,
) -> Runtime
    decreases replies.len(),
{
    if replies.len() == 0 {
        runtime
    } else {
        let earlier = replies.drop_last();
        run_effect(runtime, env, task, earlier).after(
            run_call(run_step(env, task, earlier)),
            replies.last(),
        )
    }
}

/// A task that is handed to the thread pool makes these calls, in this order: create a
/// resource, a promise, a name, a pin with a count of one on that promise, a flag that is not
/// set, a cleanup hook that sets that flag, and the async work for that resource under that
/// name. The work it becomes holds the task, the deferred of that promise, the pin, the flag
/// and the hook, and has computed nothing.
pub proof fn law_run_transcript<T: Task>(env: &Env, task: T, replies: Seq<Reply>)
    requires
        replies.len() == 6,
    ensures
        run_call(run_step(env, task, replies.take(0))) == (Call::CreateObject { env: *env }),
        run_call(run_step(env, task, replies.take(1))) == (Call::CreatePromise { env: *env }),
        run_call(run_step(env, task, replies.take(2))) == (Call::CreateString {
            env: *env,
            text: "napi_rs_async_work",
        }),
        run_call(run_step(env, task, replies.take(3))) == (Call::CreateReference {
            env: *env,
            value: replies[1].second,
            initial_refcount: 1,
        }),
        run_call(run_step(env, task, replies.take(4))) == (Call::CreateFlag { initial: false }),
        run_call(run_step(env, task, replies.take(5))) == (Call::AddEnvCleanupHook {
            env: *env,
            flag: replies[4].first,
        }),
        run_step(env, task, replies) == (RunStep::Launch {
            call: Call::CreateAsyncWork {
                env: *env,
                resource: replies[0].first,
                name: replies[2].first,
            },
            work: AsyncWork {
                inner_task: task,
                deferred: replies[1].first,
                value: None,
                napi_async_work: NULL,
                env_tearing_down: replies[4].first,
                cleanup_hook_data: replies[5].first,
                promise_ref: replies[3].first,
            },
            launching: Launching { env, promise: replies[1].second },
        }),
{
    reveal_with_fuel(run_step, 2);
    assert(replies.take(0).len() == 0);
    assert(replies.take(1).drop_last() == replies.take(0));
    assert(replies.take(2).drop_last() == replies.take(1));
    assert(replies.take(3).drop_last() == replies.take(2));
    assert(replies.take(4).drop_last() == replies.take(3));
    assert(replies.take(5).drop_last() == replies.take(4));
    assert(replies.drop_last() == replies.take(5));
}

/// However far a task gets on its way to the thread pool, it stays as it was: none of its
/// methods is called, and it is neither lost nor exchanged.
pub proof fn law_run_keeps_its_task<T: Task>(env: &Env, task: T, replies: Seq<Reply>)
    ensures
        match run_step(env, task, replies) {
            RunStep::Call { next, .. } => next.task() == task,
            RunStep::Launch { work, .. } => work.inner_task == task && work.value is None,
            RunStep::Failed { .. } => false,
        },
    decreases replies.len(),
{
    if replies.len() > 0 {
        law_run_keeps_its_task(env, task, replies.drop_last());
    }
}

/// A task that reaches the thread pool has taken a deferred, a pin with a count of one, a flag
/// that is not set, a cleanup hook that sets it, and an async work, and nothing else. Where
/// the runtime refused the hook, only the hook is missing.
pub proof fn law_run_takes<T: Task>(runtime: Runtime, env: &Env, task: T, replies: Seq<Reply>)
    requires
        replies.len() == 7,
        forall|i: int|
            0 <= i < 7 && i != 5 ==> (#[trigger] replies[i]).status == Status::Success,
    ensures
        run_effect(runtime, env, task, replies) == (Runtime {
            pending: runtime.pending.insert(replies[1].first),
            refs: runtime.refs.insert(replies[3].first, 1),
            flags: runtime.flags.insert(replies[4].first, false),
            hooks: if replies[5].status == Status::Success {
                runtime.hooks.insert(replies[5].first, replies[4].first)
            } else {
                runtime.hooks
            },
            hook_data: runtime.hook_data.insert(replies[5].first),
            works: runtime.works.insert(replies[6].first),
            ..runtime
        }),
{
    let six = replies.take(6);
    law_run_transcript(env, task, six);
    assert(replies.drop_last() == six);
    assert(six.drop_last() == six.take(5));
    assert(six.take(5).drop_last() == six.take(4));
    assert(six.take(4).drop_last() == six.take(3));
    assert(six.take(3).drop_last() == six.take(2));
    assert(six.take(2).drop_last() == six.take(1));
    assert(six.take(1).drop_last() == six.take(0));
    let effect = |n: int| run_effect(runtime, env, task, six.take(n));
    let with_promise = Runtime { pending: runtime.pending.insert(replies[1].first), ..runtime };
    let with_pin = Runtime { refs: runtime.refs.insert(replies[3].first, 1), ..with_promise };
    let with_flag = Runtime {
        flags: runtime.flags.insert(replies[4].first, false),
        ..with_pin
    };
    assert(effect(0) == runtime);
    assert(effect(1) == runtime);
    assert(effect(2) == with_promise);
    assert(effect(3) == with_promise);
    assert(effect(4) == with_pin);
    assert(effect(5) == with_flag);
    assert(run_effect(runtime, env, task, six) == with_flag.after(
        Call::AddEnvCleanupHook { env: *env, flag: replies[4].first },
        replies[5],
    ));
}

/// The calls that end a work: those before its task is asked for the value, then `last`.
pub open spec fn completion_calls<T: Task>(env: Env, work: AsyncWork<T>, last: Seq<Call>) -> Seq<
    Call,
> {
    hook_calls(env, work.cleanup_hook_data) + last
}

/// What is left to settle of `work`, which the runtime reported done with `status`.
pub open spec fn settling<T: Task>(
    env: Env,
    status: Status,
    work: AsyncWork<T>,
) -> async_work::Settling {
    async_work::Settling {
        env,
        status,
        deferred: work.deferred,
        napi_async_work: work.napi_async_work,
        promise_ref: work.promise_ref,
    }
}

/// A work that is not abandoned gives back all that it took: its calls find what they work on,
/// and after them the deferred is settled, the pin has a count of zero, the cleanup hook is
/// gone together with its data, and the async work is deleted. Nothing else has changed.
pub proof fn law_completion_gives_back<T: Task>(
    runtime: Runtime,
    env: Env,
    status: Status,
    work: AsyncWork<T>,
    value: Result<Handle, Error>,
    last: Seq<Call>,
)
    requires
        runtime.holds(
            work.deferred,
            work.promise_ref,
            work.env_tearing_down,
            work.cleanup_hook_data,
        ),
        runtime.works.contains(work.napi_async_work),
        settling(env, status, work).ends(value, last),
    ensures
        runtime.permits_all(completion_calls(env, work, last)),
        runtime.without_all(completion_calls(env, work, last)) == (Runtime {
            pending: runtime.pending.remove(work.deferred),
            refs: runtime.refs.insert(work.promise_ref, 0),
            hooks: runtime.hooks.remove(work.cleanup_hook_data),
            hook_data: runtime.hook_data.remove(work.cleanup_hook_data),
            works: runtime.works.remove(work.napi_async_work),
            ..runtime
        }),
{
    let none = Seq::<Call>::empty();
    let hook = hook_calls(env, work.cleanup_hook_data);
    let unpin = unpin_calls(env, work.promise_ref);
    assert(last.skip(2).len() == 1);
    assert(last[2] == last.skip(2)[0]);
    let one = none.push(hook[0]);
    let two = one.push(hook[1]);
    let three = two.push(last[0]);
    let four = three.push(last[1]);
    let five = four.push(unpin[0]);
    assert(completion_calls(env, work, last) == five);
    lemma_without_push(runtime, none, hook[0]);
    lemma_without_push(runtime, one, hook[1]);
    lemma_without_push(runtime, two, last[0]);
    lemma_without_push(runtime, three, last[1]);
    lemma_without_push(runtime, four, unpin[0]);
}

/// A work that is handed to the thread pool and completes leaves the runtime as it was before,
/// but for one reference with a count of zero, and the flag, which goes with the work.
pub proof fn law_run_and_completion_leave_an_empty_reference<T: Task>(
    runtime: Runtime,
    env: &Env,
    task: T,
    replies: Seq<Reply>,
    status: Status,
    work: AsyncWork<T>,
    value: Result<Handle, Error>,
    last: Seq<Call>,
)
    requires
        replies.len() == 7,
        forall|i: int| 0 <= i < 7 ==> (#[trigger] replies[i]).status == Status::Success,
        !runtime.pending.contains(replies[1].first),
        replies[3].first != NULL,
        replies[5].first != NULL,
        !runtime.hooks.contains_key(replies[5].first),
        !runtime.hook_data.contains(replies[5].first),
        !runtime.works.contains(replies[6].first),
        work.deferred == replies[1].first,
        work.promise_ref == replies[3].first,
        work.env_tearing_down == replies[4].first,
        work.cleanup_hook_data == replies[5].first,
        work.napi_async_work == replies[6].first,
        settling(*env, status, work).ends(value, last),
    ensures
        run_effect(runtime, env, task, replies).permits_all(completion_calls(*env, work, last)),
        run_effect(runtime, env, task, replies).without_all(completion_calls(*env, work, last))
            == (Runtime {
            refs: runtime.refs.insert(replies[3].first, 0),
            flags: runtime.flags.insert(replies[4].first, false),
            ..runtime
        }),
{
    law_run_takes(runtime, env, task, replies);
    law_completion_gives_back(
        run_effect(runtime, env, task, replies),
        *env,
        status,
        work,
        value,
        last,
    );
}

/// The calls that end a work settle its deferred once, whatever else there is to give back,
/// and the pin still holds the promise when they do.
pub proof fn law_work_settles_once_while_pinned<T: Task>(
    runtime: Runtime,
    env: Env,
    status: Status,
    work: AsyncWork<T>,
    value: Result<Handle, Error>,
    last: Seq<Call>,
)
    requires
        settling(env, status, work).ends(value, last),
    ensures
        forall|i: int|
            0 <= i < completion_calls(env, work, last).len() ==> (settles(
                #[trigger] completion_calls(env, work, last)[i],
            ) <==> i == hook_calls(env, work.cleanup_hook_data).len()),
        runtime.without_all(
            completion_calls(env, work, last).take(
                hook_calls(env, work.cleanup_hook_data).len() as int,
            ),
        ).refs == runtime.refs,
{
    let hook = hook_calls(env, work.cleanup_hook_data);
    let all = completion_calls(env, work, last);
    assert forall|i: int| 0 <= i < all.len() implies (settles(#[trigger] all[i]) <==> i
        == hook.len()) by {
        let k = i - hook.len();
        if k < 0 {
            assert(all[i] == hook[i]);
        } else if k >= 2 {
            assert(last.skip(2).len() == last.len() - 2);
            assert(all[i] == last.skip(2)[k - 2]);
        } else {
            assert(all[i] == last[k]);
        }
    }
    assert(all.take(hook.len() as int) == hook);
    lemma_hook_calls_keep_refs(runtime, env, work.cleanup_hook_data);
}

/// To take back a cleanup hook touches no reference.
proof fn lemma_hook_calls_keep_refs(runtime: Runtime, env: Env, data: Handle)
    ensures
        runtime.without_all(hook_calls(env, data)).refs == runtime.refs,
{
    if data != NULL {
        let hook = hook_calls(env, data);
        assert(hook == Seq::<Call>::empty().push(hook[0]).push(hook[1]));
        lemma_without_push(runtime, Seq::<Call>::empty(), hook[0]);
        lemma_without_push(runtime, Seq::<Call>::empty().push(hook[0]), hook[1]);
    }
}

/// The state in which the end of a promise finds the runtime: as it was, or after the end of
/// the environment.
pub open spec fn found(runtime: Runtime, hook_ran: bool) -> Runtime {
    if hook_ran {
        runtime.hooks_run()
    } else {
        runtime
    }
}

/// The part of a promise's end that concerns its cleanup hook.
pub open spec fn hook_end(abandoned: bool, env: Env, data: Handle) -> Seq<Call> {
    if abandoned {
        Seq::empty()
    } else {
        hook_calls(env, data)
    }
}

/// Whether the data of a hook is freed once: by the hook before the promise ends, by the calls
/// that end the promise, or by the hook when the environment ends later, and by one of these
/// only. No call finds something amiss, and when all is over the data is gone.
pub open spec fn freed_once(
    runtime: Runtime,
    hook_ran: bool,
    calls: Seq<Call>,
    data: Handle,
) -> bool {
    let start = found(runtime, hook_ran);
    let end = start.without_all(calls);
    let by_calls = calls.contains(Call::FreeHookData { data });
    let by_hook_later = end.hooks.contains_key(data);
    &&& start.permits_all(calls)
    &&& hook_ran ==> !by_calls && !by_hook_later
    &&& !hook_ran ==> by_calls != by_hook_later
    &&& !end.hooks_run().hook_data.contains(data)
}

/// A flag reads whether its hook has run, and hook data is freed once if a promise whose hook
/// has run is abandoned.
proof fn lemma_freed_once(
    runtime: Runtime,
    hook_ran: bool,
    abandoned: bool,
    env: Env,
    flag: Handle,
    data: Handle,
)
    requires
        runtime.is_hooked(flag, data),
        hook_ran ==> abandoned,
    ensures
        found(runtime, hook_ran).flags[flag] == hook_ran,
        freed_once(runtime, hook_ran, hook_end(abandoned, env, data), data),
{
    assert(runtime.hooks.contains_key(data));
    assert(runtime.is_set_by_a_hook(flag));
    if !abandoned {
        let hook = hook_calls(env, data);
        let none = Seq::<Call>::empty();
        assert(hook == none.push(hook[0]).push(hook[1]));
        lemma_without_push(runtime, none, hook[0]);
        lemma_without_push(runtime, none.push(hook[0]), hook[1]);
        assert(hook[1] == (Call::FreeHookData { data }));
    }
}

/// The flag of a work reads whether its cleanup hook has run. The data of the hook is freed
/// once, in whichever order the work completes and the environment ends, and whether or not
/// shutdown is signalled.
pub proof fn law_work_frees_hook_data_once(
    runtime: Runtime,
    env: Env,
    status: Status,
    flag: Handle,
    data: Handle,
    hook_ran: bool,
    shutdown_requested: bool,
)
    requires
        runtime.is_hooked(flag, data),
    ensures
        found(runtime, hook_ran).flags[flag] == hook_ran,
        freed_once(
            runtime,
            hook_ran,
            hook_end(
                async_work::abandons(
                    status,
                    found(runtime, hook_ran).flags[flag],
                    shutdown_requested,
                ),
                env,
                data,
            ),
            data,
        ),
{
    let abandoned = async_work::abandons(status, hook_ran, shutdown_requested);
    lemma_freed_once(runtime, hook_ran, abandoned, env, flag, data);
}

/// The flag of a future promise reads whether its cleanup hook has run. The data of the hook
/// is freed once, in whichever order the result arrives and the environment ends, and whether
/// or not shutdown is signalled.
pub proof fn law_promise_frees_hook_data_once(
    runtime: Runtime,
    env: Env,
    flag: Handle,
    data: Handle,
    hook_ran: bool,
    shutdown_requested: bool,
)
    requires
        runtime.is_hooked(flag, data),
    ensures
        found(runtime, hook_ran).flags[flag] == hook_ran,
        freed_once(
            runtime,
            hook_ran,
            hook_end(
                promise::abandons(found(runtime, hook_ran).flags[flag], shutdown_requested),
                env,
                data,
            ),
            data,
        ),
{
    let abandoned = promise::abandons(hook_ran, shutdown_requested);
    lemma_freed_once(runtime, hook_ran, abandoned, env, flag, data);
}

/// The data of a hook that the runtime refused is never freed twice: no hook frees it, and the
/// calls that end the promise free it once, when it is still there. Where the promise is
/// abandoned, it is not freed at all.
pub proof fn law_refused_hook_data_is_not_freed_twice(
    runtime: Runtime,
    env: Env,
    data: Handle,
    hook_ran: bool,
    abandoned: bool,
)
    requires
        data != NULL,
        runtime.hook_data.contains(data),
        !runtime.hooks.contains_key(data),
    ensures
        ({
            let start = found(runtime, hook_ran);
            let calls = hook_end(abandoned, env, data);
            let end = start.without_all(calls);
            &&& start.hook_data.contains(data)
            &&& forall|i: int|
                0 <= i < calls.len() ==> (#[trigger] calls[i] == (Call::FreeHookData { data })
                    <==> i == 1)
            &&& !abandoned ==> start.without_all(calls.take(1)).permits(calls[1])
            &&& !end.hooks.contains_key(data)
            &&& end.hook_data.contains(data) <==> abandoned
            &&& end.hooks_run().hook_data.contains(data) <==> abandoned
        }),
{
    let start = found(runtime, hook_ran);
    if !abandoned {
        let hook = hook_calls(env, data);
        let none = Seq::<Call>::empty();
        assert(hook == none.push(hook[0]).push(hook[1]));
        assert(hook.take(1) == none.push(hook[0]));
        lemma_without_push(start, none, hook[0]);
        lemma_without_push(start, none.push(hook[0]), hook[1]);
    }
}

/// Where a promise in the making is after `replies` with which the protocol goes on.
pub open spec fn create_step<F>(
    env: Env,
    raw_deferred: Handle,
    raw_promise: Handle,
    resolver: F,
    replies: Seq<Reply>,
) -> CreateStep<F>
    decreases replies.len(),
{
    if replies.len() == 0 {
        CreateStep::Call {
            call: Call::CreateString { env, text: promise::resource_name() },
            next: Create::Name { env, deferred: raw_deferred, promise: raw_promise, resolver },
        }
    } else {
        match create_step(env, raw_deferred, raw_promise, resolver, replies.drop_last()) {
            CreateStep::Call { next, .. } => next.advanced(replies.last()),
            step => step,
        }
    }
}

/// A promise in the making makes these calls, in this order: create a name, a pin with a count
/// of one on the given promise, a flag that is not set, a cleanup hook that sets that flag. It
/// then holds the given deferred, the pin, the flag and the hook.
pub proof fn law_create_transcript<F>(
    env: Env,
    raw_deferred: Handle,
    raw_promise: Handle,
    resolver: F,
    replies: Seq<Reply>,
)
    requires
        replies.len() == 4,
    ensures
        ({
            let step = |n: int|
                create_step(env, raw_deferred, raw_promise, resolver, replies.take(n));
            &&& step(0) matches CreateStep::Call { call, .. } && call == (Call::CreateString {
                env,
                text: "napi_resolve_promise_from_future",
            })
            &&& step(1) matches CreateStep::Call { call, .. } && call == (Call::CreateReference {
                env,
                value: raw_promise,
                initial_refcount: 1,
            })
            &&& step(2) matches CreateStep::Call { call, .. } && call == (Call::CreateFlag {
                initial: false,
            })
            &&& step(3) matches CreateStep::Call { call, .. } && call
                == (Call::AddEnvCleanupHook { env, flag: replies[2].first })
            &&& step(4) == CreateStep::Created(
                FuturePromise {
                    deferred: raw_deferred,
                    env,
                    tsfn: NULL,
                    async_resource_name: replies[0].first,
                    resolver,
                    env_tearing_down: replies[2].first,
                    cleanup_hook_data: replies[3].first,
                    promise_ref: replies[1].first,
                },
            )
        }),
{
    assert(replies.take(1).drop_last() == replies.take(0));
    assert(replies.take(2).drop_last() == replies.take(1));
    assert(replies.take(3).drop_last() == replies.take(2));
    assert(replies.take(4).drop_last() == replies.take(3));
}

/// What the calls of a promise in the making do to the runtime, given their replies.
pub open spec fn create_effect<F>(
    runtime: Runtime,
    env: Env,
    raw_deferred: Handle,
    raw_promise: Handle,
    resolver: F,
    replies: Seq<Reply>,
) -> Runtime
    decreases replies.len(),
{
    if replies.len() == 0 {
        runtime
    } else {
        let earlier = replies.drop_last();
        let before = create_effect(runtime, env, raw_deferred, raw_promise, resolver, earlier);
        match create_step(env, raw_deferred, raw_promise, resolver, earlier) {
            CreateStep::Call { call, .. } => before.after(call, replies.last()),
            _ => before,
        }
    }
}

/// A promise that has been made has taken a pin with a count of one, a flag that is not set and
/// a cleanup hook that sets it, and nothing else. Where the runtime refused the hook, only the
/// hook is missing.
pub proof fn law_create_takes<F>(
    runtime: Runtime,
    env: Env,
    raw_deferred: Handle,
    raw_promise: Handle,
    resolver: F,
    replies: Seq<Reply>,
)
    requires
        replies.len() == 4,
        forall|i: int| 0 <= i < 3 ==> (#[trigger] replies[i]).status == Status::Success,
    ensures
        create_effect(runtime, env, raw_deferred, raw_promise, resolver, replies) == (Runtime {
            refs: runtime.refs.insert(replies[1].first, 1),
            flags: runtime.flags.insert(replies[2].first, false),
            hooks: if replies[3].status == Status::Success {
                runtime.hooks.insert(replies[3].first, replies[2].first)
            } else {
                runtime.hooks
            },
            hook_data: runtime.hook_data.insert(replies[3].first),
            ..runtime
        }),
{
    law_create_transcript(env, raw_deferred, raw_promise, resolver, replies);
    let effect = |n: int|
        create_effect(runtime, env, raw_deferred, raw_promise, resolver, replies.take(n));
    assert(replies.take(1).drop_last() == replies.take(0));
    assert(replies.take(2).drop_last() == replies.take(1));
    assert(replies.take(3).drop_last() == replies.take(2));
    assert(replies.drop_last() == replies.take(3));
    let with_pin = Runtime { refs: runtime.refs.insert(replies[1].first, 1), ..runtime };
    assert(effect(0) == runtime);
    assert(effect(1) == runtime);
    assert(effect(2) == with_pin);
    assert(effect(3) == (Runtime {
        flags: runtime.flags.insert(replies[2].first, false),
        ..with_pin
    }));
}

/// The calls that end a future promise with `outcome`, from the first to the last.
pub open spec fn callback_calls<F>(
    env: Env,
    promise: FuturePromise<F>,
    outcome: Result<Handle, Error>,
) -> Seq<Call> {
    hook_calls(env, promise.cleanup_hook_data) + (promise::Settling {
        env,
        deferred: promise.deferred,
        promise_ref: promise.promise_ref,
    }).calls(outcome)
}

/// A future promise that is not abandoned gives back all that it took: its calls find what
/// they work on, and after them the deferred is settled, the pin has a count of zero, and the
/// cleanup hook is gone together with its data. Nothing else has changed.
pub proof fn law_callback_gives_back<F>(
    runtime: Runtime,
    env: Env,
    promise: FuturePromise<F>,
    outcome: Result<Handle, Error>,
)
    requires
        runtime.holds(
            promise.deferred,
            promise.promise_ref,
            promise.env_tearing_down,
            promise.cleanup_hook_data,
        ),
    ensures
        runtime.permits_all(callback_calls(env, promise, outcome)),
        runtime.without_all(callback_calls(env, promise, outcome)) == (Runtime {
            pending: runtime.pending.remove(promise.deferred),
            refs: runtime.refs.insert(promise.promise_ref, 0),
            hooks: runtime.hooks.remove(promise.cleanup_hook_data),
            hook_data: runtime.hook_data.remove(promise.cleanup_hook_data),
            ..runtime
        }),
{
    let none = Seq::<Call>::empty();
    let all = callback_calls(env, promise, outcome);
    let one = none.push(all[0]);
    let two = one.push(all[1]);
    let three = two.push(all[2]);
    assert(all == three.push(all[3]));
    lemma_without_push(runtime, none, all[0]);
    lemma_without_push(runtime, one, all[1]);
    lemma_without_push(runtime, two, all[2]);
    lemma_without_push(runtime, three, all[3]);
}

/// A future promise that is made and ends settles the given deferred and leaves the runtime as
/// it was otherwise, but for one reference with a count of zero, and the flag, which goes with
/// the promise.
pub proof fn law_create_and_callback_leave_an_empty_reference<F>(
    runtime: Runtime,
    env: Env,
    raw_promise: Handle,
    replies: Seq<Reply>,
    promise: FuturePromise<F>,
    outcome: Result<Handle, Error>,
)
    requires
        replies.len() == 4,
        forall|i: int| 0 <= i < 4 ==> (#[trigger] replies[i]).status == Status::Success,
        runtime.pending.contains(promise.deferred),
        replies[1].first != NULL,
        replies[3].first != NULL,
        !runtime.hooks.contains_key(replies[3].first),
        !runtime.hook_data.contains(replies[3].first),
        promise.promise_ref == replies[1].first,
        promise.env_tearing_down == replies[2].first,
        promise.cleanup_hook_data == replies[3].first,
    ensures
        ({
            let made = create_effect(
                runtime,
                env,
                promise.deferred,
                raw_promise,
                promise.resolver,
                replies,
            );
            &&& made.permits_all(callback_calls(env, promise, outcome))
            &&& made.without_all(callback_calls(env, promise, outcome)) == (Runtime {
                pending: runtime.pending.remove(promise.deferred),
                refs: runtime.refs.insert(replies[1].first, 0),
                flags: runtime.flags.insert(replies[2].first, false),
                ..runtime
            })
        }),
{
    law_create_takes(
        runtime,
        env,
        promise.deferred,
        raw_promise,
        promise.resolver,
        replies,
    );
    law_callback_gives_back(
        create_effect(
            runtime,
            env,
            promise.deferred,
            raw_promise,
            promise.resolver,
            replies,
        ),
        env,
        promise,
        outcome,
    );
}

/// The calls that end a future promise settle its deferred once, whatever else there is to
/// give back, and the pin still holds the promise when they do.
pub proof fn law_callback_settles_once_while_pinned<F>(
    runtime: Runtime,
    env: Env,
    promise: FuturePromise<F>,
    outcome: Result<Handle, Error>,
)
    ensures
        forall|i: int|
            0 <= i < callback_calls(env, promise, outcome).len() ==> (settles(
                #[trigger] callback_calls(env, promise, outcome)[i],
            ) <==> i == hook_calls(env, promise.cleanup_hook_data).len()),
        runtime.without_all(
            callback_calls(env, promise, outcome).take(
                hook_calls(env, promise.cleanup_hook_data).len() as int,
            ),
        ).refs == runtime.refs,
{
    let hook = hook_calls(env, promise.cleanup_hook_data);
    assert(callback_calls(env, promise, outcome).take(hook.len() as int) == hook);
    lemma_hook_calls_keep_refs(runtime, env, promise.cleanup_hook_data);
}

/// The calls of a delivery whose calls all succeed: hand the result over, give the function up.
pub open spec fn delivery_calls<T>(tsfn_value: TSFNValue, val: Result<T, Error>) -> Seq<Call> {
    let send = promise::delivering(tsfn_value, val);
    let release = send->Send_next.advanced::<T>();
    seq![send->Send_call, release->Call_call]
}

/// A started promise has one use of its thread-safe function. The delivery of a result, value
/// or error alike, calls the function once with that result and then gives the use up.
pub proof fn law_delivery_gives_up_the_function<T, F>(
    runtime: Runtime,
    promise: FuturePromise<F>,
    started: Reply,
    val: Result<T, Error>,
)
    requires
        started.status == Status::Success,
    ensures
        ({
            let tsfn_value = TSFNValue(started.first);
            let send = promise::delivering(tsfn_value, val);
            let release = send->Send_next.advanced::<T>();
            let calls = delivery_calls(tsfn_value, val);
            let open = runtime.after(promise.starting().call, started);
            &&& send->data == val
            &&& release->Call_next.advanced::<T>() is Delivered
            &&& calls == seq![
                Call::CallThreadsafeFunction {
                    tsfn: started.first,
                    call_mode: CallMode::Nonblocking,
                },
                Call::ReleaseThreadsafeFunction {
                    tsfn: started.first,
                    release_mode: ReleaseMode::Release,
                },
            ]
            &&& open.permits_all(calls)
            &&& open.without_all(calls) == (Runtime {
                tsfns: runtime.tsfns.insert(started.first, 0),
                ..runtime
            })
        }),
{
    let open = runtime.after(promise.starting().call, started);
    let calls = delivery_calls(TSFNValue(started.first), val);
    let none = Seq::<Call>::empty();
    assert(calls == none.push(calls[0]).push(calls[1]));
    lemma_without_push(open, none, calls[0]);
    lemma_without_push(open, none.push(calls[0]), calls[1]);
}

/// From the making of a promise to its end: the promise that was made is the context of its
/// thread-safe function, and the result of the future is the data of the one call of that
/// function. Where both arrive and nothing is abandoned, the given deferred, and no other, is
/// settled, once: fulfilled with the value that the resolver makes of the result, else
/// rejected with the error of the resolver or of the future. The pin ends with a count of zero.
pub proof fn law_result_of_the_future_settles_the_given_deferred<
    T,
    F: FnOnce(Env, T) -> Result<Handle, Error>,
>(
    runtime: Runtime,
    env: Env,
    raw_deferred: Handle,
    raw_promise: Handle,
    resolver: F,
    replies: Seq<Reply>,
    started: Reply,
    val: Result<T, Error>,
    outcome: Result<Handle, Error>,
)
    requires
        replies.len() == 4,
        forall|i: int| 0 <= i < 4 ==> (#[trigger] replies[i]).status == Status::Success,
        replies[1].first != NULL,
        replies[3].first != NULL,
        started.status == Status::Success,
        runtime.pending.contains(raw_deferred),
        val matches Ok(v) ==> call_ensures(resolver, (env, v), outcome),
        val matches Err(e) ==> outcome == Err::<Handle, Error>(e),
    ensures
        ({
            let made = create_step(env, raw_deferred, raw_promise, resolver, replies)->Created_0;
            let context = FuturePromise {
                tsfn: started.first,
                ..made.starting().context
            };
            let data = promise::delivering(TSFNValue(started.first), val)->data;
            let rest = promise::resolving(env, context, data);
            let calls = hook_calls(env, context.cleanup_hook_data) + rest.settling.calls(outcome);
            let held = create_effect(
                runtime,
                env,
                raw_deferred,
                raw_promise,
                resolver,
                replies,
            );
            &&& create_step(env, raw_deferred, raw_promise, resolver, replies) is Created
            &&& rest.converts(outcome)
            &&& forall|i: int|
                0 <= i < calls.len() ==> (settles(#[trigger] calls[i]) <==> i == 2)
            &&& calls[2] == (match outcome {
                Ok(value) => Call::ResolveDeferred { env, deferred: raw_deferred, value },
                Err(error) => Call::RejectDeferred { env, deferred: raw_deferred, error },
            })
            &&& held.permits_all(calls)
            &&& held.without_all(calls).refs[replies[1].first] == 0
        }),
{
    law_create_transcript(env, raw_deferred, raw_promise, resolver, replies);
    assert(replies.take(4) == replies);
    law_create_takes(runtime, env, raw_deferred, raw_promise, resolver, replies);
    let made = create_step(env, raw_deferred, raw_promise, resolver, replies)->Created_0;
    let context = FuturePromise { tsfn: started.first, ..made.starting().context };
    let held = create_effect(runtime, env, raw_deferred, raw_promise, resolver, replies);
    law_callback_gives_back(held, env, context, outcome);
    law_callback_settles_once_while_pinned(held, env, context, outcome);
}

/// Once shutdown has been signalled, a work that completes comes back untouched and without a
/// call to make: its task is not asked, and the runtime is left alone, whatever else happens
/// to the lifecycle and whether or not the environment is going.
pub proof fn law_signal_silences_works<W, T: Task>(
    events: Seq<Event<W>>,
    signal: int,
    env: Env,
    status: Status,
    work: AsyncWork<T>,
    env_tearing_down: bool,
    completion: Completion<T>,
)
    requires
        0 <= signal < events.len(),
        events[signal] is Signalled,
        async_work::completes(
            env,
            status,
            work,
            env_tearing_down,
            lifecycle_after(events).requested,
            completion,
        ),
    ensures
        completion == Completion::Abandoned(work),
{
    law_requested_iff_signalled(events);
}

/// Once shutdown has been signalled, a result that arrives comes back untouched with its
/// promise and without a call to make: the resolver is not asked, and the runtime is left
/// alone, whatever else happens to the lifecycle and whether or not the environment is going.
pub proof fn law_signal_silences_promises<W, T, F>(
    events: Seq<Event<W>>,
    signal: int,
    env: Env,
    future_promise: FuturePromise<F>,
    value: Result<T, Error>,
    env_tearing_down: bool,
    callback: Callback<T, F>,
)
    requires
        0 <= signal < events.len(),
        events[signal] is Signalled,
        promise::calls_back(
            env,
            future_promise,
            value,
            env_tearing_down,
            lifecycle_after(events).requested,
            callback,
        ),
    ensures
        callback == (Callback::Abandoned { value, future_promise }),
{
    law_requested_iff_signalled(events);
}

/// A work whose environment has gone comes back untouched and without a call to make, though
/// no shutdown was signalled: the flag that its cleanup hook set decides.
pub proof fn law_teardown_silences_works<T: Task>(
    runtime: Runtime,
    env: Env,
    status: Status,
    work: AsyncWork<T>,
    shutdown_requested: bool,
    completion: Completion<T>,
)
    requires
        runtime.is_hooked(work.env_tearing_down, work.cleanup_hook_data),
        async_work::completes(
            env,
            status,
            work,
            runtime.hooks_run().flags[work.env_tearing_down],
            shutdown_requested,
            completion,
        ),
    ensures
        completion == Completion::Abandoned(work),
{
    assert(runtime.hooks.contains_key(work.cleanup_hook_data));
    assert(runtime.is_set_by_a_hook(work.env_tearing_down));
}

/// A result whose environment has gone comes back untouched with its promise and without a
/// call to make, though no shutdown was signalled: the flag that the promise's cleanup hook
/// set decides.
pub proof fn law_teardown_silences_promises<T, F>(
    runtime: Runtime,
    env: Env,
    future_promise: FuturePromise<F>,
    value: Result<T, Error>,
    shutdown_requested: bool,
    callback: Callback<T, F>,
)
    requires
        runtime.is_hooked(future_promise.env_tearing_down, future_promise.cleanup_hook_data),
        promise::calls_back(
            env,
            future_promise,
            value,
            runtime.hooks_run().flags[future_promise.env_tearing_down],
            shutdown_requested,
            callback,
        ),
    ensures
        callback == (Callback::Abandoned { value, future_promise }),
{
    assert(runtime.hooks.contains_key(future_promise.cleanup_hook_data));
    assert(runtime.is_set_by_a_hook(future_promise.env_tearing_down));
}

} // verus!
