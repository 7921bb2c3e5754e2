//! Tasks that run on the runtime's thread pool and settle a promise when they are done.
use crate::call::{Call, Env, Handle, JsObject, Reply, NULL};
use crate::settlement::{hook_calls, release_hook, settle, settlement, unpin, unpin_calls};
use crate::status::{check_status, Error, Status};
use vstd::prelude::*;

verus! {

/// A unit of work: it computes on a pool thread, and its result is turned into a JavaScript
/// value on the main thread.
///
/// What the three methods do is up to the task. The three relations name it, so that contracts
/// can say which method was called, on what, and what it returned. A task that says nothing of
/// itself has the relations that hold of everything.
pub trait Task: Sized {
    /// What `compute` produces for `resolve`.
    type Output;

    /// `compute` on `before` may leave `after` and return `result`.
    open spec fn computes(before: Self, after: Self, result: Result<Self::Output, Error>) -> bool {
        true
    }

    /// `resolve` on `before` may leave `after` and return `result`.
    open spec fn resolves(
        before: Self,
        after: Self,
        env: Env,
        output: Self::Output,
        result: Result<Handle, Error>,
    ) -> bool {
        true
    }

    /// `reject` on `before` may leave `after` and return `result`.
    open spec fn rejects(
        before: Self,
        after: Self,
        env: Env,
        error: Error,
        result: Result<Handle, Error>,
    ) -> bool {
        true
    }

    /// Does the work. Runs away from the main thread.
    fn compute(&mut self) -> (result: Result<Self::Output, Error>)
        ensures
            Self::computes(*old(self), *final(self), result),
    ;

    /// Turns what was computed into a JavaScript value.
    fn resolve(&mut self, env: Env, output: Self::Output) -> (result: Result<Handle, Error>)
        ensures
            Self::resolves(*old(self), *final(self), env, output, result),
    ;

    /// Answers a failed computation, with a JavaScript value or an error.
    fn reject(&mut self, env: Env, error: Error) -> (result: Result<Handle, Error>)
        ensures
            Self::rejects(*old(self), *final(self), env, error, result),
    ;
}

/// A task under way, with what it holds of the runtime.
pub struct AsyncWork<T: Task> {
    pub inner_task: T,
    pub deferred: Handle,
    /// The result of the computation; none before it has run.
    pub value: Option<Result<T::Output, Error>>,
    /// The async work that drives the computation; null until it has been created.
    pub napi_async_work: Handle,
    /// The flag that the cleanup hook sets when the environment goes.
    pub env_tearing_down: Handle,
    /// The data of the cleanup hook.
    pub cleanup_hook_data: Handle,
    /// A counted reference to the promise. It keeps the promise, and with it what backs the
    /// deferred, from being collected before the deferred is settled.
    pub promise_ref: Handle,
}

/// The promise of a task that was handed to the thread pool.
pub struct AsyncWorkPromise<'env> {
    pub napi_async_work: Handle,
    pub raw_promise: Handle,
    pub env: &'env Env,
}

impl<'env> AsyncWorkPromise<'env> {
    /// The promise as an object.
    pub fn promise_object(&self) -> (object: JsObject)
        ensures
            object == (JsObject { env: *self.env, value: self.raw_promise }),
    {
        JsObject { env: *self.env, value: self.raw_promise }
    }

    /// The call that asks for the work not to be run. Its status, seen through
    /// [`check_status`], tells whether the work was cancelled.
    pub fn cancel(self) -> (call: Call)
        ensures
            call == (Call::CancelAsyncWork { env: *self.env, work: self.napi_async_work }),
    {
        Call::CancelAsyncWork { env: *self.env, work: self.napi_async_work }
    }
}

/// The name under which async works are listed by the runtime.
pub open spec fn work_name() -> &'static str {
    "napi_rs_async_work"
}

/// A task on its way to the thread pool, by the reply that it waits for.
pub enum Run<'env, T> {
    /// The resource object of the async work.
    Resource { env: &'env Env, task: T },
    /// The promise and its deferred.
    Promise { env: &'env Env, task: T, resource: Handle },
    /// The name of the async work.
    Name { env: &'env Env, task: T, resource: Handle, deferred: Handle, promise: Handle },
    /// The reference that pins the promise.
    Pin {
        env: &'env Env,
        task: T,
        resource: Handle,
        deferred: Handle,
        promise: Handle,
        name: Handle,
    },
    /// The flag for the cleanup hook to set.
    Flag {
        env: &'env Env,
        task: T,
        resource: Handle,
        deferred: Handle,
        promise: Handle,
        name: Handle,
        promise_ref: Handle,
    },
    /// The cleanup hook.
    Hook {
        env: &'env Env,
        task: T,
        resource: Handle,
        deferred: Handle,
        promise: Handle,
        name: Handle,
        promise_ref: Handle,
        flag: Handle,
    },
}

/// The next step of a task on its way to the thread pool.
pub enum RunStep<'env, T: Task> {
    /// Make `call`, and give its reply to `next`.
    Call { call: Call, next: Run<'env, T> },
    /// Put `work` where it stays until its completion, make `call` with that place as the
    /// work's data, and give the reply to `launching`.
    Launch { call: Call, work: AsyncWork<T>, launching: Launching<'env> },
    /// A call failed. What was taken so far is not given back; the task is, as it was.
    Failed { error: Error, task: T },
}

/// A task that waits for its async work to be created.
pub struct Launching<'env> {
    pub env: &'env Env,
    pub promise: Handle,
}

/// A task that waits for its async work to be accepted by the thread pool.
pub struct Queueing<'env> {
    pub env: &'env Env,
    pub promise: Handle,
    pub napi_async_work: Handle,
}

/// Starts to hand a task to the thread pool.
pub fn run<'env, T: Task>(env: &'env Env, task: T) -> (step: RunStep<'env, T>)
    ensures
        step == (RunStep::Call {
            call: Call::CreateObject { env: *env },
            next: Run::Resource { env, task },
        }),
{
    RunStep::Call { call: Call::CreateObject { env: *env }, next: Run::Resource { env, task } }
}

impl<'env, T: Task> Run<'env, T> {
    /// Whether the status of the awaited call matters. A flag is always to be had, and the
    /// cleanup hook is not insisted on.
    pub open spec fn checked(self) -> bool {
        self !is Flag && self !is Hook
    }

    /// The task on its way.
    pub open spec fn task(self) -> T {
        match self {
            Run::Resource { task, .. } => task,
            Run::Promise { task, .. } => task,
            Run::Name { task, .. } => task,
            Run::Pin { task, .. } => task,
            Run::Flag { task, .. } => task,
            Run::Hook { task, .. } => task,
        }
    }

    /// The step that follows a reply with which the protocol goes on.
    pub open spec fn advanced(self, reply: Reply) -> RunStep<'env, T> {
        match self {
            Run::Resource { env, task } => RunStep::Call {
                call: Call::CreatePromise { env: *env },
                next: Run::Promise { env, task, resource: reply.first },
            },
            Run::Promise { env, task, resource } => RunStep::Call {
                call: Call::CreateString { env: *env, text: work_name() },
                next: Run::Name {
                    env,
                    task,
                    resource,
                    deferred: reply.first,
                    promise: reply.second,
                },
            },
            Run::Name { env, task, resource, deferred, promise } => RunStep::Call {
                call: Call::CreateReference { env: *env, value: promise, initial_refcount: 1 },
                next: Run::Pin { env, task, resource, deferred, promise, name: reply.first },
            },
            Run::Pin { env, task, resource, deferred, promise, name } => RunStep::Call {
                call: Call::CreateFlag { initial: false },
                next: Run::Flag {
                    env,
                    task,
                    resource,
                    deferred,
                    promise,
                    name,
                    promise_ref: reply.first,
                },
            },
            Run::Flag { env, task, resource, deferred, promise, name, promise_ref } =>
                RunStep::Call {
                call: Call::AddEnvCleanupHook { env: *env, flag: reply.first },
                next: Run::Hook {
                    env,
                    task,
                    resource,
                    deferred,
                    promise,
                    name,
                    promise_ref,
                    flag: reply.first,
                },
            },
            Run::Hook { env, task, resource, deferred, promise, name, promise_ref, flag } =>
                RunStep::Launch {
                call: Call::CreateAsyncWork { env: *env, resource, name },
                work: AsyncWork {
                    inner_task: task,
                    deferred,
                    value: None,
                    napi_async_work: NULL,
                    env_tearing_down: flag,
                    cleanup_hook_data: reply.first,
                    promise_ref,
                },
                launching: Launching { env, promise },
            },
        }
    }

    /// Gives the task back.
    fn into_task(self) -> (task: T)
        ensures
            task == self.task(),
    {
        match self {
            Run::Resource { task, .. } => task,
            Run::Promise { task, .. } => task,
            Run::Name { task, .. } => task,
            Run::Pin { task, .. } => task,
            Run::Flag { task, .. } => task,
            Run::Hook { task, .. } => task,
        }
    }

    /// Takes the reply of the awaited call.
    pub fn reply(self, reply: Reply) -> (step: RunStep<'env, T>)
        ensures
            step is Failed <==> self.checked() && reply.status != Status::Success,
            step matches RunStep::Failed { error, task } ==> {
                &&& error.reports(reply.status)
                &&& task == self.task()
            },
            step !is Failed ==> step == self.advanced(reply),
    {
        let checked: bool = !matches!(self, Run::Flag { .. } | Run::Hook { .. });
        if checked {
            if let Err(error) = check_status(reply.status) {
                return RunStep::Failed { error, task: self.into_task() };
            }
        }
        match self {
            Run::Resource { env, task } => RunStep::Call {
                call: Call::CreatePromise { env: *env },
                next: Run::Promise { env, task, resource: reply.first },
            },
            Run::Promise { env, task, resource } => RunStep::Call {
                call: Call::CreateString { env: *env, text: "napi_rs_async_work" },
                next: Run::Name {
                    env,
                    task,
                    resource,
                    deferred: reply.first,
                    promise: reply.second,
                },
            },
            Run::Name { env, task, resource, deferred, promise } => RunStep::Call {
                call: Call::CreateReference { env: *env, value: promise, initial_refcount: 1 },
                next: Run::Pin { env, task, resource, deferred, promise, name: reply.first },
            },
            Run::Pin { env, task, resource, deferred, promise, name } => RunStep::Call {
                call: Call::CreateFlag { initial: false },
                next: Run::Flag {
                    env,
                    task,
                    resource,
                    deferred,
                    promise,
                    name,
                    promise_ref: reply.first,
                },
            },
            Run::Flag { env, task, resource, deferred, promise, name, promise_ref } =>
                RunStep::Call {
                call: Call::AddEnvCleanupHook { env: *env, flag: reply.first },
                next: Run::Hook {
                    env,
                    task,
                    resource,
                    deferred,
                    promise,
                    name,
                    promise_ref,
                    flag: reply.first,
                },
            },
            Run::Hook { env, task, resource, deferred, promise, name, promise_ref, flag } =>
                RunStep::Launch {
                call: Call::CreateAsyncWork { env: *env, resource, name },
                work: AsyncWork {
                    inner_task: task,
                    deferred,
                    value: None,
                    napi_async_work: NULL,
                    env_tearing_down: flag,
                    cleanup_hook_data: reply.first,
                    promise_ref,
                },
                launching: Launching { env, promise },
            },
        }
    }
}

impl<'env> Launching<'env> {
    /// Takes the reply to the creation of the async work, and notes it in `work`.
    pub fn created<T: Task>(self, work: &mut AsyncWork<T>, reply: Reply) -> (r: Result<
        Queueing<'env>,
        Error,
    >)
        ensures
            r is Ok <==> reply.status == Status::Success,
            r matches Ok(queueing) ==> {
                &&& queueing == (Queueing {
                    env: self.env,
                    promise: self.promise,
                    napi_async_work: reply.first,
                })
                &&& *final(work) == (AsyncWork { napi_async_work: reply.first, ..*old(work) })
            },
            r matches Err(e) ==> e.reports(reply.status) && *final(work) == *old(work),
    {
        match check_status(reply.status) {
            Ok(()) => {
                work.napi_async_work = reply.first;
                Ok(
                    Queueing {
                        env: self.env,
                        promise: self.promise,
                        napi_async_work: work.napi_async_work,
                    },
                )
            },
            Err(e) => Err(e),
        }
    }
}

impl<'env> Queueing<'env> {
    /// The call that hands the async work to the thread pool.
    pub fn call(&self) -> (call: Call)
        ensures
            call == (Call::QueueAsyncWork { env: *self.env, work: self.napi_async_work }),
    {
        Call::QueueAsyncWork { env: *self.env, work: self.napi_async_work }
    }

    /// Takes the reply of the thread pool.
    pub fn queued(self, reply: Reply) -> (r: Result<AsyncWorkPromise<'env>, Error>)
        ensures
            r is Ok <==> reply.status == Status::Success,
            r matches Ok(promise) ==> promise == (AsyncWorkPromise {
                napi_async_work: self.napi_async_work,
                raw_promise: self.promise,
                env: self.env,
            }),
            r matches Err(e) ==> e.reports(reply.status),
    {
        match check_status(reply.status) {
            Ok(()) => Ok(
                AsyncWorkPromise {
                    napi_async_work: self.napi_async_work,
                    raw_promise: self.promise,
                    env: self.env,
                },
            ),
            Err(e) => Err(e),
        }
    }
}

/// Runs the computation of a task and keeps its result, in place of any earlier one.
pub fn execute<T: Task>(work: &mut AsyncWork<T>)
    ensures
        final(work).value matches Some(result) && T::computes(
            old(work).inner_task,
            final(work).inner_task,
            result,
        ),
        *final(work) == (AsyncWork {
            inner_task: final(work).inner_task,
            value: final(work).value,
            ..*old(work)
        }),
{
    let result = work.inner_task.compute();
    work.value = Some(result);
}

/// Whether a completed work is left as it is: it was cancelled, its environment is being torn
/// down, or the process is about to end. Settling the deferred or deleting the async work
/// could then reach into a runtime that is half gone.
pub open spec fn abandons(
    status: Status,
    env_tearing_down: bool,
    shutdown_requested: bool,
) -> bool {
    status == Status::Cancelled || env_tearing_down || shutdown_requested
}

/// What becomes of a completed work.
pub enum Completion<T: Task> {
    /// Drop the work, which is as it was, and make no call: the task is not asked, the promise
    /// stays as it is, and its reference and its cleanup hook are left to the end of the
    /// environment.
    Abandoned(AsyncWork<T>),
    /// Make `calls` in order, then finish with `rest`.
    Proceed { calls: Vec<Call>, rest: Completing<T> },
}

/// A completed work whose promise is still to be settled.
pub struct Completing<T: Task> {
    pub inner_task: T,
    pub value: Result<T::Output, Error>,
    pub settling: Settling,
}

/// What the end of a work takes back from the runtime, once its value is known.
#[derive(Clone, Copy, Debug, PartialEq, Eq, Structural)]
pub struct Settling {
    pub env: Env,
    pub status: Status,
    pub deferred: Handle,
    pub napi_async_work: Handle,
    pub promise_ref: Handle,
}

/// Whether `completion` is what is to become of `work`: it is abandoned untouched, or its
/// cleanup hook is taken back and its promise is left to be settled.
pub open spec fn completes<T: Task>(
    env: Env,
    status: Status,
    work: AsyncWork<T>,
    env_tearing_down: bool,
    shutdown_requested: bool,
    completion: Completion<T>,
) -> bool {
    if abandons(status, env_tearing_down, shutdown_requested) {
        completion == Completion::Abandoned(work)
    } else {
        &&& completion matches Completion::Proceed { calls, rest }
        &&& calls@ == hook_calls(env, work.cleanup_hook_data)
        &&& rest == (Completing {
            inner_task: work.inner_task,
            value: work.value->0,
            settling: Settling {
                env,
                status,
                deferred: work.deferred,
                napi_async_work: work.napi_async_work,
                promise_ref: work.promise_ref,
            },
        })
    }
}

/// Ends a work, on the main thread, with the status under which the runtime reports it done.
///
/// `env_tearing_down` is what the flag of the work's cleanup hook reads, `shutdown_requested`
/// tells whether the shutdown signal has been given.
pub fn complete<T: Task>(
    env: Env,
    status: Status,
    work: AsyncWork<T>,
    env_tearing_down: bool,
    shutdown_requested: bool,
) -> (completion: Completion<T>)
    requires
        abandons(status, env_tearing_down, shutdown_requested) || work.value is Some,
    ensures
        completes(env, status, work, env_tearing_down, shutdown_requested, completion),
{
    let env_tearing_down: bool = env_tearing_down || shutdown_requested;
    if status == Status::Cancelled || env_tearing_down {
        return Completion::Abandoned(work);
    }
    let calls = release_hook(env, work.cleanup_hook_data);
    let settling = Settling {
        env,
        status,
        deferred: work.deferred,
        napi_async_work: work.napi_async_work,
        promise_ref: work.promise_ref,
    };
    let value = work.value.unwrap();
    Completion::Proceed {
        calls,
        rest: Completing { inner_task: work.inner_task, value, settling },
    }
}

impl Settling {
    /// Whether `call` settles the deferred as it should be for `value`: with the value if the
    /// work succeeded, else with an error that reports the work's status.
    pub open spec fn is_settlement(self, value: Result<Handle, Error>, call: Call) -> bool {
        if self.status == Status::Success {
            call == settlement(self.env, self.deferred, value)
        } else {
            &&& call matches Call::RejectDeferred { env, deferred, error }
            &&& env == self.env
            &&& deferred == self.deferred
            &&& error.reports(self.status)
        }
    }

    /// Whether `calls` end the work whose task came up with `value`: settle the deferred,
    /// delete the async work, lift the pin.
    pub open spec fn ends(self, value: Result<Handle, Error>, calls: Seq<Call>) -> bool {
        &&& calls.len() >= 2
        &&& self.is_settlement(value, calls[0])
        &&& calls[1] == (Call::DeleteAsyncWork { env: self.env, work: self.napi_async_work })
        &&& calls.skip(2) == unpin_calls(self.env, self.promise_ref)
    }

    /// Lists the calls that end a work whose task came up with `value`.
    pub fn settle(self, value: Result<Handle, Error>) -> (calls: Vec<Call>)
        ensures
            self.ends(value, calls@),
    {
        let outcome = match check_status(self.status) {
            Ok(()) => value,
            Err(e) => Err(e),
        };
        let mut calls: Vec<Call> = Vec::new();
        calls.push(settle(self.env, self.deferred, outcome));
        calls.push(Call::DeleteAsyncWork { env: self.env, work: self.napi_async_work });
        unpin(self.env, self.promise_ref, &mut calls);
        assert(calls@.skip(2) == unpin_calls(self.env, self.promise_ref));
        calls
    }
}

impl<T: Task> Completing<T> {
    /// Whether the task turns the computed value into `value`, and becomes `after`. The task is
    /// asked whatever the status of the work is.
    pub open spec fn converts(self, after: T, value: Result<Handle, Error>) -> bool {
        match self.value {
            Ok(output) => T::resolves(self.inner_task, after, self.settling.env, output, value),
            Err(error) => T::rejects(self.inner_task, after, self.settling.env, error, value),
        }
    }

    /// Asks the task for the JavaScript value. Returns the calls that end the work, in order,
    /// and the task, to be dropped after them.
    pub fn finish(self) -> (r: (Vec<Call>, T))
        ensures
            exists|value: Result<Handle, Error>|
                self.converts(r.1, value) && #[trigger] self.settling.ends(value, r.0@),
    {
        let mut task = self.inner_task;
        let value = match self.value {
            Ok(output) => task.resolve(self.settling.env, output),
            Err(error) => task.reject(self.settling.env, error),
        };
        let calls = self.settling.settle(value);
        let r = (calls, task);
        assert(self.settling.ends(value, r.0@));
        r
    }
}

} // verus!
