//! Promises that are settled with the result of a future.
use crate::call::{Call, CallMode, Env, Handle, ReleaseMode, Reply, NULL};
use crate::settlement::{hook_calls, release_hook, settle, settlement, unpin, unpin_calls};
use crate::status::{check_status, Error, Status};
use vstd::prelude::*;

verus! {

/// A promise that waits for a future, with what it holds of the runtime.
///
/// `resolver` turns the result of the future into a JavaScript value. It is called on the main
/// thread.
pub struct FuturePromise<F> {
    pub deferred: Handle,
    pub env: Env,
    /// The function through which the result reaches the main thread; null until it has been
    /// created.
    pub tsfn: Handle,
    pub async_resource_name: Handle,
    pub resolver: F,
    /// The flag that the cleanup hook sets when the environment goes.
    pub env_tearing_down: Handle,
    /// The data of the cleanup hook.
    pub cleanup_hook_data: Handle,
    /// A counted reference to the promise. It keeps the promise, and with it what backs the
    /// deferred, from being collected before the deferred is settled.
    pub promise_ref: Handle,
}

/// The name under which these promises are listed by the runtime.
pub open spec fn resource_name() -> &'static str {
    "napi_resolve_promise_from_future"
}

/// A promise in the making, by the reply that it waits for.
pub enum Create<F> {
    /// The name of the async resource.
    Name { env: Env, deferred: Handle, promise: Handle, resolver: F },
    /// The reference that pins the promise.
    Pin { env: Env, deferred: Handle, resolver: F, name: Handle },
    /// The flag for the cleanup hook to set.
    Flag { env: Env, deferred: Handle, resolver: F, name: Handle, promise_ref: Handle },
    /// The cleanup hook.
    Hook {
        env: Env,
        deferred: Handle,
        resolver: F,
        name: Handle,
        promise_ref: Handle,
        flag: Handle,
    },
}

/// The next step of a promise in the making.
pub enum CreateStep<F> {
    /// Make `call`, and give its reply to `next`.
    Call { call: Call, next: Create<F> },
    /// The promise is ready to be started.
    Created(FuturePromise<F>),
    /// A call failed. What was taken so far is not given back.
    Failed(Error),
}

impl<F> Create<F> {
    /// Whether the status of the awaited call matters. A flag is always to be had, and the
    /// cleanup hook is not insisted on.
    pub open spec fn checked(self) -> bool {
        self !is Flag && self !is Hook
    }

    /// The step that follows a reply with which the protocol goes on.
    pub open spec fn advanced(self, reply: Reply) -> CreateStep<F> {
        match self {
            Create::Name { env, deferred, promise, resolver } => CreateStep::Call {
                call: Call::CreateReference { env, value: promise, initial_refcount: 1 },
                next: Create::Pin { env, deferred, resolver, name: reply.first },
            },
            Create::Pin { env, deferred, resolver, name } => CreateStep::Call {
                call: Call::CreateFlag { initial: false },
                next: Create::Flag { env, deferred, resolver, name, promise_ref: reply.first },
            },
            Create::Flag { env, deferred, resolver, name, promise_ref } => CreateStep::Call {
                call: Call::AddEnvCleanupHook { env, flag: reply.first },
                next: Create::Hook {
                    env,
                    deferred,
                    resolver,
                    name,
                    promise_ref,
                    flag: reply.first,
                },
            },
            Create::Hook { env, deferred, resolver, name, promise_ref, flag } =>
                CreateStep::Created(
                FuturePromise {
                    deferred,
                    env,
                    tsfn: NULL,
                    async_resource_name: name,
                    resolver,
                    env_tearing_down: flag,
                    cleanup_hook_data: reply.first,
                    promise_ref,
                },
            ),
        }
    }

    /// Takes the reply of the awaited call.
    pub fn reply(self, reply: Reply) -> (step: CreateStep<F>)
        ensures
            step is Failed <==> self.checked() && reply.status != Status::Success,
            step matches CreateStep::Failed(e) ==> e.reports(reply.status),
            step !is Failed ==> step == self.advanced(reply),
    {
        let checked: bool = !matches!(self, Create::Flag { .. } | Create::Hook { .. });
        if checked {
            if let Err(e) = check_status(reply.status) {
                return CreateStep::Failed(e);
            }
        }
        match self {
            Create::Name { env, deferred, promise, resolver } => CreateStep::Call {
                call: Call::CreateReference { env, value: promise, initial_refcount: 1 },
                next: Create::Pin { env, deferred, resolver, name: reply.first },
            },
            Create::Pin { env, deferred, resolver, name } => CreateStep::Call {
                call: Call::CreateFlag { initial: false },
                next: Create::Flag { env, deferred, resolver, name, promise_ref: reply.first },
            },
            Create::Flag { env, deferred, resolver, name, promise_ref } => CreateStep::Call {
                call: Call::AddEnvCleanupHook { env, flag: reply.first },
                next: Create::Hook {
                    env,
                    deferred,
                    resolver,
                    name,
                    promise_ref,
                    flag: reply.first,
                },
            },
            Create::Hook { env, deferred, resolver, name, promise_ref, flag } =>
                CreateStep::Created(
                FuturePromise {
                    deferred,
                    env,
                    tsfn: NULL,
                    async_resource_name: name,
                    resolver,
                    env_tearing_down: flag,
                    cleanup_hook_data: reply.first,
                    promise_ref,
                },
            ),
        }
    }
}

/// The function through which a future hands over its result.
#[derive(Clone, Copy, Debug, PartialEq, Eq, Structural)]
pub struct TSFNValue(pub Handle);

/// A promise whose way to the main thread is being opened: put `context` where it stays until
/// its result has arrived, make `call` with that place as the function's context, and give the
/// reply to the context.
pub struct Starting<F> {
    pub call: Call,
    pub context: FuturePromise<F>,
}

impl<F> FuturePromise<F> {
    /// Starts to make a promise of `raw_promise`, which `raw_deferred` settles.
    pub fn create(env: Env, raw_deferred: Handle, raw_promise: Handle, resolver: F) -> (step:
        CreateStep<F>)
        ensures
            step == (CreateStep::Call {
                call: Call::CreateString { env, text: resource_name() },
                next: Create::Name {
                    env,
                    deferred: raw_deferred,
                    promise: raw_promise,
                    resolver,
                },
            }),
    {
        CreateStep::Call {
            call: Call::CreateString { env, text: "napi_resolve_promise_from_future" },
            next: Create::Name { env, deferred: raw_deferred, promise: raw_promise, resolver },
        }
    }

    /// How the way to the main thread is opened for this promise: by a function with an
    /// unbounded queue and one thread that uses it, whose context the promise is.
    pub open spec fn starting(self) -> Starting<F> {
        Starting {
            call: Call::CreateThreadsafeFunction {
                env: self.env,
                name: self.async_resource_name,
                max_queue_size: 0,
                initial_thread_count: 1,
            },
            context: self,
        }
    }

    /// Starts to open the way to the main thread.
    pub fn start(self) -> (starting: Starting<F>)
        ensures
            starting == self.starting(),
    {
        let call = Call::CreateThreadsafeFunction {
            env: self.env,
            name: self.async_resource_name,
            max_queue_size: 0,
            initial_thread_count: 1,
        };
        Starting { call, context: self }
    }

    /// Takes the reply to the call that `start` asks for, in the place where this promise is
    /// the context.
    pub fn started(&mut self, reply: Reply) -> (r: Result<TSFNValue, Error>)
        ensures
            r is Ok <==> reply.status == Status::Success,
            r matches Ok(tsfn) ==> {
                &&& tsfn == TSFNValue(reply.first)
                &&& *final(self) == (FuturePromise { tsfn: reply.first, ..*old(self) })
            },
            r matches Err(e) ==> e.reports(reply.status) && *final(self) == *old(self),
    {
        match check_status(reply.status) {
            Ok(()) => {
                self.tsfn = reply.first;
                Ok(TSFNValue(reply.first))
            },
            Err(e) => Err(e),
        }
    }
}

/// A result on its way to the main thread, by the reply that it waits for.
#[derive(Clone, Copy, Debug, PartialEq, Eq, Structural)]
pub enum Delivery {
    /// The queueing of the call.
    Calling(TSFNValue),
    /// The release of the function.
    Releasing(TSFNValue),
}

/// The next step of a result on its way to the main thread.
pub enum DeliveryStep<T> {
    /// Make `call` with `data`, and give its reply to `next`.
    Send { call: Call, data: Result<T, Error>, next: Delivery },
    /// Make `call`, and give its reply to `next`.
    Call { call: Call, next: Delivery },
    /// The result has been handed over, and the function given up.
    Delivered,
    /// A call failed, which nothing can mend. `message` says which.
    Failed { message: &'static str, error: Error },
}

/// How the result of a future is handed over: it is the data of one call of the function.
pub open spec fn delivering<T>(tsfn_value: TSFNValue, val: Result<T, Error>) -> DeliveryStep<T> {
    DeliveryStep::Send {
        call: Call::CallThreadsafeFunction {
            tsfn: tsfn_value.0,
            call_mode: CallMode::Nonblocking,
        },
        data: val,
        next: Delivery::Calling(tsfn_value),
    }
}

/// Starts to hand over the result of a future that has ended, be it a value or an error.
pub fn resolve_from_future<T>(tsfn_value: TSFNValue, val: Result<T, Error>) -> (step: DeliveryStep<
    T,
>)
    ensures
        step == delivering(tsfn_value, val),
{
    DeliveryStep::Send {
        call: Call::CallThreadsafeFunction {
            tsfn: tsfn_value.0,
            call_mode: CallMode::Nonblocking,
        },
        data: val,
        next: Delivery::Calling(tsfn_value),
    }
}

impl Delivery {
    /// What is said when the awaited call fails.
    pub open spec fn failure(self) -> &'static str {
        match self {
            Delivery::Calling(_) => "Failed to call thread safe function",
            Delivery::Releasing(_) => "Failed to release thread safe function",
        }
    }

    /// The step that follows the success of the awaited call.
    pub open spec fn advanced<T>(self) -> DeliveryStep<T> {
        match self {
            Delivery::Calling(tsfn) => DeliveryStep::Call {
                call: Call::ReleaseThreadsafeFunction {
                    tsfn: tsfn.0,
                    release_mode: ReleaseMode::Release,
                },
                next: Delivery::Releasing(tsfn),
            },
            Delivery::Releasing(_) => DeliveryStep::Delivered,
        }
    }

    /// Takes the reply of the awaited call.
    pub fn reply<T>(self, reply: Reply) -> (step: DeliveryStep<T>)
        ensures
            step is Failed <==> reply.status != Status::Success,
            step matches DeliveryStep::Failed { message, error } ==> {
                &&& message == self.failure()
                &&& error.reports(reply.status)
            },
            step !is Failed ==> step == self.advanced::<T>(),
    {
        match self {
            Delivery::Calling(tsfn) => match check_status(reply.status) {
                Ok(()) => DeliveryStep::Call {
                    call: Call::ReleaseThreadsafeFunction {
                        tsfn: tsfn.0,
                        release_mode: ReleaseMode::Release,
                    },
                    next: Delivery::Releasing(tsfn),
                },
                Err(error) => DeliveryStep::Failed {
                    message: "Failed to call thread safe function",
                    error,
                },
            },
            Delivery::Releasing(_) => match check_status(reply.status) {
                Ok(()) => DeliveryStep::Delivered,
                Err(error) => DeliveryStep::Failed {
                    message: "Failed to release thread safe function",
                    error,
                },
            },
        }
    }
}

/// Whether a result that reached the main thread is dropped: the environment is being torn
/// down, or the process is about to end. Settling the deferred could then reach into a runtime
/// that is half gone.
pub open spec fn abandons(env_tearing_down: bool, shutdown_requested: bool) -> bool {
    env_tearing_down || shutdown_requested
}

/// What becomes of a result that reached the main thread.
pub enum Callback<T, F> {
    /// Drop the result and the promise, which are as they were, and make no call: the resolver
    /// is not asked, the promise stays as it is, and its reference and its cleanup hook are
    /// left to the end of the environment.
    Abandoned { value: Result<T, Error>, future_promise: FuturePromise<F> },
    /// Make `calls` in order, then finish with `rest`.
    Proceed { calls: Vec<Call>, rest: Resolving<T, F> },
}

/// A result that is still to be turned into a JavaScript value.
pub struct Resolving<T, F> {
    pub resolver: F,
    pub value: Result<T, Error>,
    pub settling: Settling,
}

/// What is still to be done for a promise that is not abandoned, once its cleanup hook is gone.
pub open spec fn resolving<T, F>(
    raw_env: Env,
    future_promise: FuturePromise<F>,
    value: Result<T, Error>,
) -> Resolving<T, F> {
    Resolving {
        resolver: future_promise.resolver,
        value,
        settling: Settling {
            env: raw_env,
            deferred: future_promise.deferred,
            promise_ref: future_promise.promise_ref,
        },
    }
}

/// What the end of a promise takes back from the runtime, once its outcome is known.
#[derive(Clone, Copy, Debug, PartialEq, Eq, Structural)]
pub struct Settling {
    pub env: Env,
    pub deferred: Handle,
    pub promise_ref: Handle,
}

/// Whether `callback` is what is to become of a result that reached the main thread: it is
/// abandoned untouched, together with its promise, or the promise's cleanup hook is taken back
/// and the promise is left to be settled.
pub open spec fn calls_back<T, F>(
    raw_env: Env,
    future_promise: FuturePromise<F>,
    value: Result<T, Error>,
    env_tearing_down: bool,
    shutdown_requested: bool,
    callback: Callback<T, F>,
) -> bool {
    if abandons(env_tearing_down, shutdown_requested) {
        callback == (Callback::Abandoned { value, future_promise })
    } else {
        &&& callback matches Callback::Proceed { calls, rest }
        &&& calls@ == hook_calls(raw_env, future_promise.cleanup_hook_data)
        &&& rest == resolving(raw_env, future_promise, value)
    }
}

/// Ends a promise, on the main thread, with the result of its future.
///
/// `env_tearing_down` is what the flag of the promise's cleanup hook reads,
/// `shutdown_requested` tells whether the shutdown signal has been given.
pub fn call_js_cb<T, F>(
    raw_env: Env,
    future_promise: FuturePromise<F>,
    value: Result<T, Error>,
    env_tearing_down: bool,
    shutdown_requested: bool,
) -> (callback: Callback<T, F>)
    ensures
        calls_back(
            raw_env,
            future_promise,
            value,
            env_tearing_down,
            shutdown_requested,
            callback,
        ),
{
    let env_tearing_down: bool = env_tearing_down || shutdown_requested;
    if env_tearing_down {
        return Callback::Abandoned { value, future_promise };
    }
    let calls = release_hook(raw_env, future_promise.cleanup_hook_data);
    let settling = Settling {
        env: raw_env,
        deferred: future_promise.deferred,
        promise_ref: future_promise.promise_ref,
    };
    Callback::Proceed {
        calls,
        rest: Resolving { resolver: future_promise.resolver, value, settling },
    }
}

impl Settling {
    /// The calls that end a promise with `outcome`: settle the deferred, lift the pin.
    pub open spec fn calls(self, outcome: Result<Handle, Error>) -> Seq<Call> {
        seq![settlement(self.env, self.deferred, outcome)] + unpin_calls(
            self.env,
            self.promise_ref,
        )
    }

    /// Lists the calls that end a promise with `outcome`.
    pub fn settle(self, outcome: Result<Handle, Error>) -> (calls: Vec<Call>)
        ensures
            calls@ == self.calls(outcome),
    {
        let mut calls: Vec<Call> = Vec::new();
        calls.push(settle(self.env, self.deferred, outcome));
        unpin(self.env, self.promise_ref, &mut calls);
        calls
    }
}

impl<T, F: FnOnce(Env, T) -> Result<Handle, Error>> Resolving<T, F> {
    /// Whether the result becomes `outcome`: what the resolver makes of it, or the error it is.
    pub open spec fn converts(self, outcome: Result<Handle, Error>) -> bool {
        match self.value {
            Ok(v) => call_ensures(self.resolver, (self.settling.env, v), outcome),
            Err(e) => outcome == Err::<Handle, Error>(e),
        }
    }

    /// Turns the result into a JavaScript value. Returns the calls that end the promise, in
    /// order.
    pub fn finish(self) -> (calls: Vec<Call>)
        requires
            self.value matches Ok(v) ==> call_requires(self.resolver, (self.settling.env, v)),
        ensures
            exists|outcome: Result<Handle, Error>|
                self.converts(outcome) && calls@ == #[trigger] self.settling.calls(outcome),
    {
        let resolver = self.resolver;
        let outcome = match self.value {
            Ok(v) => resolver(self.settling.env, v),
            Err(e) => Err(e),
        };
        assert(self.converts(outcome));
        self.settling.settle(outcome)
    }
}

} // verus!
