//! Promises from their start to their end, on a runtime that notes what is held of it.
use napi::async_work::{complete, execute, run, AsyncWork, Completion, RunStep, Task};
use napi::call::{Call, Env, Handle, Reply, NULL};
use napi::lifecycle::{register_releasable, request_shutdown, shutdown_requested, Lifecycle};
use napi::promise::{
    call_js_cb, resolve_from_future, Callback, CreateStep, DeliveryStep, FuturePromise, Starting,
};
use napi::status::{Error, Status};
use std::collections::{HashMap, HashSet};

const ENV: Env = Env(100);

#[derive(Default)]
struct Runtime {
    last_handle: Handle,
    pending: HashSet<Handle>,
    refs: HashMap<Handle, u32>,
    hooks: HashMap<Handle, Handle>,
    flags: HashMap<Handle, bool>,
    hook_data: HashSet<Handle>,
    works: HashSet<Handle>,
    tsfns: HashMap<Handle, usize>,
    frees: u32,
    settlements: u32,
    refuses_hooks: bool,
}

impl Runtime {
    fn fresh(&mut self) -> Handle {
        self.last_handle += 1;
        self.last_handle
    }

    fn settle(&mut self, deferred: Handle) {
        assert!(self.pending.remove(&deferred));
        assert!(self.refs.values().any(|count| *count > 0));
        self.settlements += 1;
    }

    fn perform(&mut self, call: Call) -> Reply {
        let mut reply = Reply {
            status: Status::Success,
            first: NULL,
            second: NULL,
        };
        match call {
            Call::CreateObject { .. } | Call::CreateString { .. } => reply.first = self.fresh(),
            Call::CreatePromise { .. } => {
                reply.first = self.fresh();
                reply.second = self.fresh();
                self.pending.insert(reply.first);
            }
            Call::CreateReference {
                initial_refcount, ..
            } => {
                reply.first = self.fresh();
                self.refs.insert(reply.first, initial_refcount);
            }
            Call::CreateFlag { initial } => {
                reply.first = self.fresh();
                self.flags.insert(reply.first, initial);
            }
            Call::AddEnvCleanupHook { flag, .. } => {
                reply.first = self.fresh();
                if self.refuses_hooks {
                    reply.status = Status::Other(9);
                } else {
                    self.hooks.insert(reply.first, flag);
                }
                self.hook_data.insert(reply.first);
            }
            Call::RemoveEnvCleanupHook { data, .. } => {
                assert!(self.hooks.remove(&data).is_some() || self.refuses_hooks)
            }
            Call::FreeHookData { data } => {
                assert!(!self.hooks.contains_key(&data));
                assert!(self.hook_data.remove(&data));
                self.frees += 1;
            }
            Call::CreateAsyncWork { .. } => {
                reply.first = self.fresh();
                self.works.insert(reply.first);
            }
            Call::QueueAsyncWork { work, .. } | Call::CancelAsyncWork { work, .. } => {
                assert!(self.works.contains(&work))
            }
            Call::DeleteAsyncWork { work, .. } => assert!(self.works.remove(&work)),
            Call::ResolveDeferred { deferred, .. } => self.settle(deferred),
            Call::RejectDeferred { deferred, .. } => self.settle(deferred),
            Call::ReferenceUnref { reference, .. } => {
                *self.refs.get_mut(&reference).unwrap() -= 1
            }
            Call::CreateThreadsafeFunction {
                initial_thread_count,
                ..
            } => {
                reply.first = self.fresh();
                self.tsfns.insert(reply.first, initial_thread_count);
            }
            Call::CallThreadsafeFunction { tsfn, .. } => assert!(self.tsfns[&tsfn] > 0),
            Call::ReleaseThreadsafeFunction { tsfn, .. } => {
                *self.tsfns.get_mut(&tsfn).unwrap() -= 1
            }
        }
        reply
    }

    fn perform_all(&mut self, calls: Vec<Call>) {
        for call in calls {
            self.perform(call);
        }
    }

    /// The end of the environment: every registered hook runs.
    fn tear_down(&mut self) {
        let hooks: Vec<(Handle, Handle)> = self.hooks.drain().collect();
        for (data, flag) in hooks {
            self.flags.insert(flag, true);
            assert!(self.hook_data.remove(&data));
            self.frees += 1;
        }
    }
}

struct Answer;

impl Task for Answer {
    type Output = u64;

    fn compute(&mut self) -> Result<u64, Error> {
        Ok(42)
    }

    fn resolve(&mut self, _env: Env, output: u64) -> Result<Handle, Error> {
        Ok(output as Handle)
    }

    fn reject(&mut self, _env: Env, error: Error) -> Result<Handle, Error> {
        Err(error)
    }
}

fn queued(runtime: &mut Runtime) -> AsyncWork<Answer> {
    let mut step = run(&ENV, Answer);
    loop {
        step = match step {
            RunStep::Call { call, next } => next.reply(runtime.perform(call)),
            RunStep::Launch {
                call,
                mut work,
                launching,
            } => {
                let queueing = launching
                    .created(&mut work, runtime.perform(call))
                    .ok()
                    .unwrap();
                let reply = runtime.perform(queueing.call());
                assert!(queueing.queued(reply).is_ok());
                return work;
            }
            RunStep::Failed { error, .. } => panic!("{:?}", error),
        };
    }
}

/// Ends a work, and tells whether it was abandoned.
fn end(runtime: &mut Runtime, work: AsyncWork<Answer>, shutdown: bool) -> bool {
    let torn_down = runtime.flags[&work.env_tearing_down];
    match complete(ENV, Status::Success, work, torn_down, shutdown) {
        Completion::Proceed { calls, rest } => {
            runtime.perform_all(calls);
            let (calls, _task) = rest.finish();
            runtime.perform_all(calls);
            false
        }
        Completion::Abandoned(_) => true,
    }
}

#[test]
fn a_work_leaves_one_empty_reference() {
    let mut runtime = Runtime::default();
    let mut work = queued(&mut runtime);
    assert_eq!(runtime.pending.len(), 1);
    assert_eq!(runtime.hooks.len(), 1);
    assert_eq!(runtime.works.len(), 1);
    execute(&mut work);
    assert!(!end(&mut runtime, work, false));
    assert!(runtime.pending.is_empty());
    assert!(runtime.hooks.is_empty());
    assert!(runtime.hook_data.is_empty());
    assert!(runtime.works.is_empty());
    assert_eq!(runtime.refs.values().copied().collect::<Vec<u32>>(), vec![0]);
    assert_eq!(runtime.settlements, 1);
    runtime.tear_down();
    assert_eq!(runtime.frees, 1);
}

#[test]
fn a_work_that_outlives_its_environment_is_silent() {
    let mut runtime = Runtime::default();
    let mut work = queued(&mut runtime);
    execute(&mut work);
    runtime.tear_down();
    assert!(end(&mut runtime, work, false));
    assert_eq!(runtime.frees, 1);
    assert_eq!(runtime.settlements, 0);
    assert_eq!(runtime.pending.len(), 1);
    assert_eq!(runtime.works.len(), 1);
    assert_eq!(runtime.refs.values().copied().collect::<Vec<u32>>(), vec![1]);
}

#[test]
fn the_data_of_a_refused_hook_is_freed_at_most_once() {
    for shutdown in [false, true] {
        let mut runtime = Runtime {
            refuses_hooks: true,
            ..Runtime::default()
        };
        let mut work = queued(&mut runtime);
        execute(&mut work);
        runtime.tear_down();
        assert_eq!(runtime.frees, 0);
        assert_eq!(end(&mut runtime, work, shutdown), shutdown);
        runtime.tear_down();
        assert_eq!(runtime.frees, if shutdown { 0 } else { 1 });
    }
}

#[test]
fn after_the_signal_works_are_silent() {
    let mut lifecycle = Lifecycle::new();
    register_releasable(&mut lifecycle, 1u8);
    let _walk = request_shutdown(&mut lifecycle);
    register_releasable(&mut lifecycle, 2u8);
    let mut runtime = Runtime::default();
    let mut work = queued(&mut runtime);
    execute(&mut work);
    assert!(end(&mut runtime, work, shutdown_requested(&lifecycle)));
    assert_eq!(runtime.settlements, 0);
    assert_eq!(runtime.frees, 0);
    runtime.tear_down();
    assert_eq!(runtime.frees, 1);
}

/// Makes a promise, delivers `val` to it and ends it. Returns the last calls and the deferred.
fn deliver(runtime: &mut Runtime, val: Result<u64, Error>) -> (Vec<Call>, Handle) {
    let made = runtime.perform(Call::CreatePromise { env: ENV });
    let resolver = |_env: Env, n: u64| -> Result<Handle, Error> {
        if n == 13 {
            return Err(error("unlucky"));
        }
        Ok(n as Handle)
    };
    let mut step = FuturePromise::create(ENV, made.first, made.second, resolver);
    let promise = loop {
        step = match step {
            CreateStep::Call { call, next } => next.reply(runtime.perform(call)),
            CreateStep::Created(promise) => break promise,
            CreateStep::Failed(e) => panic!("{:?}", e),
        };
    };
    let Starting { call, mut context } = promise.start();
    let tsfn_value = context.started(runtime.perform(call)).ok().unwrap();
    let mut received = None;
    let mut delivery = resolve_from_future(tsfn_value, val);
    loop {
        delivery = match delivery {
            DeliveryStep::Send { call, data, next } => {
                received = Some(data);
                next.reply(runtime.perform(call))
            }
            DeliveryStep::Call { call, next } => next.reply(runtime.perform(call)),
            DeliveryStep::Delivered => break,
            DeliveryStep::Failed { message, .. } => panic!("{}", message),
        };
    }
    assert_eq!(runtime.tsfns[&context.tsfn], 0);
    match call_js_cb(ENV, context, received.unwrap(), false, false) {
        Callback::Proceed { calls, rest } => {
            runtime.perform_all(calls);
            (rest.finish(), made.first)
        }
        Callback::Abandoned { .. } => panic!("abandoned"),
    }
}

fn error(reason: &str) -> Error {
    Error {
        status: Status::Other(9),
        reason: reason.to_string(),
    }
}

#[test]
fn a_future_promise_leaves_one_empty_reference() {
    let mut runtime = Runtime::default();
    let (calls, _) = deliver(&mut runtime, Ok(7));
    runtime.perform_all(calls);
    assert!(runtime.pending.is_empty());
    assert!(runtime.hooks.is_empty());
    assert!(runtime.hook_data.is_empty());
    assert_eq!(runtime.refs.values().copied().collect::<Vec<u32>>(), vec![0]);
    assert_eq!(runtime.settlements, 1);
    assert_eq!(runtime.frees, 1);
}

#[test]
fn the_result_of_the_future_settles_the_given_deferred() {
    let mut runtime = Runtime::default();
    let (calls, deferred) = deliver(&mut runtime, Ok(7));
    assert_eq!(
        calls[0],
        Call::ResolveDeferred {
            env: ENV,
            deferred,
            value: 7
        }
    );
    for (val, reason) in [(Ok(13), "unlucky"), (Err(error("late")), "late")] {
        let mut runtime = Runtime::default();
        let (calls, deferred) = deliver(&mut runtime, val);
        assert_eq!(
            calls[0],
            Call::RejectDeferred {
                env: ENV,
                deferred,
                error: error(reason)
            }
        );
    }
}
