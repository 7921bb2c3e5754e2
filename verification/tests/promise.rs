use napi::call::{Call, CallMode, Env, Handle, ReleaseMode, Reply, NULL};
use napi::promise::{
    call_js_cb, resolve_from_future, Callback, CreateStep, DeliveryStep, FuturePromise, Settling,
    Starting, TSFNValue,
};
use napi::status::{Error, Status};

const ENV: Env = Env(100);

type Resolver = Box<dyn FnOnce(Env, u64) -> Result<Handle, Error>>;

fn error(reason: &str) -> Error {
    Error {
        status: Status::Other(9),
        reason: reason.to_string(),
    }
}

fn doubling() -> Resolver {
    Box::new(|env, n| {
        assert_eq!(env, ENV);
        if n == 13 {
            Err(error("unlucky"))
        } else {
            Ok((n * 2) as Handle)
        }
    })
}

fn ok(first: Handle) -> Reply {
    Reply {
        status: Status::Success,
        first,
        second: NULL,
    }
}

fn failed(code: i32) -> Reply {
    Reply {
        status: Status::Other(code),
        first: NULL,
        second: NULL,
    }
}

fn drive(replies: &[Reply]) -> (Vec<Call>, CreateStep<Resolver>) {
    let mut calls = Vec::new();
    let mut step = FuturePromise::create(ENV, 2, 3, doubling());
    for reply in replies {
        step = match step {
            CreateStep::Call { call, next } => {
                calls.push(call);
                next.reply(*reply)
            }
            other => return (calls, other),
        };
    }
    (calls, step)
}

fn created() -> FuturePromise<Resolver> {
    match drive(&[ok(4), ok(5), ok(9), ok(6)]).1 {
        CreateStep::Created(promise) => promise,
        _ => panic!("not created"),
    }
}

fn ended(value: Result<u64, Error>) -> Vec<Call> {
    match call_js_cb(ENV, created(), value, false, false) {
        Callback::Proceed { mut calls, rest } => {
            calls.extend(rest.finish());
            calls
        }
        Callback::Abandoned { .. } => panic!("abandoned"),
    }
}

#[test]
fn create_makes_its_calls_in_order() {
    let (calls, step) = drive(&[ok(4), ok(5), ok(9), ok(6)]);
    assert_eq!(
        calls,
        vec![
            Call::CreateString {
                env: ENV,
                text: "napi_resolve_promise_from_future"
            },
            Call::CreateReference {
                env: ENV,
                value: 3,
                initial_refcount: 1
            },
            Call::CreateFlag { initial: false },
            Call::AddEnvCleanupHook { env: ENV, flag: 9 },
        ]
    );
    match step {
        CreateStep::Created(promise) => {
            assert_eq!(promise.deferred, 2);
            assert_eq!(promise.env, ENV);
            assert_eq!(promise.tsfn, NULL);
            assert_eq!(promise.async_resource_name, 4);
            assert_eq!(promise.promise_ref, 5);
            assert_eq!(promise.env_tearing_down, 9);
            assert_eq!(promise.cleanup_hook_data, 6);
        }
        _ => panic!("not created"),
    }
}

#[test]
fn create_stops_at_the_first_failed_call() {
    let (calls, step) = drive(&[failed(21), ok(5), ok(9), ok(6)]);
    assert_eq!(calls.len(), 1);
    assert!(matches!(step, CreateStep::Failed(e) if e.status == Status::Other(21)));
    let (calls, step) = drive(&[ok(4), failed(22), ok(9), ok(6)]);
    assert_eq!(calls.len(), 2);
    assert!(matches!(step, CreateStep::Failed(e) if e.status == Status::Other(22)));
}

#[test]
fn create_goes_on_if_the_hook_is_refused() {
    let (_, step) = drive(&[ok(4), ok(5), ok(9), failed(1)]);
    assert!(matches!(step, CreateStep::Created(_)));
}

#[test]
fn start_opens_the_way_to_the_main_thread() {
    let Starting { call, mut context } = created().start();
    assert_eq!(
        call,
        Call::CreateThreadsafeFunction {
            env: ENV,
            name: 4,
            max_queue_size: 0,
            initial_thread_count: 1
        }
    );
    assert_eq!(context.deferred, 2);
    assert_eq!(context.promise_ref, 5);
    assert_eq!(context.cleanup_hook_data, 6);
    let e = context.started(failed(7)).unwrap_err();
    assert_eq!(
        e,
        Error {
            status: Status::Other(7),
            reason: String::new()
        }
    );
    assert_eq!(context.tsfn, NULL);
    assert_eq!(context.started(ok(8)), Ok(TSFNValue(8)));
    assert_eq!(context.tsfn, 8);
    assert_eq!(context.deferred, 2);
}

#[test]
fn delivery_hands_the_result_over_and_gives_the_function_up() {
    for val in [Ok(21u64), Err(error("late"))] {
        let expected = match &val {
            Ok(v) => Ok(*v),
            Err(e) => Err(error(&e.reason)),
        };
        let (call, data, next) = match resolve_from_future(TSFNValue(8), val) {
            DeliveryStep::Send { call, data, next } => (call, data, next),
            _ => panic!("nothing sent"),
        };
        assert_eq!(
            call,
            Call::CallThreadsafeFunction {
                tsfn: 8,
                call_mode: CallMode::Nonblocking
            }
        );
        assert_eq!(data, expected);
        match next.reply::<u64>(failed(15)) {
            DeliveryStep::Failed { message, error } => {
                assert_eq!(message, "Failed to call thread safe function");
                assert_eq!(error.status, Status::Other(15));
            }
            _ => panic!("went on"),
        }
        let (call, next) = match next.reply::<u64>(ok(0)) {
            DeliveryStep::Call { call, next } => (call, next),
            _ => panic!("no call"),
        };
        assert_eq!(
            call,
            Call::ReleaseThreadsafeFunction {
                tsfn: 8,
                release_mode: ReleaseMode::Release
            }
        );
        match next.reply::<u64>(failed(16)) {
            DeliveryStep::Failed { message, error } => {
                assert_eq!(message, "Failed to release thread safe function");
                assert_eq!(error.status, Status::Other(16));
            }
            _ => panic!("went on"),
        }
        assert!(matches!(
            next.reply::<u64>(ok(0)),
            DeliveryStep::Delivered
        ));
    }
}

#[test]
fn a_result_resolves_through_the_resolver() {
    assert_eq!(
        ended(Ok(21)),
        vec![
            Call::RemoveEnvCleanupHook { env: ENV, data: 6 },
            Call::FreeHookData { data: 6 },
            Call::ResolveDeferred {
                env: ENV,
                deferred: 2,
                value: 42
            },
            Call::ReferenceUnref {
                env: ENV,
                reference: 5
            },
        ]
    );
}

#[test]
fn errors_of_the_future_and_of_the_resolver_reject() {
    for (value, reason) in [(Err(error("late")), "late"), (Ok(13), "unlucky")] {
        let calls = ended(value);
        assert_eq!(calls.len(), 4);
        assert_eq!(
            calls[2],
            Call::RejectDeferred {
                env: ENV,
                deferred: 2,
                error: error(reason)
            }
        );
    }
}

#[test]
fn results_that_come_during_teardown_are_dropped() {
    for (torn_down, shutdown) in [(true, false), (false, true), (true, true)] {
        match call_js_cb(ENV, created(), Ok(1), torn_down, shutdown) {
            Callback::Abandoned {
                value,
                future_promise,
            } => {
                assert_eq!(value, Ok(1));
                assert_eq!(future_promise.deferred, 2);
            }
            Callback::Proceed { .. } => panic!("went on"),
        }
    }
}

#[test]
fn without_hook_and_pin_only_the_deferred_is_settled() {
    let mut promise = created();
    promise.cleanup_hook_data = NULL;
    promise.promise_ref = NULL;
    match call_js_cb(ENV, promise, Ok(1), false, false) {
        Callback::Proceed { calls, rest } => {
            assert_eq!(calls, vec![]);
            assert_eq!(
                rest.finish(),
                vec![Call::ResolveDeferred {
                    env: ENV,
                    deferred: 2,
                    value: 2
                }]
            );
        }
        Callback::Abandoned { .. } => panic!("abandoned"),
    }
}

#[test]
fn settle_takes_any_outcome() {
    let settling = Settling {
        env: ENV,
        deferred: 2,
        promise_ref: 5,
    };
    assert_eq!(
        settling.settle(Ok(9)),
        vec![
            Call::ResolveDeferred {
                env: ENV,
                deferred: 2,
                value: 9
            },
            Call::ReferenceUnref {
                env: ENV,
                reference: 5
            },
        ]
    );
}
