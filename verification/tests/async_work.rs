use napi::async_work::{
    complete, execute, run, AsyncWork, AsyncWorkPromise, Completion, RunStep, Settling, Task,
};
use napi::call::{Call, Env, Handle, JsObject, Reply, NULL};
use napi::status::{Error, Status};
use std::sync::{Arc, Mutex};

const ENV: Env = Env(100);

type Asked = Arc<Mutex<Vec<&'static str>>>;

/// Computes `input + 1`, or fails if there is no input. Notes what it is asked.
struct AddOne {
    input: Option<u64>,
    asked: Asked,
}

fn add_one(input: Option<u64>) -> AddOne {
    noting(input, &Asked::default())
}

fn noting(input: Option<u64>, asked: &Asked) -> AddOne {
    AddOne {
        input,
        asked: Arc::clone(asked),
    }
}

fn asked(asked: &Asked) -> Vec<&'static str> {
    asked.lock().unwrap().clone()
}

fn error(reason: &str) -> Error {
    Error {
        status: Status::Other(9),
        reason: reason.to_string(),
    }
}

impl Task for AddOne {
    type Output = u64;

    fn compute(&mut self) -> Result<u64, Error> {
        self.asked.lock().unwrap().push("compute");
        match self.input {
            Some(n) => Ok(n + 1),
            None => Err(error("no input")),
        }
    }

    fn resolve(&mut self, env: Env, output: u64) -> Result<Handle, Error> {
        assert_eq!(env, ENV);
        self.asked.lock().unwrap().push("resolve");
        if output == 13 {
            return Err(error("unlucky"));
        }
        Ok(output as Handle)
    }

    fn reject(&mut self, env: Env, e: Error) -> Result<Handle, Error> {
        assert_eq!(env, ENV);
        self.asked.lock().unwrap().push("reject");
        Err(e)
    }
}

fn ok(first: Handle, second: Handle) -> Reply {
    Reply {
        status: Status::Success,
        first,
        second,
    }
}

fn failed(code: i32) -> Reply {
    Reply {
        status: Status::Other(code),
        first: NULL,
        second: NULL,
    }
}

/// Replies to the six calls before the launch.
fn good_replies() -> Vec<Reply> {
    vec![ok(1, 0), ok(2, 3), ok(4, 0), ok(5, 0), ok(8, 0), ok(6, 0)]
}

/// Drives a task until it fails or is launched. Returns the calls made, and the last step.
fn drive(task: AddOne, replies: &[Reply]) -> (Vec<Call>, RunStep<'static, AddOne>) {
    let mut calls = Vec::new();
    let mut step = run(&ENV, task);
    for reply in replies {
        step = match step {
            RunStep::Call { call, next } => {
                calls.push(call);
                next.reply(*reply)
            }
            other => return (calls, other),
        };
    }
    (calls, step)
}

fn launched(task: AddOne) -> AsyncWork<AddOne> {
    let (_, step) = drive(task, &good_replies());
    match step {
        RunStep::Launch {
            mut work, launching, ..
        } => {
            assert!(launching.created(&mut work, ok(7, 0)).is_ok());
            work
        }
        _ => panic!("not launched"),
    }
}

fn finished(task: AddOne, status: Status) -> (Vec<Call>, AddOne) {
    let mut work = launched(task);
    execute(&mut work);
    match complete(ENV, status, work, false, false) {
        Completion::Proceed { mut calls, rest } => {
            let (last, task) = rest.finish();
            calls.extend(last);
            (calls, task)
        }
        Completion::Abandoned(_) => panic!("abandoned"),
    }
}

#[test]
fn run_makes_its_calls_in_order() {
    let (calls, step) = drive(add_one(Some(1)), &good_replies());
    assert_eq!(
        calls,
        vec![
            Call::CreateObject { env: ENV },
            Call::CreatePromise { env: ENV },
            Call::CreateString {
                env: ENV,
                text: "napi_rs_async_work"
            },
            Call::CreateReference {
                env: ENV,
                value: 3,
                initial_refcount: 1
            },
            Call::CreateFlag { initial: false },
            Call::AddEnvCleanupHook { env: ENV, flag: 8 },
        ]
    );
    let (call, mut work, launching) = match step {
        RunStep::Launch {
            call,
            work,
            launching,
        } => (call, work, launching),
        _ => panic!("not launched"),
    };
    assert_eq!(
        call,
        Call::CreateAsyncWork {
            env: ENV,
            resource: 1,
            name: 4
        }
    );
    assert_eq!(work.deferred, 2);
    assert_eq!(work.promise_ref, 5);
    assert_eq!(work.env_tearing_down, 8);
    assert_eq!(work.cleanup_hook_data, 6);
    assert_eq!(work.napi_async_work, NULL);
    assert!(work.value.is_none());

    let queueing = launching.created(&mut work, ok(7, 0)).unwrap_or_else(|_| panic!());
    assert_eq!(work.napi_async_work, 7);
    assert_eq!(
        queueing.call(),
        Call::QueueAsyncWork { env: ENV, work: 7 }
    );
    let promise = queueing.queued(ok(0, 0)).unwrap_or_else(|_| panic!());
    assert_eq!(promise.napi_async_work, 7);
    assert_eq!(promise.raw_promise, 3);
    assert_eq!(*promise.env, ENV);
}

#[test]
fn run_stops_at_the_first_failed_call() {
    for at in 0..4 {
        let mut replies = good_replies();
        replies[at] = failed(20 + at as i32);
        let notes = Asked::default();
        let (calls, step) = drive(noting(Some(at as u64), &notes), &replies);
        assert_eq!(calls.len(), at + 1);
        match step {
            RunStep::Failed { error, task } => {
                assert_eq!(
                    error,
                    Error {
                        status: Status::Other(20 + at as i32),
                        reason: String::new()
                    }
                );
                assert_eq!(task.input, Some(at as u64));
                assert!(asked(&notes).is_empty());
            }
            _ => panic!("went on"),
        }
    }
}

#[test]
fn run_goes_on_if_the_hook_is_refused() {
    let mut replies = good_replies();
    replies[5].status = Status::Other(1);
    let (_, step) = drive(add_one(None), &replies);
    assert!(matches!(step, RunStep::Launch { .. }));
}

#[test]
fn a_work_that_cannot_be_created_or_queued_fails() {
    let (_, step) = drive(add_one(None), &good_replies());
    if let RunStep::Launch {
        mut work, launching, ..
    } = step
    {
        let e = launching.created(&mut work, failed(8)).err().unwrap();
        assert_eq!(e.status, Status::Other(8));
        assert_eq!(work.napi_async_work, NULL);
    } else {
        panic!("not launched");
    }
    let (_, step) = drive(add_one(None), &good_replies());
    if let RunStep::Launch {
        mut work, launching, ..
    } = step
    {
        let queueing = launching.created(&mut work, ok(7, 0)).ok().unwrap();
        let e = queueing.queued(failed(9)).err().unwrap();
        assert_eq!(e.status, Status::Other(9));
        assert_eq!(e.reason, "");
    } else {
        panic!("not launched");
    }
}

#[test]
fn a_promise_shows_its_object_and_can_be_cancelled() {
    let promise = AsyncWorkPromise {
        napi_async_work: 7,
        raw_promise: 3,
        env: &ENV,
    };
    assert_eq!(promise.promise_object(), JsObject { env: ENV, value: 3 });
    assert_eq!(
        promise.cancel(),
        Call::CancelAsyncWork { env: ENV, work: 7 }
    );
}

#[test]
fn execute_keeps_the_result() {
    let mut work = launched(add_one(Some(41)));
    execute(&mut work);
    assert_eq!(work.value, Some(Ok(42)));
    assert_eq!(asked(&work.inner_task.asked), vec!["compute"]);
    assert_eq!(work.deferred, 2);
    let mut work = launched(add_one(None));
    execute(&mut work);
    assert_eq!(work.value, Some(Err(error("no input"))));
}

#[test]
fn completion_gives_back_what_was_taken() {
    let (calls, task) = finished(add_one(Some(41)), Status::Success);
    assert_eq!(
        calls,
        vec![
            Call::RemoveEnvCleanupHook { env: ENV, data: 6 },
            Call::FreeHookData { data: 6 },
            Call::ResolveDeferred {
                env: ENV,
                deferred: 2,
                value: 42
            },
            Call::DeleteAsyncWork { env: ENV, work: 7 },
            Call::ReferenceUnref {
                env: ENV,
                reference: 5
            },
        ]
    );
    assert_eq!(asked(&task.asked), vec!["compute", "resolve"]);
}

#[test]
fn a_failed_computation_rejects() {
    let (calls, task) = finished(add_one(None), Status::Success);
    assert_eq!(
        calls[2],
        Call::RejectDeferred {
            env: ENV,
            deferred: 2,
            error: error("no input")
        }
    );
    assert_eq!(calls.len(), 5);
    assert_eq!(asked(&task.asked), vec!["compute", "reject"]);
}

#[test]
fn a_failed_conversion_rejects() {
    let (calls, _) = finished(add_one(Some(12)), Status::Success);
    assert_eq!(
        calls[2],
        Call::RejectDeferred {
            env: ENV,
            deferred: 2,
            error: error("unlucky")
        }
    );
}

#[test]
fn a_failed_work_rejects_with_its_status_after_asking_the_task() {
    let (calls, task) = finished(add_one(Some(41)), Status::Other(3));
    assert_eq!(
        calls[2],
        Call::RejectDeferred {
            env: ENV,
            deferred: 2,
            error: Error {
                status: Status::Other(3),
                reason: String::new()
            }
        }
    );
    assert_eq!(asked(&task.asked), vec!["compute", "resolve"]);
}

#[test]
fn cancelled_or_torn_down_works_are_abandoned() {
    for (status, torn_down, shutdown) in [
        (Status::Cancelled, false, false),
        (Status::Success, true, false),
        (Status::Success, false, true),
        (Status::Other(3), true, true),
    ] {
        let notes = Asked::default();
        let mut work = launched(noting(Some(1), &notes));
        execute(&mut work);
        match complete(ENV, status, work, torn_down, shutdown) {
            Completion::Abandoned(work) => {
                assert_eq!(work.value, Some(Ok(2)));
                assert_eq!(work.deferred, 2);
                drop(work);
            }
            Completion::Proceed { .. } => panic!("went on"),
        }
        assert_eq!(asked(&notes), vec!["compute"]);
        assert_eq!(Arc::strong_count(&notes), 1);
    }
    // A cancelled work has not computed anything.
    let notes = Asked::default();
    let work = launched(noting(Some(1), &notes));
    assert!(matches!(
        complete(ENV, Status::Cancelled, work, false, false),
        Completion::Abandoned(_)
    ));
    assert!(asked(&notes).is_empty());
}

#[test]
fn without_hook_and_pin_there_is_less_to_give_back() {
    let mut work = launched(add_one(Some(1)));
    execute(&mut work);
    work.cleanup_hook_data = NULL;
    work.promise_ref = NULL;
    match complete(ENV, Status::Success, work, false, false) {
        Completion::Proceed { calls, rest } => {
            assert_eq!(calls, vec![]);
            let (last, _) = rest.finish();
            assert_eq!(
                last,
                vec![
                    Call::ResolveDeferred {
                        env: ENV,
                        deferred: 2,
                        value: 2
                    },
                    Call::DeleteAsyncWork { env: ENV, work: 7 },
                ]
            );
        }
        Completion::Abandoned(_) => panic!("abandoned"),
    }
}

#[test]
fn settle_takes_any_value() {
    let settling = Settling {
        env: ENV,
        status: Status::Success,
        deferred: 2,
        napi_async_work: 7,
        promise_ref: 5,
    };
    assert_eq!(
        settling.settle(Err(error("x"))),
        vec![
            Call::RejectDeferred {
                env: ENV,
                deferred: 2,
                error: error("x")
            },
            Call::DeleteAsyncWork { env: ENV, work: 7 },
            Call::ReferenceUnref {
                env: ENV,
                reference: 5
            },
        ]
    );
}
