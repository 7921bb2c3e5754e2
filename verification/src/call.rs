//! The runtime calls that the protocols make, as values.
use crate::status::{Error, Status};
use vstd::prelude::*;

verus! {

/// An opaque pointer of the runtime or of the embedding process, as an address.
pub type Handle = usize;

/// The null pointer.
pub const NULL: Handle = 0;

/// The runtime environment that a native addon was loaded into.
#[derive(Clone, Copy, Debug, PartialEq, Eq, Structural)]
pub struct Env(pub Handle);

/// A JavaScript object, together with the environment it lives in.
#[derive(Clone, Copy, Debug, PartialEq, Eq, Structural)]
pub struct JsObject {
    pub env: Env,
    pub value: Handle,
}

/// What a call of a thread-safe function does when the queue is full.
#[derive(Clone, Copy, Debug, PartialEq, Eq, Structural)]
pub enum CallMode {
    /// It fails.
    Nonblocking,
    /// It waits for room.
    Blocking,
}

/// What the release of a thread-safe function means for its other users.
#[derive(Clone, Copy, Debug, PartialEq, Eq, Structural)]
pub enum ReleaseMode {
    /// They may go on calling it.
    Release,
    /// No more calls are accepted.
    Abort,
}

/// One call into the runtime, with its arguments.
#[derive(Debug, PartialEq, Eq)]
pub enum Call {
    /// Creates a plain object. Reply: the object.
    CreateObject { env: Env },
    /// Creates a promise with the deferred that settles it. Reply: the deferred, then the
    /// promise.
    CreatePromise { env: Env },
    /// Creates a string. Reply: the string.
    CreateString { env: Env, text: &'static str },
    /// Creates a reference to a value with an initial count. Reply: the reference.
    CreateReference { env: Env, value: Handle, initial_refcount: u32 },
    /// Allocates a flag that reads `initial` at first. Reply: the flag.
    CreateFlag { initial: bool },
    /// Allocates the data of a cleanup hook that sets `flag`, and registers the hook with it.
    /// Reply: the data.
    AddEnvCleanupHook { env: Env, flag: Handle },
    /// Unregisters the cleanup hook that was registered with `data`.
    RemoveEnvCleanupHook { env: Env, data: Handle },
    /// Frees the data of a cleanup hook.
    FreeHookData { data: Handle },
    /// Creates an async work for a resource and a name. Reply: the async work.
    CreateAsyncWork { env: Env, resource: Handle, name: Handle },
    /// Hands an async work to the thread pool.
    QueueAsyncWork { env: Env, work: Handle },
    /// Asks for an async work not to be run.
    CancelAsyncWork { env: Env, work: Handle },
    /// Deletes an async work.
    DeleteAsyncWork { env: Env, work: Handle },
    /// Fulfils the promise of a deferred with a value.
    ResolveDeferred { env: Env, deferred: Handle, value: Handle },
    /// Rejects the promise of a deferred with an error.
    RejectDeferred { env: Env, deferred: Handle, error: Error },
    /// Lowers the count of a reference by one. Reply: the new count.
    ReferenceUnref { env: Env, reference: Handle },
    /// Creates a function that any thread may call. Reply: the function.
    CreateThreadsafeFunction {
        env: Env,
        name: Handle,
        max_queue_size: usize,
        initial_thread_count: usize,
    },
    /// Queues a call of a thread-safe function.
    CallThreadsafeFunction { tsfn: Handle, call_mode: CallMode },
    /// Gives up the calling thread's use of a thread-safe function.
    ReleaseThreadsafeFunction { tsfn: Handle, release_mode: ReleaseMode },
}

/// What a call returned: its status, and what it wrote, handles mostly. A call that writes less
/// than two leaves the others null.
#[derive(Clone, Copy, Debug, PartialEq, Eq, Structural)]
pub struct Reply {
    pub status: Status,
    pub first: Handle,
    pub second: Handle,
}

} // verus!
