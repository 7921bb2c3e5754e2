//! Promises between native code and a JavaScript runtime, and their orderly end.
//!
//! Native work is handed to JavaScript as a promise in two ways: a task that runs on the
//! runtime's thread pool ([`async_work`]) and a future that is driven elsewhere ([`promise`]).
//! Both take things from the runtime while they are under way: a pending deferred, a reference
//! that pins the promise, a cleanup hook, an async work. This library decides which runtime
//! calls are made, in which order and with which arguments, and what is given back at the end.
//! It makes none of them itself: a decision is a [`call::Call`] value, and the answer comes
//! back as a [`call::Reply`].
//!
//! [`lifecycle`] holds the process-wide shutdown signal and the resources that are released
//! when it is given. [`model`] says what the calls do to the runtime, and proves over that
//! model that what was taken is given back once, and that what ends during teardown or after
//! the signal comes back untouched: no call is made for it, and no task or resolver is asked.
//! [`laws`] says what the operations are for, of their arguments and results alone.

pub mod async_work;
pub mod call;
pub mod laws;
pub mod lifecycle;
pub mod model;
pub mod promise;
pub mod registry;
pub mod settlement;
pub mod status;
