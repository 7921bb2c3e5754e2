# napi

Promises between native code and a JavaScript runtime that speaks Node-API, and their orderly
end when the environment or the process goes away.

- `src/` is the library, verified with Verus. It decides which runtime calls are made, in which
  order and with which arguments. A decision is a `Call` value, the answer a `Reply`.
  - `async_work`: tasks on the runtime's thread pool.
  - `promise`: promises that are settled with the result of a future.
  - `settlement`: what the ends of both have in common.
  - `lifecycle`: the shutdown signal and the resources that are released with it.
  - `registry`: the shutdown flag and the registry, and the one way in which entries leave it.
  - `model`: what the calls do to the runtime, and the laws that follow.
  - `call`, `status`: the vocabulary.
- `app/` makes the calls, through the C interface, and holds the state of the process.
- `tests/` runs the library.

No proof rests on an unproved assumption about code outside the library. What a task, a resolver
or a registered resource does is left open: the contracts say which of them is asked, with what,
and what is done with the answer.
