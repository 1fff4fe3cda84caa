# emscripten_val

Rust bindings to emscripten's `val` API, in two parts.

- `src/` is a Verus-verified library: the handle model of JavaScript values
  (reserved handles, which handles are reference counted, which
  reference-count operation each ownership step asks for), the layout of
  invoker signatures, the ordering of values from JavaScript's comparison
  results, the registration table of primitive Rust types, the allocator of
  type ids, and the reading of array elements in order.
- `app/` is the ordinary Rust around it: the C functions of emscripten's
  runtime, the `Val` type whose `Clone` and `Drop` carry out the operations
  that the library asks for, the `JsType` trait, class registration and the
  entry points through which JavaScript calls Rust closures.

The bindings target `wasm32-unknown-emscripten`.
