//! A verified core for working with emscripten's `val` handles.
//!
//! JavaScript values live on the JavaScript side of an emscripten program and
//! are reached from Rust through integer handles. A few handles are reserved
//! for the constants `undefined`, `null`, `true` and `false`; every other
//! handle is reference counted by the JavaScript runtime. This crate holds the
//! decisions that the bindings make around those handles, with their
//! contracts: which handles are reference counted, which reference-count
//! operation each ownership step asks for, how invoker signatures are laid
//! out, how primitive Rust types are registered, and how type ids are issued.
pub mod handle;
pub mod invoke;
pub mod order;
pub mod primitives;
pub mod sequence;
pub mod type_ids;
pub mod val;

