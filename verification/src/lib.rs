//! A safety layer for embedding a single-threaded, non-reentrant scripting
//! engine.
//!
//! The library holds the rules of the embedding and none of the native calls:
//! the error taxonomy and its bridge to the exceptions of the engine, the
//! model of the engine's values, the conversions between host types and
//! values, and the decisions that turn what the engine hands back into typed
//! results. A driver makes the native calls while it holds the lock of the
//! runtime, reads what they return into plain data ([`RawValue`], [`Thrown`])
//! and leaves every decision to the functions here.
//!
//! The typed handles (values, atoms, modules) carry the lifetime of the token
//! [`Ctx`] of the invocation that obtained them. [`Context::with`] is the only
//! source of a token and hands it to a closure that must accept any lifetime,
//! so a typed handle cannot leave its invocation or reach another context.
//! The plain images that the driver hands in and takes out ([`RawValue`],
//! [`Thrown`]) carry no lifetime and are bound to nothing: a handle made from
//! one belongs to the token it is made with, and it is for the driver to hand
//! in only what the engine gave it during that invocation.

pub mod atom;
pub mod context;
pub mod error;
pub mod native;
pub mod runtime;
pub mod text;
pub mod value;

pub use atom::{Atom, AtomKey, IntoAtom};
pub use context::{Context, ContextBuilder, Ctx, EvalCall, Intrinsic};
pub use error::Error;
pub use native::{Payload, PayloadKind, RawValue};
pub use runtime::Runtime;
pub use value::{
    Array, FromJs, Function, IntoJs, IntoJsArgs, JsRef, JsString, Module, Object, Symbol, Thrown,
    Value,
};
