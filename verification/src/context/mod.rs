//! Execution contexts and the token that gives access to one.

use crate::error::{Error, ErrorView};
use crate::native::{
    eval_flag_compile_only, eval_flag_strict, eval_type_global, eval_type_module, tag_module,
    tag_object, tag_string, Payload, RawValue, EVAL_FLAG_COMPILE_ONLY, EVAL_FLAG_STRICT,
    EVAL_TYPE_GLOBAL, EVAL_TYPE_MODULE, TAG_EXCEPTION, TAG_MODULE, TAG_OBJECT, TAG_STRING,
};
use crate::runtime::Runtime;
use crate::value::convert::{convert, converted, FromJs};
use crate::value::{
    exception_of, get_exception, handle_exception, handle_status, is_result, JsRef, JsString, Module, Object,
    Thrown,
};
use std::marker::PhantomData;
use vstd::prelude::*;
use vstd::string::*;

pub mod builder;

pub use builder::{ContextBuilder, Intrinsic};

verus! {

/// A single execution context with its own global variables and stack. It
/// holds the native handles of the context and of its runtime, neither of them
/// null, and the record of the groups of intrinsic objects that the engine was
/// asked for when the context was made.
#[derive(Debug)]
pub struct Context {
    ctx: usize,
    rt: usize,
    enabled: [bool; 15],
}

/// A context in use, passed to the closure of [`Context::with`]. Every value
/// made through it carries its lifetime, which is invariant and fresh for each
/// invocation, so that no value outlives the invocation or reaches another
/// context. Its fields are private: there is no token but the one that
/// [`Context::with`] makes.
#[derive(Clone, Copy, Debug, PartialEq, Eq)]
pub struct Ctx<'js> {
    ctx: usize,
    marker: PhantomData<&'js mut &'js ()>,
}

/// One call of the engine's evaluation entry point: the source and the file
/// name, both free of null bytes, and the flags.
#[derive(Clone, Debug, PartialEq, Eq)]
pub struct EvalCall {
    pub source: Vec<u8>,
    pub file_name: Vec<u8>,
    pub flags: i32,
}

/// Whether `position` is the place of the first null byte of `bytes`.
pub open spec fn is_first_nul(bytes: Seq<u8>, position: int) -> bool {
    &&& 0 <= position < bytes.len()
    &&& bytes[position] == 0
    &&& forall|j: int| 0 <= j < position ==> bytes[j] != 0
}

/// The place of the first null byte of `bytes`, if there is one.
pub fn find_nul(bytes: &Vec<u8>) -> (r: Option<usize>)
    ensures
        match r {
            Some(position) => is_first_nul(bytes@, position as int),
            None => !bytes@.contains(0u8),
        },
{
    let mut i: usize = 0;
    while i < bytes.len()
        invariant
            i <= bytes.len(),
            forall|j: int| 0 <= j < i ==> bytes@[j] != 0,
        decreases bytes.len() - i,
    {
        if bytes[i] == 0 {
            return Some(i);
        }
        i += 1;
    }
    None
}

/// The flags of the evaluation of a global script in strict mode.
pub open spec fn script_flags() -> i32 {
    (EVAL_TYPE_GLOBAL | EVAL_FLAG_STRICT) as i32
}

/// The flags of the compilation of a module in strict mode, without running
/// it.
pub open spec fn module_flags() -> i32 {
    (EVAL_TYPE_MODULE | EVAL_FLAG_STRICT | EVAL_FLAG_COMPILE_ONLY) as i32
}

/// The outcome of a coercion that hands back a status and a result: the error
/// of the pending exception under a negative status, the result otherwise.
pub open spec fn coerced<'js, T>(ctx: Ctx<'js>, status: i32, value: T, pending: Option<Thrown>)
    -> Result<T, ErrorView> {
    if status < 0 {
        Err(exception_of(ctx, pending))
    } else {
        Ok(value)
    }
}

impl Context {
    #[verifier::type_invariant]
    spec fn well_formed(self) -> bool {
        self.ctx != 0 && self.rt != 0
    }

    /// The native handle of the context.
    pub closed spec fn handle_spec(&self) -> usize {
        self.ctx
    }

    /// The native handle of the runtime of the context.
    pub closed spec fn runtime_spec(&self) -> usize {
        self.rt
    }

    /// Whether the engine was asked for the group of intrinsic objects when
    /// the context was made.
    pub closed spec fn requested(&self, group: Intrinsic) -> bool {
        self.enabled@[group.index_spec()]
    }

    /// The token of an invocation on this context.
    pub closed spec fn token<'js>(&self) -> Ctx<'js> {
        Ctx { ctx: self.ctx, marker: PhantomData }
    }

    /// The token of an invocation on a context is a token of that context.
    pub proof fn lemma_token_of_context<'js>(&self)
        ensures
            self.token::<'js>().handle_spec() == self.handle_spec(),
    {
    }

    pub(crate) fn from_parts(raw: usize, rt: usize, enabled: [bool; 15]) -> (r: Result<
        Context,
        Error,
    >)
        requires
            rt != 0,
        ensures
            match r {
                Ok(context) => raw != 0 && context.handle_spec() == raw && context.runtime_spec()
                    == rt && forall|group: Intrinsic|
                    #[trigger] context.requested(group) == enabled@[group.index_spec()],
                Err(e) => raw == 0 && e@ == ErrorView::Allocation,
            },
    {
        if raw == 0 {
            Err(Error::Allocation)
        } else {
            Ok(Context { ctx: raw, rt, enabled })
        }
    }

    /// A context with only the required functions: `raw` is the handle that
    /// the engine returned for a new bare context of `runtime`, null where it
    /// could not allocate one.
    pub fn base(runtime: &Runtime, raw: usize) -> (r: Result<Context, Error>)
        ensures
            match r {
                Ok(context) => raw != 0 && context.handle_spec() == raw && context.runtime_spec()
                    == runtime.handle_spec() && forall|group: Intrinsic| !context.requested(group),
                Err(e) => raw == 0 && e@ == ErrorView::Allocation,
            },
    {
        ContextBuilder::new(runtime).build(raw)
    }

    /// A context with all standard functions: `raw` is the handle that the
    /// engine returned for a new full context of `runtime`, null where it
    /// could not allocate one.
    pub fn full(runtime: &Runtime, raw: usize) -> (r: Result<Context, Error>)
        ensures
            match r {
                Ok(context) => raw != 0 && context.handle_spec() == raw && context.runtime_spec()
                    == runtime.handle_spec() && forall|group: Intrinsic|
                    #[trigger] context.requested(group) == builder::full_requests(group),
                Err(e) => raw == 0 && e@ == ErrorView::Allocation,
            },
    {
        ContextBuilder::new(runtime).full().build(raw)
    }

    /// A builder for a context with a chosen set of intrinsic objects.
    pub fn build(runtime: &Runtime) -> (builder: ContextBuilder)
        ensures
            builder.runtime_spec() == runtime.handle_spec(),
            forall|group: Intrinsic| !builder.requested(group),
    {
        ContextBuilder::new(runtime)
    }

    /// The native handle of the context.
    #[verifier::when_used_as_spec(handle_spec)]
    pub fn handle(&self) -> (ctx: usize)
        ensures
            ctx == self.handle_spec(),
            ctx != 0,
    {
        proof {
            use_type_invariant(self);
        }
        self.ctx
    }

    /// The native handle of the runtime of the context.
    #[verifier::when_used_as_spec(runtime_spec)]
    pub fn runtime(&self) -> (rt: usize)
        ensures
            rt == self.runtime_spec(),
            rt != 0,
    {
        proof {
            use_type_invariant(self);
        }
        self.rt
    }

    /// Whether the engine was asked for the group of intrinsic objects when
    /// the context was made.
    pub fn is_requested(&self, group: Intrinsic) -> (r: bool)
        ensures
            r == self.requested(group),
    {
        self.enabled[group.index()]
    }

    /// The stack limit to hand to the engine for a limit of `size` bytes.
    pub fn set_max_stack_size(&self, size: usize) -> (bytes: u64)
        ensures
            bytes == size,
    {
        size as u64
    }

    /// The flag to hand to the engine to switch the big number extension on
    /// or off.
    pub fn enable_big_num_ext(&self, enable: bool) -> (flag: i32)
        ensures
            flag == if enable { 1i32 } else { 0i32 },
    {
        if enable {
            1
        } else {
            0
        }
    }

    /// Runs `f` with the token of a fresh invocation on this context. This is
    /// the only way to obtain a token.
    pub fn with<F, R>(&self, f: F) -> (r: R) where F: FnOnce(Ctx) -> R
        requires
            f.requires((self.token(),)),
        ensures
            f.ensures((self.token(),), r),
    {
        let ctx = Ctx::new(self);
        f(ctx)
    }
}

impl<'js> Ctx<'js> {
    /// The native handle of the context of the token.
    pub closed spec fn handle_spec(&self) -> usize {
        self.ctx
    }

    fn new(context: &'js Context) -> (ctx: Ctx<'js>)
        ensures
            ctx == context.token(),
    {
        Ctx { ctx: context.handle(), marker: PhantomData }
    }

    /// The native handle of the context of the token.
    #[verifier::when_used_as_spec(handle_spec)]
    pub fn handle(&self) -> (ctx: usize)
        ensures
            ctx == self.handle_spec(),
    {
        self.ctx
    }

    fn eval_call_with(source: Vec<u8>, file_name: Vec<u8>, flags: i32) -> (r: Result<
        EvalCall,
        Error,
    >)
        ensures
            match r {
                Ok(call) => !source@.contains(0u8) && call.source@ == source@ && call.file_name@
                    == file_name@ && call.flags == flags,
                Err(e) => e@ matches ErrorView::InvalidString(position) && is_first_nul(
                    source@,
                    position as int,
                ),
            },
    {
        match find_nul(&source) {
            Some(position) => Err(Error::InvalidString(position)),
            None => Ok(EvalCall { source, file_name, flags }),
        }
    }

    /// The call that evaluates `source` as a global script in strict mode,
    /// under the file name `eval_script`; the error of a null byte in the
    /// source, with the place of the first one.
    pub fn eval_call(self, source: Vec<u8>) -> (r: Result<EvalCall, Error>)
        ensures
            match r {
                Ok(call) => !source@.contains(0u8) && call.source@ == source@ && call.file_name@
                    == vstd::utf8::encode_utf8("eval_script"@) && call.flags == script_flags(),
                Err(e) => e@ matches ErrorView::InvalidString(position) && is_first_nul(
                    source@,
                    position as int,
                ),
            },
    {
        let file_name = "eval_script".as_bytes_vec();
        let flags = eval_type_global() | eval_flag_strict();
        Ctx::eval_call_with(source, file_name, flags as i32)
    }

    /// What the evaluation of a script amounts to, converted to `V`: `reply`
    /// is what the engine returned, `pending` what the driver found in the
    /// exception slot after a failure.
    pub fn eval<V: FromJs<'js>>(self, reply: RawValue, pending: Option<Thrown>) -> (r: Result<
        V,
        Error,
    >)
        ensures
            is_result(r, converted::<V>(self, reply, pending)),
    {
        convert::<V>(self, reply, pending)
    }

    /// The call that compiles `source` as the module `name` in strict mode
    /// without running it; the error of a null byte in the name or, where the
    /// name has none, in the source, with the place of the first one.
    pub fn compile_call(self, source: Vec<u8>, name: Vec<u8>) -> (r: Result<EvalCall, Error>)
        ensures
            match r {
                Ok(call) => !name@.contains(0u8) && !source@.contains(0u8) && call.source@
                    == source@ && call.file_name@ == name@ && call.flags == module_flags(),
                Err(e) => e@ matches ErrorView::InvalidString(position) && (is_first_nul(
                    name@,
                    position as int,
                ) || (!name@.contains(0u8) && is_first_nul(source@, position as int))),
            },
    {
        match find_nul(&name) {
            Some(position) => Err(Error::InvalidString(position)),
            None => {
                let flags = eval_type_module() | eval_flag_strict() | eval_flag_compile_only();
                Ctx::eval_call_with(source, name, flags as i32)
            },
        }
    }

    /// What the compilation of a module amounts to: the error of the pending
    /// exception where the engine failed, the module where it returned one,
    /// and `Unknown` where it returned anything else.
    pub fn compile(self, reply: RawValue, pending: Option<Thrown>) -> (r: Result<
        Module<'js>,
        Error,
    >)
        ensures
            is_result(
                r,
                if reply.tag_spec() == TAG_EXCEPTION {
                    Err(exception_of(self, pending))
                } else if reply.tag_spec() == TAG_MODULE {
                    match reply.payload_spec() {
                        Payload::Ref { ptr, .. } => Ok(Module(JsRef { ctx: self, ptr })),
                        _ => Err(ErrorView::Unknown),
                    }
                } else {
                    Err(ErrorView::Unknown)
                },
            ),
            reply.tag_spec() == TAG_MODULE ==> r is Ok,
    {
        if handle_exception(&reply) {
            Err(get_exception(self, pending))
        } else if reply.tag() == tag_module() {
            match reply.payload() {
                Payload::Ref { ptr, .. } => Ok(Module(JsRef { ctx: self, ptr })),
                _ => Err(Error::Unknown),
            }
        } else {
            Err(Error::Unknown)
        }
    }

    /// What the coercion of a value to a string amounts to: the error of the
    /// pending exception where the engine failed, the string where it returned
    /// one, and `Unknown` where it returned anything else.
    pub fn coerce_string(self, reply: RawValue, pending: Option<Thrown>) -> (r: Result<
        JsString<'js>,
        Error,
    >)
        ensures
            is_result(
                r,
                if reply.tag_spec() == TAG_EXCEPTION {
                    Err(exception_of(self, pending))
                } else if reply.tag_spec() == TAG_STRING {
                    match reply.payload_spec() {
                        Payload::Ref { ptr, .. } => Ok(JsString(JsRef { ctx: self, ptr })),
                        _ => Err(ErrorView::Unknown),
                    }
                } else {
                    Err(ErrorView::Unknown)
                },
            ),
            reply.tag_spec() == TAG_STRING ==> r is Ok,
    {
        if handle_exception(&reply) {
            Err(get_exception(self, pending))
        } else if reply.tag() == tag_string() {
            match reply.payload() {
                Payload::Ref { ptr, .. } => Ok(JsString(JsRef { ctx: self, ptr })),
                _ => Err(Error::Unknown),
            }
        } else {
            Err(Error::Unknown)
        }
    }

    /// What the coercion of a value to a 32-bit integer amounts to: `status`
    /// and `value` are what the engine handed back.
    pub fn coerce_i32(self, status: i32, value: i32, pending: Option<Thrown>) -> (r: Result<
        i32,
        Error,
    >)
        ensures
            is_result(r, coerced(self, status, value, pending)),
    {
        if handle_status(status) {
            return Err(get_exception(self, pending));
        }
        Ok(value)
    }

    /// What the coercion of a value to a 64-bit integer amounts to: `status`
    /// and `value` are what the engine handed back.
    pub fn coerce_i64(self, status: i32, value: i64, pending: Option<Thrown>) -> (r: Result<
        i64,
        Error,
    >)
        ensures
            is_result(r, coerced(self, status, value, pending)),
    {
        if handle_status(status) {
            return Err(get_exception(self, pending));
        }
        Ok(value)
    }

    /// What the coercion of a value to an index amounts to: `status` and
    /// `value` are what the engine handed back.
    pub fn coerce_u64(self, status: i32, value: u64, pending: Option<Thrown>) -> (r: Result<
        u64,
        Error,
    >)
        ensures
            is_result(r, coerced(self, status, value, pending)),
    {
        if handle_status(status) {
            return Err(get_exception(self, pending));
        }
        Ok(value)
    }

    /// What the coercion of a value to a float amounts to, the float given and
    /// returned by its bit pattern: `status` and `bits` are what the engine
    /// handed back.
    pub fn coerce_f64(self, status: i32, bits: u64, pending: Option<Thrown>) -> (r: Result<
        u64,
        Error,
    >)
        ensures
            is_result(r, coerced(self, status, bits, pending)),
    {
        if handle_status(status) {
            return Err(get_exception(self, pending));
        }
        Ok(bits)
    }

    /// What the coercion of a value to a boolean amounts to: `status` is what
    /// the engine handed back, negative for a failure, 1 for `true`.
    pub fn coerce_bool(self, status: i32, pending: Option<Thrown>) -> (r: Result<bool, Error>)
        ensures
            is_result(r, coerced(self, status, status == 1, pending)),
    {
        if handle_status(status) {
            return Err(get_exception(self, pending));
        }
        Ok(status == 1)
    }

    /// The global object of the context, from the native value that the
    /// engine returned for it; `None` where that is no object.
    pub fn globals(self, raw: RawValue) -> (r: Option<Object<'js>>)
        ensures
            r is Some <==> raw.tag_spec() == TAG_OBJECT,
            r matches Some(object) ==> raw.payload_spec() matches Payload::Ref { ptr, .. }
                && object == Object(JsRef { ctx: self, ptr }),
    {
        if raw.tag() == tag_object() {
            match raw.payload() {
                Payload::Ref { ptr, .. } => Some(Object(JsRef { ctx: self, ptr })),
                _ => None,
            }
        } else {
            None
        }
    }
}

} // verus!
