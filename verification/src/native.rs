//! What the library shares with the engine's bindings: the tags by which the
//! engine tells its values apart, the flags of an evaluation, and the image of
//! a native value in plain data.

use vstd::prelude::*;

verus! {

/// The tag of a symbol.
pub const TAG_SYMBOL: i32 = -8;

/// The tag of a string.
pub const TAG_STRING: i32 = -7;

/// The tag of a compiled module.
pub const TAG_MODULE: i32 = -3;

/// The tag of an object, which arrays and functions are too.
pub const TAG_OBJECT: i32 = -1;

/// The tag of a 32-bit integer.
pub const TAG_INT: i32 = 0;

/// The tag of a boolean.
pub const TAG_BOOL: i32 = 1;

/// The tag of `null`.
pub const TAG_NULL: i32 = 2;

/// The tag of `undefined`.
pub const TAG_UNDEFINED: i32 = 3;

/// The tag of the value by which the engine reports a failure.
pub const TAG_EXCEPTION: i32 = 6;

/// The tag of a 64-bit float.
pub const TAG_FLOAT64: i32 = 7;

/// The least tag of a value that the engine counts references to.
pub const TAG_FIRST: i32 = -11;

/// Evaluate the source as a global script.
pub const EVAL_TYPE_GLOBAL: u32 = 0;

/// Evaluate the source as a module.
pub const EVAL_TYPE_MODULE: u32 = 1;

/// Evaluate in strict mode.
pub const EVAL_FLAG_STRICT: u32 = 8;

/// Compile the source and do not run it.
pub const EVAL_FLAG_COMPILE_ONLY: u32 = 32;

/// The atom that the engine returns where it could not intern a key.
pub const ATOM_NULL: u32 = 0;

/// `rquickjs_sys::JS_TAG_SYMBOL`, the constant -8.
#[verifier::external_body]
pub(crate) fn tag_symbol() -> (tag: i32)
    ensures
        tag == TAG_SYMBOL,
{
    rquickjs_sys::JS_TAG_SYMBOL
}

/// `rquickjs_sys::JS_TAG_STRING`, the constant -7.
#[verifier::external_body]
pub(crate) fn tag_string() -> (tag: i32)
    ensures
        tag == TAG_STRING,
{
    rquickjs_sys::JS_TAG_STRING
}

/// `rquickjs_sys::JS_TAG_MODULE`, the constant -3.
#[verifier::external_body]
pub(crate) fn tag_module() -> (tag: i32)
    ensures
        tag == TAG_MODULE,
{
    rquickjs_sys::JS_TAG_MODULE
}

/// `rquickjs_sys::JS_TAG_OBJECT`, the constant -1.
#[verifier::external_body]
pub(crate) fn tag_object() -> (tag: i32)
    ensures
        tag == TAG_OBJECT,
{
    rquickjs_sys::JS_TAG_OBJECT
}

/// `rquickjs_sys::JS_TAG_INT`, the constant 0.
#[verifier::external_body]
pub(crate) fn tag_int() -> (tag: i32)
    ensures
        tag == TAG_INT,
{
    rquickjs_sys::JS_TAG_INT
}

/// `rquickjs_sys::JS_TAG_BOOL`, the constant 1.
#[verifier::external_body]
pub(crate) fn tag_bool() -> (tag: i32)
    ensures
        tag == TAG_BOOL,
{
    rquickjs_sys::JS_TAG_BOOL
}

/// `rquickjs_sys::JS_TAG_NULL`, the constant 2.
#[verifier::external_body]
pub(crate) fn tag_null() -> (tag: i32)
    ensures
        tag == TAG_NULL,
{
    rquickjs_sys::JS_TAG_NULL
}

/// `rquickjs_sys::JS_TAG_UNDEFINED`, the constant 3.
#[verifier::external_body]
pub(crate) fn tag_undefined() -> (tag: i32)
    ensures
        tag == TAG_UNDEFINED,
{
    rquickjs_sys::JS_TAG_UNDEFINED
}

/// `rquickjs_sys::JS_TAG_EXCEPTION`, the constant 6.
#[verifier::external_body]
pub(crate) fn tag_exception() -> (tag: i32)
    ensures
        tag == TAG_EXCEPTION,
{
    rquickjs_sys::JS_TAG_EXCEPTION
}

/// `rquickjs_sys::JS_TAG_FLOAT64`, the constant 7.
#[verifier::external_body]
pub(crate) fn tag_float64() -> (tag: i32)
    ensures
        tag == TAG_FLOAT64,
{
    rquickjs_sys::JS_TAG_FLOAT64
}

/// `rquickjs_sys::JS_TAG_FIRST`, the constant -11.
#[verifier::external_body]
pub(crate) fn tag_first() -> (tag: i32)
    ensures
        tag == TAG_FIRST,
{
    rquickjs_sys::JS_TAG_FIRST
}

/// `rquickjs_sys::JS_EVAL_TYPE_GLOBAL`, the constant 0.
#[verifier::external_body]
pub(crate) fn eval_type_global() -> (flag: u32)
    ensures
        flag == EVAL_TYPE_GLOBAL,
{
    rquickjs_sys::JS_EVAL_TYPE_GLOBAL
}

/// `rquickjs_sys::JS_EVAL_TYPE_MODULE`, the constant 1.
#[verifier::external_body]
pub(crate) fn eval_type_module() -> (flag: u32)
    ensures
        flag == EVAL_TYPE_MODULE,
{
    rquickjs_sys::JS_EVAL_TYPE_MODULE
}

/// `rquickjs_sys::JS_EVAL_FLAG_STRICT`, the constant 8.
#[verifier::external_body]
pub(crate) fn eval_flag_strict() -> (flag: u32)
    ensures
        flag == EVAL_FLAG_STRICT,
{
    rquickjs_sys::JS_EVAL_FLAG_STRICT
}

/// `rquickjs_sys::JS_EVAL_FLAG_COMPILE_ONLY`, the constant 32.
#[verifier::external_body]
pub(crate) fn eval_flag_compile_only() -> (flag: u32)
    ensures
        flag == EVAL_FLAG_COMPILE_ONLY,
{
    rquickjs_sys::JS_EVAL_FLAG_COMPILE_ONLY
}

/// Which member of a native value's payload is live.
#[derive(Clone, Copy, Debug, PartialEq, Eq)]
pub enum PayloadKind {
    /// A 32-bit integer: integers, booleans and the values without content.
    Int,
    /// A 64-bit float.
    Float,
    /// A pointer to an object that the engine counts references to.
    Ref,
}

/// The payload of a native value: the 32-bit integer, the bits of the 64-bit
/// float, or the address of the referenced object together with the engine's
/// answers to "is it an array" and "is it a function".
#[derive(Clone, Copy, Debug, PartialEq, Eq)]
pub enum Payload {
    Int(i32),
    Float(u64),
    Ref { ptr: usize, is_array: i32, is_function: i32 },
}

impl Payload {
    pub open spec fn kind(self) -> PayloadKind {
        match self {
            Payload::Int(_) => PayloadKind::Int,
            Payload::Float(_) => PayloadKind::Float,
            Payload::Ref { .. } => PayloadKind::Ref,
        }
    }
}

/// The member of the payload that a value with this tag holds: a float under
/// the float tag, a pointer under the tags from `TAG_FIRST` up to -1, an
/// integer under every other tag.
pub open spec fn payload_kind_spec(tag: i32) -> PayloadKind {
    if tag == TAG_FLOAT64 {
        PayloadKind::Float
    } else if TAG_FIRST <= tag < 0 {
        PayloadKind::Ref
    } else {
        PayloadKind::Int
    }
}

/// The member of the payload that a value with this tag holds.
pub fn payload_kind(tag: i32) -> (kind: PayloadKind)
    ensures
        kind == payload_kind_spec(tag),
{
    if tag == tag_float64() {
        PayloadKind::Float
    } else if tag_first() <= tag && tag < 0 {
        PayloadKind::Ref
    } else {
        PayloadKind::Int
    }
}

/// The image of a native value in plain data: its tag and the live member of
/// its payload.
#[derive(Clone, Copy, Debug, PartialEq, Eq)]
pub struct RawValue {
    tag: i32,
    payload: Payload,
}

impl RawValue {
    #[verifier::type_invariant]
    spec fn well_formed(self) -> bool {
        self.payload.kind() == payload_kind_spec(self.tag)
    }

    /// The tag of the value.
    pub closed spec fn tag_spec(&self) -> i32 {
        self.tag
    }

    /// The payload of the value.
    pub closed spec fn payload_spec(&self) -> Payload {
        self.payload
    }

    /// The image of a native value, where the payload is the member that the
    /// tag calls for; `None` where it is another.
    pub fn new(tag: i32, payload: Payload) -> (r: Option<RawValue>)
        ensures
            r is Some <==> payload.kind() == payload_kind_spec(tag),
            r matches Some(raw) ==> raw.tag_spec() == tag && raw.payload_spec() == payload,
    {
        let kind = payload_kind(tag);
        let agrees = match payload {
            Payload::Int(_) => matches!(kind, PayloadKind::Int),
            Payload::Float(_) => matches!(kind, PayloadKind::Float),
            Payload::Ref { .. } => matches!(kind, PayloadKind::Ref),
        };
        if agrees {
            Some(RawValue { tag, payload })
        } else {
            None
        }
    }

    /// The tag of the value.
    #[verifier::when_used_as_spec(tag_spec)]
    pub fn tag(&self) -> (tag: i32)
        ensures
            tag == self.tag_spec(),
    {
        self.tag
    }

    /// The payload of the value.
    #[verifier::when_used_as_spec(payload_spec)]
    pub fn payload(&self) -> (payload: Payload)
        ensures
            payload == self.payload_spec(),
            payload.kind() == payload_kind_spec(self.tag_spec()),
    {
        proof {
            use_type_invariant(self);
        }
        self.payload
    }

    /// The image of the integer `value`.
    pub fn of_int(value: i32) -> (raw: RawValue)
        ensures
            raw.tag_spec() == TAG_INT,
            raw.payload_spec() == Payload::Int(value),
    {
        RawValue { tag: tag_int(), payload: Payload::Int(value) }
    }

    /// The image of the boolean `value`.
    pub fn of_bool(value: bool) -> (raw: RawValue)
        ensures
            raw.tag_spec() == TAG_BOOL,
            raw.payload_spec() == Payload::Int(if value { 1i32 } else { 0i32 }),
    {
        RawValue { tag: tag_bool(), payload: Payload::Int(if value { 1 } else { 0 }) }
    }

    /// The image of `null`.
    pub fn null() -> (raw: RawValue)
        ensures
            raw.tag_spec() == TAG_NULL,
            raw.payload_spec() == Payload::Int(0),
    {
        RawValue { tag: tag_null(), payload: Payload::Int(0) }
    }

    /// The image of `undefined`.
    pub fn undefined() -> (raw: RawValue)
        ensures
            raw.tag_spec() == TAG_UNDEFINED,
            raw.payload_spec() == Payload::Int(0),
    {
        RawValue { tag: tag_undefined(), payload: Payload::Int(0) }
    }

    /// The image of the value by which the engine reports a failure.
    pub fn exception() -> (raw: RawValue)
        ensures
            raw.tag_spec() == TAG_EXCEPTION,
            raw.payload_spec() == Payload::Int(0),
    {
        RawValue { tag: tag_exception(), payload: Payload::Int(0) }
    }

    /// The image of the float with the bit pattern `bits`.
    pub fn of_float(bits: u64) -> (raw: RawValue)
        ensures
            raw.tag_spec() == TAG_FLOAT64,
            raw.payload_spec() == Payload::Float(bits),
    {
        RawValue { tag: tag_float64(), payload: Payload::Float(bits) }
    }
}

} // verus!
