//! The values of the engine as the host sees them.

use crate::context::Ctx;
use crate::error::{error_from_js, is_utf8_cause, Error, ErrorView, Utf8Cause};
use crate::native::{
    tag_bool, tag_exception, tag_int, tag_null, tag_object, tag_string, tag_symbol,
    tag_undefined, Payload, RawValue, TAG_BOOL, TAG_EXCEPTION, TAG_INT, TAG_NULL, TAG_OBJECT,
    TAG_FLOAT64, TAG_STRING, TAG_SYMBOL, TAG_UNDEFINED,
};
use vstd::prelude::*;
use vstd::string::*;

pub mod array;
pub mod convert;

pub use crate::error::ErrorFields;
pub use array::Array;
pub use convert::{FromJs, IntoJs, IntoJsArgs};

verus! {

/// `core::str::from_utf8`, with the text made an owned string and the error
/// converted by its two getters, `valid_up_to` and `error_len`: the text whose
/// UTF-8 encoding the bytes are; else the length of the longest valid prefix
/// and the length of the offending sequence, which is absent exactly where the
/// bytes end inside a sequence.
#[verifier::external_body]
fn utf8_text(bytes: &Vec<u8>) -> (r: Result<String, Utf8Cause>)
    ensures
        r is Ok <==> vstd::utf8::valid_utf8(bytes@),
        r matches Ok(text) ==> vstd::utf8::encode_utf8(text@) == bytes@,
        r matches Err(cause) ==> is_utf8_cause(bytes@, cause),
{
    match core::str::from_utf8(bytes) {
        Ok(text) => Ok(text.to_owned()),
        Err(e) => Err(Utf8Cause { valid_up_to: e.valid_up_to(), error_len: e.error_len() }),
    }
}

/// A reference to an object of the engine, bound to the invocation that
/// obtained it.
#[derive(Clone, Copy, Debug, PartialEq, Eq)]
pub struct JsRef<'js> {
    pub ctx: Ctx<'js>,
    pub ptr: usize,
}

/// A string of the engine.
#[derive(Clone, Copy, Debug, PartialEq, Eq)]
pub struct JsString<'js>(pub JsRef<'js>);

/// A symbol of the engine.
#[derive(Clone, Copy, Debug, PartialEq, Eq)]
pub struct Symbol<'js>(pub JsRef<'js>);

/// An object of the engine.
#[derive(Clone, Copy, Debug, PartialEq, Eq)]
pub struct Object<'js>(pub JsRef<'js>);

/// A function of the engine.
#[derive(Clone, Copy, Debug, PartialEq, Eq)]
pub struct Function<'js>(pub JsRef<'js>);

/// A compiled module of the engine.
#[derive(Clone, Copy, Debug, PartialEq, Eq)]
pub struct Module<'js>(pub JsRef<'js>);

/// Any value of the engine. A float is held by its bit pattern.
#[derive(Clone, Copy, Debug, PartialEq, Eq)]
pub enum Value<'js> {
    Undefined,
    Null,
    Bool(bool),
    Int(i32),
    Float(u64),
    String(JsString<'js>),
    Symbol(Symbol<'js>),
    Object(Object<'js>),
    Array(Array<'js>),
    Function(Function<'js>),
    Exception,
}

/// What the driver found in the exception slot of a context: the value that
/// was pending, and what it read off it.
#[derive(Clone, Debug, PartialEq, Eq)]
pub struct Thrown {
    pub value: RawValue,
    pub fields: ErrorFields,
}

/// The name of the kind of a value, as error messages give it.
pub open spec fn kind_name_spec(value: Value) -> Seq<char> {
    match value {
        Value::Undefined => "undefined"@,
        Value::Null => "null"@,
        Value::Bool(_) => "bool"@,
        Value::Int(_) => "integer"@,
        Value::Float(_) => "float"@,
        Value::String(_) => "string"@,
        Value::Symbol(_) => "symbol"@,
        Value::Object(_) => "object"@,
        Value::Array(_) => "array"@,
        Value::Function(_) => "function"@,
        Value::Exception => "exception"@,
    }
}

/// The value that a native value stands for: by its tag an integer, a boolean
/// (any payload but zero is `true`), `null`, `undefined`, the failure
/// sentinel, a float, a string, a symbol, or an object, which is an array
/// where the engine says so, else a function where the engine says so, else a
/// plain object. `None` under every other tag.
pub open spec fn value_of<'js>(ctx: Ctx<'js>, raw: RawValue) -> Option<Value<'js>> {
    let tag = raw.tag_spec();
    match raw.payload_spec() {
        Payload::Int(i) => if tag == TAG_INT {
            Some(Value::Int(i))
        } else if tag == TAG_BOOL {
            Some(Value::Bool(i != 0))
        } else if tag == TAG_NULL {
            Some(Value::Null)
        } else if tag == TAG_UNDEFINED {
            Some(Value::Undefined)
        } else if tag == TAG_EXCEPTION {
            Some(Value::Exception)
        } else {
            None
        },
        Payload::Float(bits) => Some(Value::Float(bits)),
        Payload::Ref { ptr, is_array, is_function } => {
            let r = JsRef { ctx, ptr };
            if tag == TAG_STRING {
                Some(Value::String(JsString(r)))
            } else if tag == TAG_SYMBOL {
                Some(Value::Symbol(Symbol(r)))
            } else if tag == TAG_OBJECT {
                if is_array == 1 {
                    Some(Value::Array(Array(r)))
                } else if is_function == 1 {
                    Some(Value::Function(Function(r)))
                } else {
                    Some(Value::Object(Object(r)))
                }
            } else {
                None
            }
        },
    }
}

/// The error that stands for a failure of the engine, given what was found in
/// the exception slot: `Unknown` where the slot was not read or held `null`
/// (nothing was pending); else the exception that the pending value converts
/// to, or the conversion error from `object` to `error` where it is no error
/// object, be it a value of another kind or of no kind that the host knows.
pub open spec fn exception_of<'js>(ctx: Ctx<'js>, pending: Option<Thrown>) -> ErrorView {
    match pending {
        None => ErrorView::Unknown,
        Some(thrown) => if thrown.value.tag_spec() == TAG_NULL {
            ErrorView::Unknown
        } else {
            match value_of(ctx, thrown.value) {
                None => ErrorView::FromJs { from: "object"@, to: "error"@, message: None },
                Some(value) => match error_from_js(value, thrown.fields@) {
                    Ok(e) => e,
                    Err(e) => e,
                },
            }
        },
    }
}

/// What a reply of the engine amounts to: the error of the pending exception
/// where the reply is the failure sentinel, the value it stands for otherwise,
/// and `Unknown` where it stands for none.
pub open spec fn checked_value_of<'js>(ctx: Ctx<'js>, reply: RawValue, pending: Option<Thrown>)
    -> Result<Value<'js>, ErrorView> {
    if reply.tag_spec() == TAG_EXCEPTION {
        Err(exception_of(ctx, pending))
    } else {
        match value_of(ctx, reply) {
            Some(value) => Ok(value),
            None => Err(ErrorView::Unknown),
        }
    }
}

/// The native value of a value: its tag and its payload, a reference with the
/// engine's answers as the kind of the value implies them.
pub open spec fn native_of(value: Value) -> (i32, Payload) {
    match value {
        Value::Undefined => (TAG_UNDEFINED, Payload::Int(0)),
        Value::Null => (TAG_NULL, Payload::Int(0)),
        Value::Bool(b) => (TAG_BOOL, Payload::Int(if b { 1i32 } else { 0i32 })),
        Value::Int(i) => (TAG_INT, Payload::Int(i)),
        Value::Float(bits) => (TAG_FLOAT64, Payload::Float(bits)),
        Value::String(s) => (TAG_STRING, Payload::Ref { ptr: s.0.ptr, is_array: 0, is_function: 0 }),
        Value::Symbol(s) => (TAG_SYMBOL, Payload::Ref { ptr: s.0.ptr, is_array: 0, is_function: 0 }),
        Value::Object(o) => (TAG_OBJECT, Payload::Ref { ptr: o.0.ptr, is_array: 0, is_function: 0 }),
        Value::Array(a) => (TAG_OBJECT, Payload::Ref { ptr: a.0.ptr, is_array: 1, is_function: 0 }),
        Value::Function(f) => (
            TAG_OBJECT,
            Payload::Ref { ptr: f.0.ptr, is_array: 0, is_function: 1 },
        ),
        Value::Exception => (TAG_EXCEPTION, Payload::Int(0)),
    }
}

/// The context of the invocation that a value belongs to, where it is a
/// reference.
pub open spec fn context_of<'js>(value: Value<'js>) -> Option<Ctx<'js>> {
    match value {
        Value::String(s) => Some(s.0.ctx),
        Value::Symbol(s) => Some(s.0.ctx),
        Value::Object(o) => Some(o.0.ctx),
        Value::Array(a) => Some(a.0.ctx),
        Value::Function(f) => Some(f.0.ctx),
        _ => None,
    }
}

/// A value that is handed to the engine and comes back unchanged stands for
/// itself: the native value of a value of an invocation is read as that
/// value.
pub proof fn lemma_native_round_trip<'js>(ctx: Ctx<'js>, value: Value<'js>, raw: RawValue)
    requires
        context_of(value) matches Some(c) ==> c == ctx,
        (raw.tag_spec(), raw.payload_spec()) == native_of(value),
    ensures
        value_of(ctx, raw) == Some(value),
{
}

/// No caller is handed the failure sentinel as a value: a reply that is the
/// sentinel always amounts to an error.
pub proof fn lemma_sentinel_never_escapes<'js>(
    ctx: Ctx<'js>,
    reply: RawValue,
    pending: Option<Thrown>,
)
    ensures
        !(checked_value_of(ctx, reply, pending) matches Ok(value) && value is Exception),
        reply.tag_spec() == TAG_EXCEPTION ==> checked_value_of(ctx, reply, pending) is Err,
{
}

/// Whether `r` is the result `expected`, errors taken by their content.
pub open spec fn is_result<T>(r: Result<T, Error>, expected: Result<T, ErrorView>) -> bool {
    match r {
        Ok(v) => expected == Ok::<T, ErrorView>(v),
        Err(e) => expected == Err::<T, ErrorView>(e@),
    }
}

/// Whether a reply of the engine is the failure sentinel, after which the
/// exception slot is to be read.
pub fn handle_exception(reply: &RawValue) -> (failed: bool)
    ensures
        failed == (reply.tag_spec() == TAG_EXCEPTION),
{
    reply.tag() == tag_exception()
}

/// Whether a status of the engine reports a failure, after which the
/// exception slot is to be read.
pub fn handle_status(status: i32) -> (failed: bool)
    ensures
        failed == (status < 0),
{
    status < 0
}

/// Whether a native value is an object that is neither an array nor a
/// function.
pub open spec fn is_plain_object(raw: RawValue) -> bool {
    raw.tag_spec() == TAG_OBJECT && (raw.payload_spec() matches Payload::Ref {
        is_array,
        is_function,
        ..
    } && is_array != 1 && is_function != 1)
}

impl Thrown {
    /// Whether the properties of an error are to be read off a pending value:
    /// off an object that is neither an array nor a function, the only kind of
    /// value that converts to an exception.
    pub fn reads_properties(value: &RawValue) -> (r: bool)
        ensures
            r == is_plain_object(*value),
    {
        if value.tag() == tag_object() {
            match value.payload() {
                Payload::Ref { is_array, is_function, .. } => is_array != 1 && is_function != 1,
                _ => false,
            }
        } else {
            false
        }
    }
}

/// A native value is read as an object exactly where it is a plain object.
pub proof fn lemma_plain_object_is_object<'js>(ctx: Ctx<'js>, raw: RawValue)
    ensures
        is_plain_object(raw) <==> (value_of(ctx, raw) matches Some(v) && v is Object),
{
}

/// The error that stands for a failure of the engine, given what was found in
/// the exception slot.
pub fn get_exception<'js>(ctx: Ctx<'js>, pending: Option<Thrown>) -> (e: Error)
    ensures
        e@ == exception_of(ctx, pending),
{
    match pending {
        None => Error::Unknown,
        Some(thrown) => {
            if thrown.value.tag() == tag_null() {
                Error::Unknown
            } else {
                match Value::from_js_value_unchecked(ctx, thrown.value) {
                    None => Error::FromJs { from: "object", to: "error", message: None },
                    Some(value) => match Error::from_js(ctx, value, thrown.fields) {
                        Ok(e) => e,
                        Err(e) => e,
                    },
                }
            }
        },
    }
}

impl<'js> Object<'js> {
    /// The native value of the object.
    pub fn as_js_value(&self) -> (v: RawValue)
        ensures
            (v.tag_spec(), v.payload_spec()) == native_of(Value::Object(*self)),
    {
        Value::Object(*self).as_js_value()
    }

    /// The value of a property, converted to `V`: `reply` is what the engine
    /// returned for the property, `pending` what the driver found in the
    /// exception slot after a failure. An absent property reads as
    /// `undefined`.
    pub fn get<V: FromJs<'js>>(&self, reply: RawValue, pending: Option<Thrown>) -> (r: Result<
        V,
        Error,
    >)
        ensures
            is_result(r, convert::converted::<V>(self.0.ctx, reply, pending)),
    {
        convert::convert::<V>(self.0.ctx, reply, pending)
    }

    /// What an assignment to a property amounts to: `status` is what the
    /// engine handed back, negative for a failure, and `pending` what the
    /// driver found in the exception slot after a failure.
    pub fn set(&self, status: i32, pending: Option<Thrown>) -> (r: Result<(), Error>)
        ensures
            match r {
                Ok(_) => status >= 0,
                Err(e) => status < 0 && e@ == exception_of(self.0.ctx, pending),
            },
    {
        if handle_status(status) {
            Err(get_exception(self.0.ctx, pending))
        } else {
            Ok(())
        }
    }
}

impl<'js> JsString<'js> {
    /// The host text of a string of the engine, from the bytes that the
    /// engine gave for it: the text whose UTF-8 encoding the bytes are, or the
    /// error of bytes that are not UTF-8.
    pub fn text(bytes: &Vec<u8>) -> (r: Result<String, Error>)
        ensures
            r is Ok <==> vstd::utf8::valid_utf8(bytes@),
            r matches Ok(text) ==> vstd::utf8::encode_utf8(text@) == bytes@,
            r matches Err(e) ==> e@ matches ErrorView::Utf8(cause) && is_utf8_cause(bytes@, cause),
    {
        match utf8_text(bytes) {
            Ok(text) => Ok(text),
            Err(cause) => Err(Error::Utf8(cause)),
        }
    }

    /// The bytes to hand to the engine for a new string with the given text:
    /// its UTF-8 encoding.
    pub fn utf8(text: &str) -> (bytes: Vec<u8>)
        ensures
            bytes@ == vstd::utf8::encode_utf8(text@),
    {
        text.as_bytes_vec()
    }
}

/// A host text that is handed to the engine as its UTF-8 bytes and read back
/// from the same bytes is the same text: the bytes are valid, so the reading
/// succeeds, and the only text with these bytes is the one that was encoded.
pub proof fn lemma_text_round_trip(text: Seq<char>, back: Seq<char>)
    requires
        vstd::utf8::encode_utf8(back) == vstd::utf8::encode_utf8(text),
    ensures
        vstd::utf8::valid_utf8(vstd::utf8::encode_utf8(text)),
        back == text,
{
    vstd::utf8::encode_utf8_valid_utf8(text);
    vstd::utf8::encode_utf8_decode_utf8(text);
    vstd::utf8::encode_utf8_decode_utf8(back);
}

/// A pending value that is no error object amounts to the conversion error
/// from `object` to `error`, whatever its kind.
pub proof fn lemma_pending_non_error<'js>(ctx: Ctx<'js>, thrown: Thrown)
    requires
        thrown.value.tag_spec() != TAG_NULL,
        !(is_plain_object(thrown.value) && thrown.fields@.is_error),
    ensures
        exception_of(ctx, Some(thrown)) == (ErrorView::FromJs {
            from: "object"@,
            to: "error"@,
            message: None,
        }),
{
}

impl<'js> Value<'js> {
    /// The name of the kind of the value, as error messages give it.
    pub fn kind_name(&self) -> (name: &'static str)
        ensures
            name@ == kind_name_spec(*self),
    {
        match self {
            Value::Undefined => "undefined",
            Value::Null => "null",
            Value::Bool(_) => "bool",
            Value::Int(_) => "integer",
            Value::Float(_) => "float",
            Value::String(_) => "string",
            Value::Symbol(_) => "symbol",
            Value::Object(_) => "object",
            Value::Array(_) => "array",
            Value::Function(_) => "function",
            Value::Exception => "exception",
        }
    }

    /// The native value of the value, to hand to the engine.
    pub fn as_js_value(&self) -> (raw: RawValue)
        ensures
            (raw.tag_spec(), raw.payload_spec()) == native_of(*self),
    {
        let made = match *self {
            Value::Undefined => Some(RawValue::undefined()),
            Value::Null => Some(RawValue::null()),
            Value::Bool(b) => Some(RawValue::of_bool(b)),
            Value::Int(i) => Some(RawValue::of_int(i)),
            Value::Float(bits) => Some(RawValue::of_float(bits)),
            Value::String(s) => RawValue::new(
                tag_string(),
                Payload::Ref { ptr: s.0.ptr, is_array: 0, is_function: 0 },
            ),
            Value::Symbol(s) => RawValue::new(
                tag_symbol(),
                Payload::Ref { ptr: s.0.ptr, is_array: 0, is_function: 0 },
            ),
            Value::Object(o) => RawValue::new(
                tag_object(),
                Payload::Ref { ptr: o.0.ptr, is_array: 0, is_function: 0 },
            ),
            Value::Array(a) => Some(a.as_js_value()),
            Value::Function(f) => RawValue::new(
                tag_object(),
                Payload::Ref { ptr: f.0.ptr, is_array: 0, is_function: 1 },
            ),
            Value::Exception => Some(RawValue::exception()),
        };
        match made {
            Some(raw) => raw,
            None => RawValue::undefined(),
        }
    }

    /// The value that a native value stands for, with no look at the exception
    /// slot.
    pub fn from_js_value_unchecked(ctx: Ctx<'js>, raw: RawValue) -> (r: Option<Value<'js>>)
        ensures
            r == value_of(ctx, raw),
    {
        let tag = raw.tag();
        match raw.payload() {
            Payload::Int(i) => {
                if tag == tag_int() {
                    Some(Value::Int(i))
                } else if tag == tag_bool() {
                    Some(Value::Bool(i != 0))
                } else if tag == tag_null() {
                    Some(Value::Null)
                } else if tag == tag_undefined() {
                    Some(Value::Undefined)
                } else if tag == tag_exception() {
                    Some(Value::Exception)
                } else {
                    None
                }
            },
            Payload::Float(bits) => Some(Value::Float(bits)),
            Payload::Ref { ptr, is_array, is_function } => {
                let r = JsRef { ctx, ptr };
                if tag == tag_string() {
                    Some(Value::String(JsString(r)))
                } else if tag == tag_symbol() {
                    Some(Value::Symbol(Symbol(r)))
                } else if tag == tag_object() {
                    if is_array == 1 {
                        Some(Value::Array(Array(r)))
                    } else if is_function == 1 {
                        Some(Value::Function(Function(r)))
                    } else {
                        Some(Value::Object(Object(r)))
                    }
                } else {
                    None
                }
            },
        }
    }

    /// What a reply of the engine amounts to; `pending` is what the driver
    /// found in the exception slot after a failure.
    pub fn from_js_value(ctx: Ctx<'js>, reply: RawValue, pending: Option<Thrown>) -> (r: Result<
        Value<'js>,
        Error,
    >)
        ensures
            is_result(r, checked_value_of(ctx, reply, pending)),
    {
        if handle_exception(&reply) {
            Err(get_exception(ctx, pending))
        } else {
            match Value::from_js_value_unchecked(ctx, reply) {
                Some(value) => Ok(value),
                None => Err(Error::Unknown),
            }
        }
    }
}

} // verus!
