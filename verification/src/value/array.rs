//! Arrays of the engine.

use crate::context::Ctx;
use crate::error::Error;
use crate::native::{tag_object, Payload, RawValue, TAG_INT, TAG_OBJECT};
use crate::value::convert::{convert, converted, FromJs};
use crate::value::{exception_of, get_exception, handle_status, is_result, JsRef, Thrown};
use vstd::prelude::*;

verus! {

/// An array of the engine.
#[derive(Clone, Copy, Debug, PartialEq, Eq)]
pub struct Array<'js>(pub JsRef<'js>);

/// The length that the `length` property of an array stands for: the integer
/// itself, and for a negative one its two's complement in the width of
/// `usize`.
pub open spec fn length_of(length: RawValue) -> int {
    match length.payload_spec() {
        Payload::Int(n) => if n >= 0 {
            n as int
        } else {
            usize::MAX + 1 + n
        },
        _ => 0,
    }
}

impl<'js> Array<'js> {
    /// The array behind a native value, which must be an object; `None` for
    /// any other value.
    pub fn from_js_value(ctx: Ctx<'js>, v: RawValue) -> (r: Option<Array<'js>>)
        ensures
            r is Some <==> v.tag_spec() == TAG_OBJECT,
            r matches Some(a) ==> v.payload_spec() matches Payload::Ref { ptr, .. } && a == Array(
                JsRef { ctx, ptr },
            ),
    {
        if v.tag() == tag_object() {
            match v.payload() {
                Payload::Ref { ptr, .. } => Some(Array(JsRef { ctx, ptr })),
                _ => None,
            }
        } else {
            None
        }
    }

    /// The native value of the array.
    pub fn as_js_value(&self) -> (v: RawValue)
        ensures
            v.tag_spec() == TAG_OBJECT,
            v.payload_spec() == (Payload::Ref { ptr: self.0.ptr, is_array: 1, is_function: 0 }),
    {
        match RawValue::new(
            tag_object(),
            Payload::Ref { ptr: self.0.ptr, is_array: 1, is_function: 0 },
        ) {
            Some(v) => v,
            None => RawValue::null(),
        }
    }

    /// The length of the array, from the value of its `length` property.
    pub fn len(&self, length: RawValue) -> (n: usize)
        requires
            length.tag_spec() == TAG_INT,
        ensures
            n == length_of(length),
    {
        match length.payload() {
            Payload::Int(n) => {
                if n >= 0 {
                    n as usize
                } else {
                    usize::MAX - ((-(n as i64) - 1) as usize)
                }
            },
            _ => 0,
        }
    }

    /// Whether the array has no elements, from the value of its `length`
    /// property.
    pub fn is_empty(&self, length: RawValue) -> (r: bool)
        requires
            length.tag_spec() == TAG_INT,
        ensures
            r == (length_of(length) == 0),
    {
        self.len(length) == 0
    }

    /// What an assignment to an element amounts to: `status` is what the
    /// engine handed back, negative for a failure, and `pending` what the
    /// driver found in the exception slot after a failure.
    pub fn set(&self, status: i32, pending: Option<Thrown>) -> (r: Result<(), Error>)
        ensures
            match r {
                Ok(_) => status >= 0,
                Err(e) => status < 0 && e@ == exception_of(self.0.ctx, pending),
            },
    {
        if handle_status(status) {
            Err(get_exception(self.0.ctx, pending))
        } else {
            Ok(())
        }
    }

    /// The element at an index, converted to `V`: `reply` is what the engine
    /// returned for the property at that index, `pending` what the driver
    /// found in the exception slot after a failure. An index past the end
    /// reads as `undefined`.
    pub fn get<V: FromJs<'js>>(&self, reply: RawValue, pending: Option<Thrown>) -> (r: Result<
        V,
        Error,
    >)
        ensures
            is_result(r, converted::<V>(self.0.ctx, reply, pending)),
    {
        convert::<V>(self.0.ctx, reply, pending)
    }
}

} // verus!
