//! The conversions between host types and values of the engine.

use crate::context::Ctx;
use crate::error::{Error, ErrorView};
use crate::native::RawValue;
use crate::value::{
    checked_value_of, context_of, is_result, kind_name_spec, lemma_native_round_trip, native_of,
    Array, Function, JsString, Object, Symbol, Thrown, Value,
};
use vstd::prelude::*;

verus! {

/// The error of converting `value` to the host type named `to`.
pub open spec fn mismatch_spec(value: Value, to: Seq<char>) -> ErrorView {
    ErrorView::FromJs { from: kind_name_spec(value), to, message: None }
}

fn mismatch(value: Value, to: &'static str) -> (e: Error)
    ensures
        e@ == mismatch_spec(value, to@),
{
    Error::FromJs { from: value.kind_name(), to, message: None }
}

/// A host type that values of the engine convert to. The conversion looks at
/// the kind of the value and never takes one kind for another.
pub trait FromJs<'js>: Sized {
    /// What a value converts to.
    spec fn from_js_spec(value: Value<'js>) -> Result<Self, ErrorView>;

    /// Converts a value of the engine to the host type.
    fn from_js(ctx: Ctx<'js>, value: Value<'js>) -> (r: Result<Self, Error>)
        ensures
            is_result(r, Self::from_js_spec(value)),
    ;
}

/// A host type that converts to a value of the engine.
pub trait IntoJs<'js>: Sized {
    /// What the host value converts to.
    spec fn into_js_spec(self, ctx: Ctx<'js>) -> Result<Value<'js>, ErrorView>;

    /// Converts the host value to a value of the engine.
    fn into_js(self, ctx: Ctx<'js>) -> (r: Result<Value<'js>, Error>)
        ensures
            is_result(r, self.into_js_spec(ctx)),
    ;
}

impl<'js> FromJs<'js> for Value<'js> {
    open spec fn from_js_spec(value: Value<'js>) -> Result<Self, ErrorView> {
        Ok(value)
    }

    fn from_js(ctx: Ctx<'js>, value: Value<'js>) -> (r: Result<Self, Error>) {
        Ok(value)
    }
}

impl<'js> FromJs<'js> for i32 {
    open spec fn from_js_spec(value: Value<'js>) -> Result<Self, ErrorView> {
        match value {
            Value::Int(i) => Ok(i),
            _ => Err(mismatch_spec(value, "i32"@)),
        }
    }

    fn from_js(ctx: Ctx<'js>, value: Value<'js>) -> (r: Result<Self, Error>) {
        match value {
            Value::Int(i) => Ok(i),
            _ => Err(mismatch(value, "i32")),
        }
    }
}

impl<'js> FromJs<'js> for bool {
    open spec fn from_js_spec(value: Value<'js>) -> Result<Self, ErrorView> {
        match value {
            Value::Bool(b) => Ok(b),
            _ => Err(mismatch_spec(value, "bool"@)),
        }
    }

    fn from_js(ctx: Ctx<'js>, value: Value<'js>) -> (r: Result<Self, Error>) {
        match value {
            Value::Bool(b) => Ok(b),
            _ => Err(mismatch(value, "bool")),
        }
    }
}

impl<'js> FromJs<'js> for JsString<'js> {
    open spec fn from_js_spec(value: Value<'js>) -> Result<Self, ErrorView> {
        match value {
            Value::String(s) => Ok(s),
            _ => Err(mismatch_spec(value, "string"@)),
        }
    }

    fn from_js(ctx: Ctx<'js>, value: Value<'js>) -> (r: Result<Self, Error>) {
        match value {
            Value::String(s) => Ok(s),
            _ => Err(mismatch(value, "string")),
        }
    }
}

impl<'js> FromJs<'js> for Symbol<'js> {
    open spec fn from_js_spec(value: Value<'js>) -> Result<Self, ErrorView> {
        match value {
            Value::Symbol(s) => Ok(s),
            _ => Err(mismatch_spec(value, "symbol"@)),
        }
    }

    fn from_js(ctx: Ctx<'js>, value: Value<'js>) -> (r: Result<Self, Error>) {
        match value {
            Value::Symbol(s) => Ok(s),
            _ => Err(mismatch(value, "symbol")),
        }
    }
}

impl<'js> FromJs<'js> for Object<'js> {
    open spec fn from_js_spec(value: Value<'js>) -> Result<Self, ErrorView> {
        match value {
            Value::Object(o) => Ok(o),
            _ => Err(mismatch_spec(value, "object"@)),
        }
    }

    fn from_js(ctx: Ctx<'js>, value: Value<'js>) -> (r: Result<Self, Error>) {
        match value {
            Value::Object(o) => Ok(o),
            _ => Err(mismatch(value, "object")),
        }
    }
}

impl<'js> FromJs<'js> for Array<'js> {
    open spec fn from_js_spec(value: Value<'js>) -> Result<Self, ErrorView> {
        match value {
            Value::Array(a) => Ok(a),
            _ => Err(mismatch_spec(value, "array"@)),
        }
    }

    fn from_js(ctx: Ctx<'js>, value: Value<'js>) -> (r: Result<Self, Error>) {
        match value {
            Value::Array(a) => Ok(a),
            _ => Err(mismatch(value, "array")),
        }
    }
}

impl<'js> FromJs<'js> for Function<'js> {
    open spec fn from_js_spec(value: Value<'js>) -> Result<Self, ErrorView> {
        match value {
            Value::Function(f) => Ok(f),
            _ => Err(mismatch_spec(value, "function"@)),
        }
    }

    fn from_js(ctx: Ctx<'js>, value: Value<'js>) -> (r: Result<Self, Error>) {
        match value {
            Value::Function(f) => Ok(f),
            _ => Err(mismatch(value, "function")),
        }
    }
}

impl<'js, T: FromJs<'js>> FromJs<'js> for Option<T> {
    open spec fn from_js_spec(value: Value<'js>) -> Result<Self, ErrorView> {
        match value {
            Value::Undefined | Value::Null => Ok(None),
            _ => match T::from_js_spec(value) {
                Ok(v) => Ok(Some(v)),
                Err(e) => Err(e),
            },
        }
    }

    fn from_js(ctx: Ctx<'js>, value: Value<'js>) -> (r: Result<Self, Error>) {
        match value {
            Value::Undefined | Value::Null => Ok(None),
            _ => match T::from_js(ctx, value) {
                Ok(v) => Ok(Some(v)),
                Err(e) => Err(e),
            },
        }
    }
}

impl<'js, T: IntoJs<'js>> IntoJs<'js> for Option<T> {
    open spec fn into_js_spec(self, ctx: Ctx<'js>) -> Result<Value<'js>, ErrorView> {
        match self {
            Some(v) => v.into_js_spec(ctx),
            None => Ok(Value::Undefined),
        }
    }

    fn into_js(self, ctx: Ctx<'js>) -> (r: Result<Value<'js>, Error>) {
        match self {
            Some(v) => v.into_js(ctx),
            None => Ok(Value::Undefined),
        }
    }
}

impl<'js> IntoJs<'js> for Value<'js> {
    open spec fn into_js_spec(self, ctx: Ctx<'js>) -> Result<Value<'js>, ErrorView> {
        Ok(self)
    }

    fn into_js(self, ctx: Ctx<'js>) -> (r: Result<Value<'js>, Error>) {
        Ok(self)
    }
}

impl<'js> IntoJs<'js> for i32 {
    open spec fn into_js_spec(self, ctx: Ctx<'js>) -> Result<Value<'js>, ErrorView> {
        Ok(Value::Int(self))
    }

    fn into_js(self, ctx: Ctx<'js>) -> (r: Result<Value<'js>, Error>) {
        Ok(Value::Int(self))
    }
}

impl<'js> IntoJs<'js> for bool {
    open spec fn into_js_spec(self, ctx: Ctx<'js>) -> Result<Value<'js>, ErrorView> {
        Ok(Value::Bool(self))
    }

    fn into_js(self, ctx: Ctx<'js>) -> (r: Result<Value<'js>, Error>) {
        Ok(Value::Bool(self))
    }
}

impl<'js> IntoJs<'js> for JsString<'js> {
    open spec fn into_js_spec(self, ctx: Ctx<'js>) -> Result<Value<'js>, ErrorView> {
        Ok(Value::String(self))
    }

    fn into_js(self, ctx: Ctx<'js>) -> (r: Result<Value<'js>, Error>) {
        Ok(Value::String(self))
    }
}

impl<'js> IntoJs<'js> for Symbol<'js> {
    open spec fn into_js_spec(self, ctx: Ctx<'js>) -> Result<Value<'js>, ErrorView> {
        Ok(Value::Symbol(self))
    }

    fn into_js(self, ctx: Ctx<'js>) -> (r: Result<Value<'js>, Error>) {
        Ok(Value::Symbol(self))
    }
}

impl<'js> IntoJs<'js> for Object<'js> {
    open spec fn into_js_spec(self, ctx: Ctx<'js>) -> Result<Value<'js>, ErrorView> {
        Ok(Value::Object(self))
    }

    fn into_js(self, ctx: Ctx<'js>) -> (r: Result<Value<'js>, Error>) {
        Ok(Value::Object(self))
    }
}

impl<'js> IntoJs<'js> for Array<'js> {
    open spec fn into_js_spec(self, ctx: Ctx<'js>) -> Result<Value<'js>, ErrorView> {
        Ok(Value::Array(self))
    }

    fn into_js(self, ctx: Ctx<'js>) -> (r: Result<Value<'js>, Error>) {
        Ok(Value::Array(self))
    }
}

impl<'js> IntoJs<'js> for Function<'js> {
    open spec fn into_js_spec(self, ctx: Ctx<'js>) -> Result<Value<'js>, ErrorView> {
        Ok(Value::Function(self))
    }

    fn into_js(self, ctx: Ctx<'js>) -> (r: Result<Value<'js>, Error>) {
        Ok(Value::Function(self))
    }
}

/// A list of host values that converts to the arguments of a call, one value
/// of the engine for each, in order.
pub trait IntoJsArgs<'js>: Sized {
    /// What the host values convert to: the values in order, or the error of
    /// the first conversion that fails.
    spec fn into_js_args_spec(self, ctx: Ctx<'js>) -> Result<Seq<Value<'js>>, ErrorView>;

    /// Converts the host values to the arguments of a call.
    fn into_js_args(self, ctx: Ctx<'js>) -> (r: Result<Vec<Value<'js>>, Error>)
        ensures
            match r {
                Ok(args) => self.into_js_args_spec(ctx) == Ok::<Seq<Value<'js>>, ErrorView>(
                    args@,
                ),
                Err(e) => self.into_js_args_spec(ctx) == Err::<Seq<Value<'js>>, ErrorView>(e@),
            },
    ;
}

impl<'js> IntoJsArgs<'js> for () {
    open spec fn into_js_args_spec(self, ctx: Ctx<'js>) -> Result<Seq<Value<'js>>, ErrorView> {
        Ok(Seq::empty())
    }

    fn into_js_args(self, ctx: Ctx<'js>) -> (r: Result<Vec<Value<'js>>, Error>) {
        Ok(Vec::new())
    }
}

/// What a sequence of host values converts to: the values in order, or the
/// error of the first conversion that fails.
pub open spec fn converted_args<'js, T: IntoJs<'js>>(items: Seq<T>, ctx: Ctx<'js>) -> Result<
    Seq<Value<'js>>,
    ErrorView,
>
    decreases items.len(),
{
    if items.len() == 0 {
        Ok(Seq::empty())
    } else {
        match converted_args(items.drop_last(), ctx) {
            Err(e) => Err(e),
            Ok(head) => match items.last().into_js_spec(ctx) {
                Err(e) => Err(e),
                Ok(value) => Ok(head.push(value)),
            },
        }
    }
}

/// The arguments keep the order and the number of the host values.
pub proof fn lemma_converted_args_keep_order<'js, T: IntoJs<'js>>(items: Seq<T>, ctx: Ctx<'js>)
    ensures
        converted_args(items, ctx) matches Ok(args) ==> args.len() == items.len() && forall|
            i: int,
        |
            0 <= i < items.len() ==> (#[trigger] items[i]).into_js_spec(ctx) == Ok::<
                Value<'js>,
                ErrorView,
            >(args[i]),
    decreases items.len(),
{
    if items.len() > 0 {
        lemma_converted_args_keep_order(items.drop_last(), ctx);
        match converted_args(items, ctx) {
            Ok(args) => {
                let head = converted_args(items.drop_last(), ctx)->Ok_0;
                assert forall|i: int| 0 <= i < items.len() implies (#[trigger] items[i]).into_js_spec(
                    ctx,
                ) == Ok::<Value<'js>, ErrorView>(args[i]) by {
                    if i < items.len() - 1 {
                        assert(items.drop_last()[i] == items[i]);
                    }
                }
            },
            Err(_) => {},
        }
    }
}

/// A conversion that fails for a prefix of the host values fails in the same
/// way for all of them.
pub proof fn lemma_converted_args_first_error<'js, T: IntoJs<'js>>(
    items: Seq<T>,
    k: int,
    ctx: Ctx<'js>,
)
    requires
        0 <= k <= items.len(),
        converted_args(items.take(k), ctx) is Err,
    ensures
        converted_args(items, ctx) == converted_args(items.take(k), ctx),
    decreases items.len() - k,
{
    if k < items.len() {
        assert(items.take(k + 1).drop_last() =~= items.take(k));
        lemma_converted_args_first_error(items, k + 1, ctx);
    } else {
        assert(items.take(k) =~= items);
    }
}

impl<'js, T: IntoJs<'js>> IntoJsArgs<'js> for Vec<T> {
    open spec fn into_js_args_spec(self, ctx: Ctx<'js>) -> Result<Seq<Value<'js>>, ErrorView> {
        converted_args(self@, ctx)
    }

    fn into_js_args(self, ctx: Ctx<'js>) -> (r: Result<Vec<Value<'js>>, Error>) {
        let ghost items = self@;
        let mut args: Vec<Value<'js>> = Vec::new();
        let mut rest = self;
        let mut reversed: Vec<T> = Vec::new();
        while rest.len() > 0
            invariant
                rest@.len() + reversed@.len() == items.len(),
                rest@ == items.take(rest@.len() as int),
                forall|j: int|
                    0 <= j < reversed@.len() ==> reversed@[j] == items[items.len() - 1 - j],
            decreases rest@.len(),
        {
            let item = rest.pop().unwrap();
            reversed.push(item);
        }
        assert(converted_args(items.take(0), ctx) == Ok::<Seq<Value<'js>>, ErrorView>(args@));
        while reversed.len() > 0
            invariant
                items == self@,
                reversed@.len() + args@.len() == items.len(),
                forall|j: int|
                    0 <= j < reversed@.len() ==> reversed@[j] == items[items.len() - 1 - j],
                converted_args(items.take(args@.len() as int), ctx) == Ok::<
                    Seq<Value<'js>>,
                    ErrorView,
                >(args@),
            decreases reversed@.len(),
        {
            let ghost k = args@.len() as int;
            let item = reversed.pop().unwrap();
            assert(item == items[k]);
            assert(items.take(k + 1).drop_last() =~= items.take(k));
            assert(items.take(k + 1).last() == items[k]);
            match item.into_js(ctx) {
                Ok(value) => {
                    args.push(value);
                },
                Err(e) => {
                    proof {
                        assert(converted_args(items.take(k + 1), ctx) == Err::<
                            Seq<Value<'js>>,
                            ErrorView,
                        >(e@));
                        lemma_converted_args_first_error(items, k + 1, ctx);
                    }
                    return Err(e);
                },
            }
        }
        assert(items.take(args@.len() as int) =~= items);
        Ok(args)
    }
}

impl<'js, A: IntoJs<'js>> IntoJsArgs<'js> for (A,) {
    open spec fn into_js_args_spec(self, ctx: Ctx<'js>) -> Result<Seq<Value<'js>>, ErrorView> {
        match self.0.into_js_spec(ctx) {
            Ok(a) => Ok(seq![a]),
            Err(e) => Err(e),
        }
    }

    fn into_js_args(self, ctx: Ctx<'js>) -> (r: Result<Vec<Value<'js>>, Error>) {
        match self.0.into_js(ctx) {
            Ok(a) => {
                let mut args = Vec::new();
                args.push(a);
                assert(args@ =~= seq![a]);
                Ok(args)
            },
            Err(e) => Err(e),
        }
    }
}

impl<'js, A: IntoJs<'js>, B: IntoJs<'js>> IntoJsArgs<'js> for (A, B) {
    open spec fn into_js_args_spec(self, ctx: Ctx<'js>) -> Result<Seq<Value<'js>>, ErrorView> {
        match self.0.into_js_spec(ctx) {
            Ok(a) => match self.1.into_js_spec(ctx) {
                Ok(b) => Ok(seq![a, b]),
                Err(e) => Err(e),
            },
            Err(e) => Err(e),
        }
    }

    fn into_js_args(self, ctx: Ctx<'js>) -> (r: Result<Vec<Value<'js>>, Error>) {
        match self.0.into_js(ctx) {
            Ok(a) => match self.1.into_js(ctx) {
                Ok(b) => {
                    let mut args = Vec::new();
                    args.push(a);
                    args.push(b);
                    assert(args@ =~= seq![a, b]);
                    Ok(args)
                },
                Err(e) => Err(e),
            },
            Err(e) => Err(e),
        }
    }
}

impl<'js, A: IntoJs<'js>, B: IntoJs<'js>, C: IntoJs<'js>> IntoJsArgs<'js> for (A, B, C) {
    open spec fn into_js_args_spec(self, ctx: Ctx<'js>) -> Result<Seq<Value<'js>>, ErrorView> {
        match self.0.into_js_spec(ctx) {
            Ok(a) => match self.1.into_js_spec(ctx) {
                Ok(b) => match self.2.into_js_spec(ctx) {
                    Ok(c) => Ok(seq![a, b, c]),
                    Err(e) => Err(e),
                },
                Err(e) => Err(e),
            },
            Err(e) => Err(e),
        }
    }

    fn into_js_args(self, ctx: Ctx<'js>) -> (r: Result<Vec<Value<'js>>, Error>) {
        match self.0.into_js(ctx) {
            Ok(a) => match self.1.into_js(ctx) {
                Ok(b) => match self.2.into_js(ctx) {
                    Ok(c) => {
                        let mut args = Vec::new();
                        args.push(a);
                        args.push(b);
                        args.push(c);
                        assert(args@ =~= seq![a, b, c]);
                        Ok(args)
                    },
                    Err(e) => Err(e),
                },
                Err(e) => Err(e),
            },
            Err(e) => Err(e),
        }
    }
}

/// Whether a host value that converts to a value of the engine converts back
/// to itself.
pub open spec fn round_trips<'js, T: FromJs<'js> + IntoJs<'js>>(v: T, ctx: Ctx<'js>) -> bool {
    v.into_js_spec(ctx) matches Ok(value) ==> T::from_js_spec(value) == Ok::<T, ErrorView>(v)
}

/// An optional host value that is converted to a value of the engine and back
/// is the same optional value, provided that the host value itself comes back
/// as it was and does not convert to `undefined` or `null`, which stand for
/// the absent value.
pub proof fn lemma_option_round_trip<'js, T: FromJs<'js> + IntoJs<'js>>(v: Option<T>, ctx: Ctx<'js>)
    requires
        v matches Some(inner) ==> round_trips(inner, ctx) && !(inner.into_js_spec(ctx) matches Ok(
            value,
        ) && (value is Undefined || value is Null)),
    ensures
        round_trips(v, ctx),
{
}

/// A host value that is converted to a value of the engine and back is the
/// same host value: an integer, a boolean, a value, and a string, a symbol, an
/// object, an array and a function of the engine.
pub proof fn lemma_round_trip<'js>(
    ctx: Ctx<'js>,
    number: i32,
    boolean: bool,
    value: Value<'js>,
    string: JsString<'js>,
    symbol: Symbol<'js>,
    object: Object<'js>,
    array: Array<'js>,
    function: Function<'js>,
)
    ensures
        round_trips(number, ctx),
        round_trips(boolean, ctx),
        round_trips(value, ctx),
        round_trips(string, ctx),
        round_trips(symbol, ctx),
        round_trips(object, ctx),
        round_trips(array, ctx),
        round_trips(function, ctx),
{
}

/// An element of a host sequence that is converted to a value of the engine,
/// handed to the engine and read back from its place converts back to the
/// same element, provided that the element itself comes back as it was and
/// converts to a value of this invocation that is not the failure sentinel.
pub proof fn lemma_sequence_round_trip<'js, T: FromJs<'js> + IntoJs<'js>>(
    ctx: Ctx<'js>,
    items: Seq<T>,
    i: int,
    reply: RawValue,
)
    requires
        0 <= i < items.len(),
        round_trips(items[i], ctx),
        converted_args(items, ctx) matches Ok(args) && (reply.tag_spec(), reply.payload_spec())
            == native_of(args[i]) && !(args[i] is Exception) && (context_of(args[i]) matches Some(
            c,
        ) ==> c == ctx),
    ensures
        converted::<T>(ctx, reply, None) == Ok::<T, ErrorView>(items[i]),
{
    lemma_converted_args_keep_order(items, ctx);
    let args = converted_args(items, ctx)->Ok_0;
    lemma_native_round_trip(ctx, args[i], reply);
}

/// A sequence of integers converts to as many values of the engine, and each
/// of them, handed to the engine and read back from its place, converts back
/// to the integer at that place.
pub proof fn lemma_integers_round_trip<'js>(
    ctx: Ctx<'js>,
    items: Seq<i32>,
    i: int,
    reply: RawValue,
)
    requires
        0 <= i < items.len(),
        (reply.tag_spec(), reply.payload_spec()) == native_of(Value::Int(items[i])),
    ensures
        converted_args(items, ctx) matches Ok(args) && args.len() == items.len() && args[i]
            == Value::Int(items[i]),
        converted::<i32>(ctx, reply, None) == Ok::<i32, ErrorView>(items[i]),
{
    lemma_integers_convert(ctx, items);
    lemma_converted_args_keep_order(items, ctx);
    lemma_native_round_trip(ctx, Value::Int(items[i]), reply);
}

/// Every sequence of integers converts.
pub proof fn lemma_integers_convert<'js>(ctx: Ctx<'js>, items: Seq<i32>)
    ensures
        converted_args(items, ctx) is Ok,
    decreases items.len(),
{
    if items.len() > 0 {
        lemma_integers_convert(ctx, items.drop_last());
    }
}

/// What a reply of the engine converts to: the error it amounts to, or what
/// the value it stands for converts to.
pub open spec fn converted<'js, V: FromJs<'js>>(
    ctx: Ctx<'js>,
    reply: RawValue,
    pending: Option<Thrown>,
) -> Result<V, ErrorView> {
    match checked_value_of(ctx, reply, pending) {
        Ok(value) => V::from_js_spec(value),
        Err(e) => Err(e),
    }
}

/// Converts a reply of the engine to the host type `V`; `pending` is what the
/// driver found in the exception slot after a failure.
pub fn convert<'js, V: FromJs<'js>>(ctx: Ctx<'js>, reply: RawValue, pending: Option<Thrown>) -> (r:
    Result<V, Error>)
    ensures
        is_result(r, converted::<V>(ctx, reply, pending)),
{
    match Value::from_js_value(ctx, reply, pending) {
        Ok(value) => V::from_js(ctx, value),
        Err(e) => Err(e),
    }
}

} // verus!
