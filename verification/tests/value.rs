use rquickjs::native::{
    payload_kind, TAG_BOOL, TAG_EXCEPTION, TAG_FLOAT64, TAG_INT, TAG_MODULE, TAG_NULL,
    TAG_OBJECT, TAG_STRING, TAG_SYMBOL, TAG_UNDEFINED,
};
use rquickjs::error::Utf8Cause;
use rquickjs::value::{get_exception, handle_exception, ErrorFields};
use rquickjs::{
    Array, Atom, AtomKey, Context, Ctx, Error, FromJs, Function, IntoAtom, IntoJs, IntoJsArgs,
    JsRef, JsString, Object, Payload, PayloadKind, RawValue, Runtime, Symbol, Thrown, Value,
};

fn reference(tag: i32, ptr: usize, is_array: i32, is_function: i32) -> RawValue {
    RawValue::new(tag, Payload::Ref { ptr, is_array, is_function }).unwrap()
}

fn full_context() -> Context {
    let rt = Runtime::new(0x1000).unwrap();
    Context::full(&rt, 0x2000).unwrap()
}

fn nothing_read() -> ErrorFields {
    ErrorFields { is_error: false, message: None, file_name: None, line_number: None, stack: None }
}

#[test]
fn js_value_array_from_javascript() {
    let ctx = full_context();
    ctx.with(|ctx| {
        let call = ctx
            .eval_call(
                r#"
                let a = [1,2,3,4,10,"b"]
                a[6] = {}
                a[10] = () => {"hallo"};
                a
                "#
                .as_bytes()
                .to_vec(),
            )
            .unwrap();
        assert_eq!(call.flags, 8);
        let val = ctx.eval::<Value>(reference(TAG_OBJECT, 0x6000, 1, 0), None);
        if let Ok(Value::Array(x)) = val {
            assert_eq!(x.len(RawValue::of_int(11)), 11);
            assert_eq!(x.get(RawValue::of_int(4), None), Ok(4));
            assert_eq!(x.get(RawValue::of_int(10), None), Ok(10));
            if let Ok(Value::Object(_)) = x.get(reference(TAG_OBJECT, 0x6100, 0, 0), None) {
            } else {
                panic!();
            }
        } else {
            panic!();
        };
    });
}

#[test]
fn array_length_and_emptiness() {
    let ctx = full_context();
    ctx.with(|ctx| {
        let array = Array(JsRef { ctx, ptr: 0x6000 });
        assert_eq!(array.len(RawValue::of_int(0)), 0);
        assert!(array.is_empty(RawValue::of_int(0)));
        assert!(!array.is_empty(RawValue::of_int(3)));
        assert_eq!(array.len(RawValue::of_int(i32::MAX)), 2147483647);
        assert_eq!(array.len(RawValue::of_int(-1)), usize::MAX);
        assert_eq!(array.len(RawValue::of_int(i32::MIN)), usize::MAX - 2147483647);
    });
}

#[test]
fn array_reads_past_the_end_are_undefined() {
    let ctx = full_context();
    ctx.with(|ctx| {
        let array = Array(JsRef { ctx, ptr: 0x6000 });
        assert_eq!(array.get::<Value>(RawValue::undefined(), None), Ok(Value::Undefined));
        assert_eq!(
            array.get::<i32>(RawValue::undefined(), None),
            Err(Error::FromJs { from: "undefined", to: "i32", message: None })
        );
        assert_eq!(array.get::<i32>(RawValue::exception(), None), Err(Error::Unknown));
    });
}

#[test]
fn array_and_its_native_value() {
    let ctx = full_context();
    ctx.with(|ctx| {
        let array = Array::from_js_value(ctx, reference(TAG_OBJECT, 0x6000, 1, 0)).unwrap();
        assert_eq!(array, Array(JsRef { ctx, ptr: 0x6000 }));
        let raw = array.as_js_value();
        assert_eq!(raw.tag(), -1);
        assert_eq!(raw.payload(), Payload::Ref { ptr: 0x6000, is_array: 1, is_function: 0 });
        assert_eq!(Array::from_js_value(ctx, RawValue::of_int(3)), None);
        assert_eq!(Array::from_js_value(ctx, reference(TAG_STRING, 0x6000, 0, 0)), None);
    });
}

#[test]
fn tags_are_those_of_the_bindings() {
    assert_eq!(RawValue::of_int(5).tag(), 0);
    assert_eq!(RawValue::of_bool(true).tag(), 1);
    assert_eq!(RawValue::null().tag(), 2);
    assert_eq!(RawValue::undefined().tag(), 3);
    assert_eq!(RawValue::exception().tag(), 6);
    assert_eq!(RawValue::of_float(0).tag(), 7);
    assert_eq!(
        [TAG_INT, TAG_BOOL, TAG_NULL, TAG_UNDEFINED, TAG_EXCEPTION, TAG_FLOAT64],
        [0, 1, 2, 3, 6, 7]
    );
    assert_eq!([TAG_SYMBOL, TAG_STRING, TAG_MODULE, TAG_OBJECT], [-8, -7, -3, -1]);
    assert_eq!(RawValue::of_bool(true).payload(), Payload::Int(1));
    assert_eq!(RawValue::of_bool(false).payload(), Payload::Int(0));
    assert_eq!(RawValue::of_float(7).payload(), Payload::Float(7));
}

#[test]
fn payload_follows_the_tag() {
    assert_eq!(payload_kind(7), PayloadKind::Float);
    assert_eq!(payload_kind(-1), PayloadKind::Ref);
    assert_eq!(payload_kind(-11), PayloadKind::Ref);
    assert_eq!(payload_kind(-12), PayloadKind::Int);
    assert_eq!(payload_kind(0), PayloadKind::Int);
    assert_eq!(payload_kind(6), PayloadKind::Int);
    assert_eq!(payload_kind(8), PayloadKind::Int);
    assert_eq!(RawValue::new(0, Payload::Float(1)), None);
    assert_eq!(RawValue::new(7, Payload::Int(1)), None);
    assert_eq!(RawValue::new(-1, Payload::Int(1)), None);
    assert_eq!(RawValue::new(3, Payload::Ref { ptr: 1, is_array: 0, is_function: 0 }), None);
    let raw = RawValue::new(0, Payload::Int(9)).unwrap();
    assert_eq!(raw, RawValue::of_int(9));
    assert_eq!(raw.tag(), 0);
    assert_eq!(raw.payload(), Payload::Int(9));
}

#[test]
fn native_values_stand_for_values() {
    let ctx = full_context();
    ctx.with(|ctx| {
        let r = JsRef { ctx, ptr: 0x6000 };
        let read = |raw: RawValue| Value::from_js_value_unchecked(ctx, raw);
        assert_eq!(read(RawValue::of_int(-3)), Some(Value::Int(-3)));
        assert_eq!(read(RawValue::of_bool(true)), Some(Value::Bool(true)));
        assert_eq!(read(RawValue::new(1, Payload::Int(7)).unwrap()), Some(Value::Bool(true)));
        assert_eq!(read(RawValue::of_bool(false)), Some(Value::Bool(false)));
        assert_eq!(read(RawValue::null()), Some(Value::Null));
        assert_eq!(read(RawValue::undefined()), Some(Value::Undefined));
        assert_eq!(read(RawValue::exception()), Some(Value::Exception));
        assert_eq!(read(RawValue::of_float(2.5f64.to_bits())), Some(Value::Float(2.5f64.to_bits())));
        assert_eq!(read(reference(TAG_STRING, 0x6000, 0, 0)), Some(Value::String(JsString(r))));
        assert_eq!(read(reference(TAG_SYMBOL, 0x6000, 0, 0)), Some(Value::Symbol(Symbol(r))));
        assert_eq!(read(reference(TAG_OBJECT, 0x6000, 0, 0)), Some(Value::Object(Object(r))));
        assert_eq!(read(reference(TAG_OBJECT, 0x6000, 1, 0)), Some(Value::Array(Array(r))));
        assert_eq!(read(reference(TAG_OBJECT, 0x6000, 1, 1)), Some(Value::Array(Array(r))));
        assert_eq!(read(reference(TAG_OBJECT, 0x6000, 0, 1)), Some(Value::Function(Function(r))));
        assert_eq!(read(reference(TAG_OBJECT, 0x6000, -1, 0)), Some(Value::Object(Object(r))));
        assert_eq!(read(reference(TAG_MODULE, 0x6000, 0, 0)), None);
        assert_eq!(read(reference(-10, 0x6000, 0, 0)), None);
        assert_eq!(read(RawValue::new(4, Payload::Int(0)).unwrap()), None);
    });
}

#[test]
fn values_and_their_native_values() {
    let ctx = full_context();
    ctx.with(|ctx| {
        let r = JsRef { ctx, ptr: 0x6000 };
        let values = [
            Value::Undefined,
            Value::Null,
            Value::Bool(true),
            Value::Bool(false),
            Value::Int(i32::MIN),
            Value::Float(0.1f64.to_bits()),
            Value::String(JsString(r)),
            Value::Symbol(Symbol(r)),
            Value::Object(Object(r)),
            Value::Array(Array(r)),
            Value::Function(Function(r)),
            Value::Exception,
        ];
        for value in values {
            let raw = value.as_js_value();
            assert_eq!(Value::from_js_value_unchecked(ctx, raw), Some(value));
        }
        assert_eq!(Value::Int(3).as_js_value(), RawValue::of_int(3));
        assert_eq!(Value::Function(Function(r)).as_js_value(), reference(TAG_OBJECT, 0x6000, 0, 1));
    });
}

#[test]
fn replies_are_checked_for_failure() {
    let ctx = full_context();
    ctx.with(|ctx| {
        assert!(handle_exception(&RawValue::exception()));
        assert!(!handle_exception(&RawValue::of_int(6)));
        assert!(!handle_exception(&RawValue::null()));
        assert_eq!(Value::from_js_value(ctx, RawValue::of_int(1), None), Ok(Value::Int(1)));
        assert_eq!(Value::from_js_value(ctx, RawValue::exception(), None), Err(Error::Unknown));
        assert_eq!(
            Value::from_js_value(ctx, reference(TAG_MODULE, 1, 0, 0), None),
            Err(Error::Unknown)
        );
    });
}

#[test]
fn the_exception_slot_decides_the_error() {
    let ctx = full_context();
    ctx.with(|ctx| {
        assert_eq!(get_exception(ctx, None), Error::Unknown);
        let empty = Thrown { value: RawValue::null(), fields: nothing_read() };
        assert_eq!(get_exception(ctx, Some(empty)), Error::Unknown);
        let text = Thrown { value: reference(TAG_STRING, 0x7000, 0, 0), fields: nothing_read() };
        assert_eq!(
            get_exception(ctx, Some(text)),
            Error::FromJs { from: "object", to: "error", message: None }
        );
        let number = Thrown { value: RawValue::of_int(3), fields: nothing_read() };
        assert_eq!(
            get_exception(ctx, Some(number)),
            Error::FromJs { from: "object", to: "error", message: None }
        );
        let plain = Thrown { value: reference(TAG_OBJECT, 0x7000, 0, 0), fields: nothing_read() };
        assert_eq!(
            get_exception(ctx, Some(plain)),
            Error::FromJs { from: "object", to: "error", message: None }
        );
        let odd = Thrown { value: reference(TAG_MODULE, 0x7000, 0, 0), fields: nothing_read() };
        assert_eq!(
            get_exception(ctx, Some(odd)),
            Error::FromJs { from: "object", to: "error", message: None }
        );
        let array = Thrown { value: reference(TAG_OBJECT, 0x7000, 1, 0), fields: nothing_read() };
        assert_eq!(
            get_exception(ctx, Some(array)),
            Error::FromJs { from: "object", to: "error", message: None }
        );
        let error = Thrown {
            value: reference(TAG_OBJECT, 0x7000, 0, 0),
            fields: ErrorFields {
                is_error: true,
                message: Some("boom".to_string()),
                file_name: Some("main.js".to_string()),
                line_number: Some(12),
                stack: Some("    at main.js:12\n".to_string()),
            },
        };
        assert_eq!(
            get_exception(ctx, Some(error)),
            Error::Exception {
                message: "boom".to_string(),
                file: "main.js".to_string(),
                line: 12,
                stack: "    at main.js:12\n".to_string(),
            }
        );
    });
}

#[test]
fn object_properties() {
    let ctx = full_context();
    ctx.with(|ctx| {
        let object = Object(JsRef { ctx, ptr: 0x6000 });
        assert_eq!(object.as_js_value(), reference(TAG_OBJECT, 0x6000, 0, 0));
        assert_eq!(object.get::<i32>(RawValue::of_int(5), None), Ok(5));
        assert_eq!(object.get::<Option<i32>>(RawValue::undefined(), None), Ok(None));
        assert_eq!(
            object.get::<bool>(RawValue::undefined(), None),
            Err(Error::FromJs { from: "undefined", to: "bool", message: None })
        );
        assert_eq!(object.get::<Value>(RawValue::exception(), None), Err(Error::Unknown));
        assert_eq!(object.set(0, None), Ok(()));
        assert_eq!(object.set(1, None), Ok(()));
        assert_eq!(object.set(-1, None), Err(Error::Unknown));
    });
}

#[test]
fn engine_strings_become_host_text() {
    assert_eq!(JsString::text(&b"hallo".to_vec()), Ok("hallo".to_string()));
    assert_eq!(JsString::text(&vec![]), Ok(String::new()));
    assert_eq!(JsString::text(&vec![0xe2, 0x82, 0xac]), Ok("\u{20ac}".to_string()));
    assert_eq!(
        JsString::text(&vec![b'a', b'b', 0xff, b'c']),
        Err(Error::Utf8(Utf8Cause { valid_up_to: 2, error_len: Some(1) }))
    );
    assert_eq!(
        JsString::text(&vec![b'a', 0xe2, 0x82]),
        Err(Error::Utf8(Utf8Cause { valid_up_to: 1, error_len: None }))
    );
    assert_eq!(
        JsString::text(&vec![0xed, 0xa0, 0x80]),
        Err(Error::Utf8(Utf8Cause { valid_up_to: 0, error_len: Some(1) }))
    );
    assert_eq!(
        JsString::text(&vec![b'x', 0xe2, 0x82, b'y']),
        Err(Error::Utf8(Utf8Cause { valid_up_to: 1, error_len: Some(2) }))
    );
    assert_eq!(
        JsString::text(&vec![0xf0, 0x9f, 0x98]),
        Err(Error::Utf8(Utf8Cause { valid_up_to: 0, error_len: None }))
    );
}

#[test]
fn host_text_round_trips_through_its_bytes() {
    for text in ["", "hallo", "gr\u{fc}\u{df}e", "\u{20ac}\u{1f600} b"] {
        let bytes = JsString::utf8(text);
        assert_eq!(bytes, text.as_bytes().to_vec());
        assert_eq!(JsString::text(&bytes), Ok(text.to_string()));
    }
}

#[test]
fn kinds_have_names() {
    let ctx = full_context();
    ctx.with(|ctx| {
        let r = JsRef { ctx, ptr: 1 };
        assert_eq!(Value::Undefined.kind_name(), "undefined");
        assert_eq!(Value::Null.kind_name(), "null");
        assert_eq!(Value::Bool(true).kind_name(), "bool");
        assert_eq!(Value::Int(1).kind_name(), "integer");
        assert_eq!(Value::Float(1).kind_name(), "float");
        assert_eq!(Value::String(JsString(r)).kind_name(), "string");
        assert_eq!(Value::Symbol(Symbol(r)).kind_name(), "symbol");
        assert_eq!(Value::Object(Object(r)).kind_name(), "object");
        assert_eq!(Value::Array(Array(r)).kind_name(), "array");
        assert_eq!(Value::Function(Function(r)).kind_name(), "function");
        assert_eq!(Value::Exception.kind_name(), "exception");
    });
}

#[test]
fn conversions_check_the_kind() {
    let ctx = full_context();
    ctx.with(|ctx| {
        let r = JsRef { ctx, ptr: 1 };
        assert_eq!(i32::from_js(ctx, Value::Int(4)), Ok(4));
        assert_eq!(
            i32::from_js(ctx, Value::Float(4.0f64.to_bits())),
            Err(Error::FromJs { from: "float", to: "i32", message: None })
        );
        assert_eq!(bool::from_js(ctx, Value::Bool(false)), Ok(false));
        assert_eq!(
            bool::from_js(ctx, Value::Int(1)),
            Err(Error::FromJs { from: "integer", to: "bool", message: None })
        );
        assert_eq!(Value::from_js(ctx, Value::Null), Ok(Value::Null));
        assert_eq!(Array::from_js(ctx, Value::Array(Array(r))), Ok(Array(r)));
        assert_eq!(
            Array::from_js(ctx, Value::Object(Object(r))),
            Err(Error::FromJs { from: "object", to: "array", message: None })
        );
        assert_eq!(Object::from_js(ctx, Value::Object(Object(r))), Ok(Object(r)));
        assert_eq!(
            Object::from_js(ctx, Value::Array(Array(r))),
            Err(Error::FromJs { from: "array", to: "object", message: None })
        );
        assert_eq!(JsString::from_js(ctx, Value::String(JsString(r))), Ok(JsString(r)));
        assert_eq!(
            JsString::from_js(ctx, Value::Null),
            Err(Error::FromJs { from: "null", to: "string", message: None })
        );
        assert_eq!(Symbol::from_js(ctx, Value::Symbol(Symbol(r))), Ok(Symbol(r)));
        assert_eq!(
            Symbol::from_js(ctx, Value::Undefined),
            Err(Error::FromJs { from: "undefined", to: "symbol", message: None })
        );
        assert_eq!(Function::from_js(ctx, Value::Function(Function(r))), Ok(Function(r)));
        assert_eq!(
            Function::from_js(ctx, Value::Exception),
            Err(Error::FromJs { from: "exception", to: "function", message: None })
        );
    });
}

fn round_trip<'js, T: FromJs<'js> + IntoJs<'js> + Clone + PartialEq + std::fmt::Debug>(
    ctx: Ctx<'js>,
    v: T,
) {
    let value = v.clone().into_js(ctx).unwrap();
    assert_eq!(T::from_js(ctx, value), Ok(v));
}

#[test]
fn host_values_round_trip() {
    let ctx = full_context();
    ctx.with(|ctx| {
        let r = JsRef { ctx, ptr: 9 };
        round_trip(ctx, 0i32);
        round_trip(ctx, -17i32);
        round_trip(ctx, i32::MAX);
        round_trip(ctx, true);
        round_trip(ctx, false);
        round_trip(ctx, Value::Float(3.25f64.to_bits()));
        round_trip(ctx, Value::Undefined);
        round_trip(ctx, JsString(r));
        round_trip(ctx, Symbol(r));
        round_trip(ctx, Object(r));
        round_trip(ctx, Array(r));
        round_trip(ctx, Function(r));
        round_trip(ctx, Some(5i32));
        round_trip(ctx, None::<i32>);
        round_trip(ctx, Some(false));
        round_trip(ctx, Some(Array(r)));
    });
}

#[test]
fn absent_values() {
    let ctx = full_context();
    ctx.with(|ctx| {
        assert_eq!(Option::<i32>::from_js(ctx, Value::Undefined), Ok(None));
        assert_eq!(Option::<i32>::from_js(ctx, Value::Null), Ok(None));
        assert_eq!(Option::<i32>::from_js(ctx, Value::Int(3)), Ok(Some(3)));
        assert_eq!(
            Option::<i32>::from_js(ctx, Value::Bool(true)),
            Err(Error::FromJs { from: "bool", to: "i32", message: None })
        );
        assert_eq!(None::<bool>.into_js(ctx), Ok(Value::Undefined));
        assert_eq!(Some(true).into_js(ctx), Ok(Value::Bool(true)));
        assert_eq!(Option::<Value>::from_js(ctx, Value::Undefined), Ok(None));
    });
}

#[test]
fn host_sequences_round_trip_through_an_array() {
    let ctx = full_context();
    ctx.with(|ctx| {
        let array = Array(JsRef { ctx, ptr: 0x6000 });
        let v = vec![7i32, -3, 0, i32::MAX, i32::MIN, 7];
        let elements = v.clone().into_js_args(ctx).unwrap();
        assert_eq!(elements.len(), v.len());
        for i in 0..v.len() {
            assert_eq!(array.set(0, None), Ok(()));
            let stored = elements[i].as_js_value();
            assert_eq!(array.get::<i32>(stored, None), Ok(v[i]));
        }
        assert_eq!(array.set(-1, None), Err(Error::Unknown));
    });
}

#[test]
fn arguments_keep_their_order() {
    let ctx = full_context();
    ctx.with(|ctx| {
        assert_eq!(().into_js_args(ctx), Ok(vec![]));
        assert_eq!((5i32,).into_js_args(ctx), Ok(vec![Value::Int(5)]));
        assert_eq!((5i32, true).into_js_args(ctx), Ok(vec![Value::Int(5), Value::Bool(true)]));
        assert_eq!(
            (false, Value::Null, 7i32).into_js_args(ctx),
            Ok(vec![Value::Bool(false), Value::Null, Value::Int(7)])
        );
        assert_eq!(
            vec![Value::Int(2), Value::Int(1)].into_js_args(ctx),
            Ok(vec![Value::Int(2), Value::Int(1)])
        );
        assert_eq!(
            vec![3i32, 1, 2, -9].into_js_args(ctx),
            Ok(vec![Value::Int(3), Value::Int(1), Value::Int(2), Value::Int(-9)])
        );
        assert_eq!(Vec::<bool>::new().into_js_args(ctx), Ok(vec![]));
    });
}

#[test]
fn keys_of_properties() {
    let ctx = full_context();
    ctx.with(|ctx| {
        assert_eq!("length".into_atom_key(), AtomKey::Name(b"length".to_vec()));
        assert_eq!("é".to_string().into_atom_key(), AtomKey::Name(vec![0xc3, 0xa9]));
        assert_eq!(10u32.into_atom_key(), AtomKey::Index(10));
        assert_eq!(Atom::from_atom_val(ctx, 55, None), Ok(Atom { ctx, atom: 55 }));
        assert_eq!(Atom::from_atom_val(ctx, 0, None), Err(Error::Unknown));
    });
}
