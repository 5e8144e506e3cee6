use rquickjs::context::builder::ContextBuilder;
use rquickjs::native::{
    EVAL_FLAG_COMPILE_ONLY, EVAL_FLAG_STRICT, EVAL_TYPE_GLOBAL, EVAL_TYPE_MODULE, TAG_MODULE,
    TAG_OBJECT, TAG_STRING,
};
use rquickjs::value::ErrorFields;
use rquickjs::{
    Context, Error, Intrinsic, JsRef, JsString, Module, Object, Payload, RawValue, Runtime,
    Thrown, Value,
};

fn reference(tag: i32, ptr: usize) -> RawValue {
    RawValue::new(tag, Payload::Ref { ptr, is_array: 0, is_function: 0 }).unwrap()
}

fn thrown_error(message: &str) -> Thrown {
    Thrown {
        value: reference(TAG_OBJECT, 0x7000),
        fields: ErrorFields {
            is_error: true,
            message: Some(message.to_string()),
            file_name: None,
            line_number: None,
            stack: None,
        },
    }
}

#[test]
fn base_runtime() {
    let _rt = Runtime::new(0x1000).unwrap();
}

#[test]
fn runtime_without_memory() {
    assert_eq!(Runtime::new(0), Err(Error::Allocation));
    assert_eq!(Runtime::new(0x1000).unwrap().handle(), 0x1000);
}

#[test]
fn base() {
    let rt = Runtime::new(0x1000).unwrap();
    let ctx = Context::full(&rt, 0x2000).unwrap();
    ctx.with(|ctx| {
        let call = ctx.eval_call(r#"1+1"#.as_bytes().to_vec()).unwrap();
        assert_eq!(call.source, b"1+1".to_vec());
        assert_eq!(call.file_name, b"eval_script".to_vec());
        assert_eq!(call.flags, 8);
        let val = ctx.eval::<Value>(RawValue::of_int(2), None);
        assert_eq!(val, Ok(Value::Int(2)));
        println!("{:?}", ctx.globals(reference(TAG_OBJECT, 0x3000)));
    });
}

#[test]
fn module() {
    let rt = Runtime::new(0x1000).unwrap();
    let ctx = Context::full(&rt, 0x2000).unwrap();
    ctx.with(|ctx| {
        let source = r#"
                    let t = "3";
                    let b = (a) => a + 3;
                    export { b, t}
                "#;
        let call = ctx
            .compile_call(source.as_bytes().to_vec(), "test_mod".as_bytes().to_vec())
            .unwrap();
        assert_eq!(call.source, source.as_bytes().to_vec());
        assert_eq!(call.file_name, b"test_mod".to_vec());
        assert_eq!(call.flags, 41);
        let value: Module = ctx.compile(reference(TAG_MODULE, 0x4000), None).unwrap();
        assert_eq!(value, Module(JsRef { ctx, ptr: 0x4000 }));
        println!("Value found {:?}", value);
    });
}

#[test]
fn contexts_need_memory() {
    let rt = Runtime::new(0x1000).unwrap();
    assert_eq!(Context::base(&rt, 0).err(), Some(Error::Allocation));
    assert_eq!(Context::full(&rt, 0).err(), Some(Error::Allocation));
    assert_eq!(Context::build(&rt).build(0).err(), Some(Error::Allocation));
    let base = Context::base(&rt, 0x2000).unwrap();
    assert_eq!(base.handle(), 0x2000);
    assert_eq!(base.runtime(), 0x1000);
}

#[test]
fn base_has_fewer_intrinsics_than_full() {
    let rt = Runtime::new(0x1000).unwrap();
    let base = Context::base(&rt, 0x2000).unwrap();
    let full = Context::full(&rt, 0x3000).unwrap();
    let mut in_base = 0;
    let mut in_full = 0;
    for i in 0..15 {
        let group = Intrinsic::at(i);
        assert_eq!(group.index(), i);
        if base.is_requested(group) {
            assert!(full.is_requested(group));
            in_base += 1;
        }
        if full.is_requested(group) {
            in_full += 1;
        }
    }
    assert_eq!(in_base, 0);
    assert_eq!(in_full, 11);
    assert!(!full.is_requested(Intrinsic::RegExpCompiler));
    assert!(!full.is_requested(Intrinsic::BigFloat));
    assert!(!full.is_requested(Intrinsic::BigDecimal));
    assert!(!full.is_requested(Intrinsic::Operators));
}

#[test]
fn builder_lists_the_picked_groups_in_order() {
    let rt = Runtime::new(0x1000).unwrap();
    let builder = Context::build(&rt)
        .intrinsic(Intrinsic::Json, true)
        .intrinsic(Intrinsic::BaseObjects, true)
        .intrinsic(Intrinsic::Date, true)
        .intrinsic(Intrinsic::Date, false)
        .intrinsic(Intrinsic::Operators, true);
    assert!(builder.is_requested(Intrinsic::Json));
    assert!(!builder.is_requested(Intrinsic::Date));
    assert_eq!(
        builder.intrinsics(),
        vec![Intrinsic::BaseObjects, Intrinsic::Json, Intrinsic::Operators]
    );
    let context = builder.build(0x2000).unwrap();
    assert!(context.is_requested(Intrinsic::Operators));
    assert!(!context.is_requested(Intrinsic::Eval));
    assert_eq!(ContextBuilder::new(&rt).intrinsics(), vec![]);
    assert_eq!(
        ContextBuilder::new(&rt).full().intrinsics(),
        vec![
            Intrinsic::BaseObjects,
            Intrinsic::Date,
            Intrinsic::Eval,
            Intrinsic::StringNormalize,
            Intrinsic::RegExp,
            Intrinsic::Json,
            Intrinsic::Proxy,
            Intrinsic::MapSet,
            Intrinsic::TypedArrays,
            Intrinsic::Promise,
            Intrinsic::BigInt,
        ]
    );
}

#[test]
fn engine_limits() {
    let rt = Runtime::new(0x1000).unwrap();
    let ctx = Context::base(&rt, 0x2000).unwrap();
    assert_eq!(ctx.set_max_stack_size(256 * 1024), 262144u64);
    assert_eq!(ctx.set_max_stack_size(0), 0u64);
    assert_eq!(ctx.enable_big_num_ext(true), 1);
    assert_eq!(ctx.enable_big_num_ext(false), 0);
}

#[test]
fn with_hands_back_what_the_closure_returns() {
    let rt = Runtime::new(0x1000).unwrap();
    let ctx = Context::base(&rt, 0x2000).unwrap();
    let seen = ctx.with(|ctx| ctx.handle());
    assert_eq!(seen, 0x2000);
    let doubled = ctx.with(|_| 21 * 2);
    assert_eq!(doubled, 42);
}

#[test]
fn eval_flags_are_those_of_the_bindings() {
    assert_eq!(EVAL_TYPE_GLOBAL, 0);
    assert_eq!(EVAL_TYPE_MODULE, 1);
    assert_eq!(EVAL_FLAG_STRICT, 8);
    assert_eq!(EVAL_FLAG_COMPILE_ONLY, 32);
    let rt = Runtime::new(0x1000).unwrap();
    let ctx = Context::base(&rt, 0x2000).unwrap();
    ctx.with(|ctx| {
        assert_eq!(ctx.eval_call(vec![]).unwrap().flags, (0 | 8) as i32);
        assert_eq!(ctx.compile_call(vec![], vec![]).unwrap().flags, (1 | 8 | 32) as i32);
    });
}

#[test]
fn null_bytes_are_refused() {
    let rt = Runtime::new(0x1000).unwrap();
    let ctx = Context::base(&rt, 0x2000).unwrap();
    ctx.with(|ctx| {
        assert_eq!(ctx.eval_call(b"1+\0 1\0".to_vec()), Err(Error::InvalidString(2)));
        assert_eq!(ctx.eval_call(b"\0".to_vec()), Err(Error::InvalidString(0)));
        assert_eq!(
            ctx.compile_call(b"a\0".to_vec(), b"mod\0".to_vec()),
            Err(Error::InvalidString(3))
        );
        assert_eq!(
            ctx.compile_call(b"a\0".to_vec(), b"mod".to_vec()),
            Err(Error::InvalidString(1))
        );
    });
    assert_eq!(rquickjs::context::find_nul(&b"abc".to_vec()), None);
    assert_eq!(rquickjs::context::find_nul(&b"ab\0c\0".to_vec()), Some(2));
}

#[test]
fn eval_reports_the_pending_exception() {
    let rt = Runtime::new(0x1000).unwrap();
    let ctx = Context::full(&rt, 0x2000).unwrap();
    ctx.with(|ctx| {
        let failed = ctx.eval::<Value>(RawValue::exception(), Some(thrown_error("x is not defined")));
        assert_eq!(
            failed,
            Err(Error::Exception {
                message: "x is not defined".to_string(),
                file: "".to_string(),
                line: -1,
                stack: "".to_string(),
            })
        );
        assert_eq!(ctx.eval::<Value>(RawValue::exception(), None), Err(Error::Unknown));
        let thrown_integer = Thrown { value: RawValue::of_int(1), fields: ErrorFields::unread() };
        assert_eq!(
            ctx.eval::<Value>(RawValue::exception(), Some(thrown_integer)),
            Err(Error::FromJs { from: "object", to: "error", message: None })
        );
        assert_eq!(
            ctx.eval::<i32>(RawValue::of_bool(true), None),
            Err(Error::FromJs { from: "bool", to: "i32", message: None })
        );
        assert_eq!(ctx.eval::<bool>(RawValue::of_bool(true), None), Ok(true));
    });
}

#[test]
fn compile_needs_a_module() {
    let rt = Runtime::new(0x1000).unwrap();
    let ctx = Context::full(&rt, 0x2000).unwrap();
    ctx.with(|ctx| {
        assert_eq!(ctx.compile(RawValue::of_int(1), None), Err(Error::Unknown));
        assert_eq!(ctx.compile(reference(TAG_OBJECT, 0x4000), None), Err(Error::Unknown));
        assert!(ctx.compile(RawValue::exception(), Some(thrown_error("bad"))).unwrap_err().is_exception());
    });
}

#[test]
fn coercions() {
    let rt = Runtime::new(0x1000).unwrap();
    let ctx = Context::full(&rt, 0x2000).unwrap();
    ctx.with(|ctx| {
        assert_eq!(ctx.coerce_i32(0, 42, None), Ok(42));
        let failed = ctx.coerce_i32(-1, 0, Some(thrown_error("cannot convert to number")));
        assert!(failed.as_ref().unwrap_err().is_exception());
        assert_eq!(
            failed,
            Err(Error::Exception {
                message: "cannot convert to number".to_string(),
                file: "".to_string(),
                line: -1,
                stack: "".to_string(),
            })
        );
        assert_eq!(ctx.coerce_i32(-1, 7, None), Err(Error::Unknown));
        assert_eq!(ctx.coerce_i64(0, -5_000_000_000, None), Ok(-5_000_000_000));
        assert_eq!(ctx.coerce_i64(-1, 1, None), Err(Error::Unknown));
        assert_eq!(ctx.coerce_u64(0, u64::MAX, None), Ok(u64::MAX));
        assert_eq!(ctx.coerce_u64(-1, 1, None), Err(Error::Unknown));
        assert_eq!(ctx.coerce_f64(0, 1.5f64.to_bits(), None).map(f64::from_bits), Ok(1.5));
        assert_eq!(ctx.coerce_f64(-1, 0, None), Err(Error::Unknown));
        assert_eq!(ctx.coerce_bool(1, None), Ok(true));
        assert_eq!(ctx.coerce_bool(0, None), Ok(false));
        assert_eq!(ctx.coerce_bool(2, None), Ok(false));
        assert_eq!(ctx.coerce_bool(-1, None), Err(Error::Unknown));
        assert_eq!(
            ctx.coerce_string(reference(TAG_STRING, 0x5000), None),
            Ok(JsString(JsRef { ctx, ptr: 0x5000 }))
        );
        assert_eq!(ctx.coerce_string(RawValue::of_int(1), None), Err(Error::Unknown));
        assert_eq!(ctx.coerce_string(RawValue::exception(), None), Err(Error::Unknown));
    });
}

#[test]
fn globals_is_an_object() {
    let rt = Runtime::new(0x1000).unwrap();
    let ctx = Context::full(&rt, 0x2000).unwrap();
    ctx.with(|ctx| {
        assert_eq!(
            ctx.globals(reference(TAG_OBJECT, 0x3000)),
            Some(Object(JsRef { ctx, ptr: 0x3000 }))
        );
        assert_eq!(ctx.globals(RawValue::undefined()), None);
    });
}
