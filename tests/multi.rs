use js_params::{Args, Ctx, Error, FromJsMulti, Kind, ToJsMulti, Value};

#[test]
fn tuple_to_sequence_keeps_order() {
    let r = (1i32, String::from("a")).to_js_multi(Ctx::new(1));
    assert_eq!(r, Ok(vec![Value::Int(1), Value::String(String::from("a"))]));
}

#[test]
fn single_to_sequence() {
    assert_eq!(true.to_js_multi(Ctx::new(1)), Ok(vec![Value::Bool(true)]));
}

#[test]
fn values_pass_through() {
    let vs = vec![Value::Null, Value::Int(2)];
    assert_eq!(vs.to_js_multi(Ctx::new(1)), Ok(vec![Value::Null, Value::Int(2)]));
}

#[test]
fn eleven_to_sequence() {
    let r = (1i32, 2i32, 3i32, 4i32, 5i32, 6i32, 7i32, 8i32, 9i32, 10i32, 11i32)
        .to_js_multi(Ctx::new(1))
        .unwrap();
    assert_eq!(r.len(), 11);
    assert_eq!(r[0], Value::Int(1));
    assert_eq!(r[10], Value::Int(11));
}

#[test]
fn three_from_two_is_missing() {
    let r = <(i32, i32, i32) as FromJsMulti>::from_js_multi(
        Ctx::new(1),
        vec![Value::Int(1), Value::Int(2)],
    );
    assert_eq!(r, Err(Error::MissingArguments(2, 1)));
}

#[test]
fn tuple_from_sequence() {
    let r = <(i32, String) as FromJsMulti>::from_js_multi(
        Ctx::new(1),
        vec![Value::Int(1), Value::String(String::from("a")), Value::Null],
    );
    assert_eq!(r, Ok((1, String::from("a"))));
}

#[test]
fn single_from_sequence() {
    let r = <i32 as FromJsMulti>::from_js_multi(Ctx::new(1), vec![Value::Int(9), Value::Int(8)]);
    assert_eq!(r, Ok(9));
    let r = <i32 as FromJsMulti>::from_js_multi(Ctx::new(1), Vec::new());
    assert_eq!(r, Err(Error::MissingArguments(0, 1)));
}

#[test]
fn from_sequence_conversion_error() {
    let r = <(i32, bool) as FromJsMulti>::from_js_multi(
        Ctx::new(1),
        vec![Value::Int(1), Value::Int(2)],
    );
    assert_eq!(r, Err(Error::FromJs { from: Kind::Int, to: Kind::Bool }));
}

#[test]
fn args_take_everything() {
    let r = <Args as FromJsMulti>::from_js_multi(Ctx::new(1), vec![Value::Int(1), Value::Null]);
    assert_eq!(r, Ok(Args(vec![Value::Int(1), Value::Null])));
}
