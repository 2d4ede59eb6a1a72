use js_params::{
    Ctx, Error, Exhaustive, Flat, FromParam, FromParams, Func, Kind, Opt, ParamReq, Params, Rest,
    This, Value,
};

fn ints(ns: &[i32]) -> Vec<Value> {
    ns.iter().map(|n| Value::Int(*n)).collect()
}

#[test]
fn snapshot_accessors() {
    let args = ints(&[1, 2]);
    let p = Params::new(Ctx::new(3), Value::Object(10), Value::Object(20), &args);
    assert_eq!(p.ctx(), Ctx::new(3));
    assert_eq!(p.function(), Value::Object(10));
    assert_eq!(p.this(), Value::Object(20));
    assert_eq!(p.arg(1), Some(Value::Int(2)));
    assert_eq!(p.arg(2), None);
    assert_eq!(p.len(), 2);
    assert!(!p.is_empty());
}

#[test]
fn plain_call_has_undefined_target() {
    let args: Vec<Value> = Vec::new();
    let p = Params::from_plain_call(Ctx::new(1), Value::Bool(true), &args);
    assert_eq!(p.function(), Value::Undefined);
    assert_eq!(p.this(), Value::Bool(true));
    assert!(p.is_empty());
    assert_eq!(p.len(), 0);
}

#[test]
fn cursor_hands_out_in_order() {
    let args = ints(&[4, 5, 6]);
    let p = Params::new(Ctx::new(1), Value::Null, Value::Undefined, &args);
    let mut acc = p.access();
    assert_eq!(acc.len(), 3);
    assert_eq!(acc.arg(), Value::Int(4));
    assert_eq!(acc.len(), 2);
    assert_eq!(acc.arg(), Value::Int(5));
    assert_eq!(acc.arg(), Value::Int(6));
    assert!(acc.is_empty());
    assert_eq!(acc.this(), Value::Undefined);
    assert_eq!(acc.function(), Value::Null);
    assert_eq!(acc.ctx(), Ctx::new(1));
}

#[test]
fn too_few_arguments() {
    let args = ints(&[1]);
    let p = Params::from_plain_call(Ctx::new(1), Value::Undefined, &args);
    let req = ParamReq::single().combine(ParamReq::single());
    assert_eq!(p.check_params(req), Err(Error::MissingArgs { expected: 2, given: 1 }));
}

#[test]
fn lenient_surplus_accepted() {
    let args = ints(&[1, 2, 3, 4]);
    let p = Params::from_plain_call(Ctx::new(1), Value::Undefined, &args);
    let req = ParamReq::single().combine(ParamReq::optional());
    assert_eq!(p.check_params(req), Ok(()));
    assert_eq!(p.check_params(ParamReq::single().combine(ParamReq::single())), Ok(()));
}

#[test]
fn exhaustive_surplus_rejected() {
    let args = ints(&[1, 2, 3]);
    let p = Params::from_plain_call(Ctx::new(1), Value::Undefined, &args);
    let req = ParamReq::single().combine(ParamReq::optional()).combine(ParamReq::exhaustive());
    assert_eq!(p.check_params(req), Err(Error::TooManyArgs { expected: 2, given: 3 }));
    let args = ints(&[1, 2]);
    let p = Params::from_plain_call(Ctx::new(1), Value::Undefined, &args);
    assert_eq!(p.check_params(req), Ok(()));
}

#[test]
fn signature_requirements() {
    let r = <(i32, Opt<i32>, Rest<i32>) as FromParams>::params_requirements();
    assert_eq!((r.min(), r.max(), r.is_exhaustive()), (1, usize::MAX, false));
    let r = <(i32, Flat<(i32, bool)>, Exhaustive) as FromParams>::params_requirements();
    assert_eq!((r.min(), r.max(), r.is_exhaustive()), (3, 3, true));
    let r = <() as FromParams>::params_requirements();
    assert_eq!((r.min(), r.max(), r.is_exhaustive()), (0, 0, false));
    let r = <This<Value> as FromParam>::params_required();
    assert_eq!((r.min(), r.max()), (0, usize::MAX));
}

#[test]
fn optional_absent_and_present() {
    let empty: Vec<Value> = Vec::new();
    let mut acc = Params::from_plain_call(Ctx::new(1), Value::Undefined, &empty).access();
    assert_eq!(<Opt<i32> as FromParam>::from_param(&mut acc), Ok(Opt(None)));
    assert_eq!(acc.len(), 0);

    let args = ints(&[8, 9]);
    let mut acc = Params::from_plain_call(Ctx::new(1), Value::Undefined, &args).access();
    assert_eq!(<Opt<i32> as FromParam>::from_param(&mut acc), Ok(Opt(Some(8))));
    assert_eq!(acc.len(), 1);
}

#[test]
fn rest_takes_what_is_left() {
    let args = ints(&[1, 2, 3, 4]);
    let mut acc = Params::from_plain_call(Ctx::new(1), Value::Undefined, &args).access();
    let r = <(i32, Rest<i32>) as FromParams>::from_params(&mut acc);
    assert_eq!(r, Ok((1, Rest(vec![2, 3, 4]))));
    assert!(acc.is_empty());
}

#[test]
fn rest_stops_at_first_failure() {
    let args = vec![Value::Int(1), Value::Null, Value::Int(3)];
    let mut acc = Params::from_plain_call(Ctx::new(1), Value::Undefined, &args).access();
    let r = <Rest<i32> as FromParam>::from_param(&mut acc);
    assert_eq!(r, Err(Error::FromJs { from: Kind::Null, to: Kind::Int }));
    assert_eq!(acc.len(), 1);
}

#[test]
fn bound_positions_take_nothing() {
    let args = ints(&[7]);
    let mut acc = Params::new(Ctx::new(1), Value::Bool(false), Value::Object(3), &args).access();
    assert_eq!(<This<Value> as FromParam>::from_param(&mut acc), Ok(This(Value::Object(3))));
    assert_eq!(acc.len(), 1);
    assert_eq!(<Func<bool> as FromParam>::from_param(&mut acc), Ok(Func(false)));
    assert_eq!(acc.len(), 1);
    assert_eq!(<Exhaustive as FromParam>::from_param(&mut acc), Ok(Exhaustive));
    assert_eq!(acc.len(), 1);
}

#[test]
fn flattened_tuple_shares_cursor() {
    let args = ints(&[1, 2, 3, 4, 5]);
    let mut acc = Params::from_plain_call(Ctx::new(1), Value::Undefined, &args).access();
    let r = <(i32, Flat<(i32, i32)>, i32) as FromParams>::from_params(&mut acc);
    assert_eq!(r, Ok((1, Flat((2, 3)), 4)));
    assert_eq!(acc.len(), 1);
}

#[test]
fn receiver_optional_rest_scenario() {
    let args = ints(&[5, 6, 7]);
    let mut acc = Params::from_plain_call(Ctx::new(1), Value::Object(42), &args).access();
    let r = <(This<Value>, Opt<i32>, Rest<i32>) as FromParams>::from_params(&mut acc);
    assert_eq!(r, Ok((This(Value::Object(42)), Opt(Some(5)), Rest(vec![6, 7]))));

    let empty: Vec<Value> = Vec::new();
    let mut acc = Params::from_plain_call(Ctx::new(1), Value::Object(42), &empty).access();
    let r = <(This<Value>, Opt<i32>, Rest<i32>) as FromParams>::from_params(&mut acc);
    assert_eq!(r, Ok((This(Value::Object(42)), Opt(None), Rest(vec![]))));
}

#[test]
fn conversion_failure_aborts_extraction() {
    let args = vec![Value::Int(1), Value::String(String::from("x")), Value::Int(3)];
    let mut acc = Params::from_plain_call(Ctx::new(1), Value::Undefined, &args).access();
    let r = <(i32, i32, i32) as FromParams>::from_params(&mut acc);
    assert_eq!(r, Err(Error::FromJs { from: Kind::String, to: Kind::Int }));
    assert_eq!(acc.len(), 1);
}

#[test]
fn seven_positions() {
    let args = vec![
        Value::Int(1),
        Value::Bool(true),
        Value::String(String::from("s")),
        Value::Int(4),
        Value::Int(5),
        Value::Int(6),
        Value::Null,
    ];
    let mut acc = Params::from_plain_call(Ctx::new(1), Value::Undefined, &args).access();
    let r = <(i32, bool, String, i32, i32, i32, Value) as FromParams>::from_params(&mut acc);
    assert_eq!(r, Ok((1, true, String::from("s"), 4, 5, 6, Value::Null)));
}
