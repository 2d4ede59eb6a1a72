use crate::error::Error;
use vstd::prelude::*;

verus! {

/// A handle on the engine context that a call runs in.
#[derive(Debug, Clone, Copy, PartialEq, Eq, Structural)]
pub struct Ctx {
    pub handle: u64,
}

impl Ctx {
    /// A context handle with the given number.
    pub fn new(handle: u64) -> (r: Ctx)
        ensures
            r.handle == handle,
    {
        Ctx { handle }
    }
}

/// The kinds of engine values.
#[derive(Debug, Clone, Copy, PartialEq, Eq, Structural)]
pub enum Kind {
    Undefined,
    Null,
    Bool,
    Int,
    String,
    Object,
}

/// An engine value, as the host sees it.
#[derive(Debug, PartialEq, Eq)]
pub enum Value {
    Undefined,
    Null,
    Bool(bool),
    Int(i32),
    String(String),
    /// A reference to an engine object, by its handle.
    Object(u64),
}

/// The kind of a value.
pub open spec fn kind_of(v: Value) -> Kind {
    match v {
        Value::Undefined => Kind::Undefined,
        Value::Null => Kind::Null,
        Value::Bool(_) => Kind::Bool,
        Value::Int(_) => Kind::Int,
        Value::String(_) => Kind::String,
        Value::Object(_) => Kind::Object,
    }
}

impl Value {
    /// A second value equal to this one.
    pub fn duplicate(&self) -> (r: Value)
        ensures
            r == *self,
    {
        match self {
            Value::Undefined => Value::Undefined,
            Value::Null => Value::Null,
            Value::Bool(b) => Value::Bool(*b),
            Value::Int(n) => Value::Int(*n),
            Value::String(s) => Value::String(s.clone()),
            Value::Object(h) => Value::Object(*h),
        }
    }

    /// The kind of this value.
    pub fn kind(&self) -> (r: Kind)
        ensures
            r == kind_of(*self),
    {
        match self {
            Value::Undefined => Kind::Undefined,
            Value::Null => Kind::Null,
            Value::Bool(_) => Kind::Bool,
            Value::Int(_) => Kind::Int,
            Value::String(_) => Kind::String,
            Value::Object(_) => Kind::Object,
        }
    }
}

/// Conversion of one engine value into a host value.
pub trait FromJs: Sized {
    /// What the conversion gives for `v`.
    spec fn spec_from_js(v: Value) -> Result<Self, Error>;

    fn from_js(ctx: Ctx, v: Value) -> (r: Result<Self, Error>)
        ensures
            r == Self::spec_from_js(v),
    ;
}

/// Conversion of one host value into an engine value.
pub trait ToJs: Sized {
    /// What the conversion gives for `self`.
    spec fn spec_to_js(self) -> Result<Value, Error>;

    fn to_js(self, ctx: Ctx) -> (r: Result<Value, Error>)
        ensures
            r == self.spec_to_js(),
    ;
}

impl FromJs for Value {
    open spec fn spec_from_js(v: Value) -> Result<Value, Error> {
        Ok(v)
    }

    fn from_js(ctx: Ctx, v: Value) -> (r: Result<Value, Error>) {
        Ok(v)
    }
}

impl FromJs for i32 {
    open spec fn spec_from_js(v: Value) -> Result<i32, Error> {
        match v {
            Value::Int(n) => Ok(n),
            _ => Err(Error::FromJs { from: kind_of(v), to: Kind::Int }),
        }
    }

    fn from_js(ctx: Ctx, v: Value) -> (r: Result<i32, Error>) {
        match v {
            Value::Int(n) => Ok(n),
            _ => Err(Error::FromJs { from: v.kind(), to: Kind::Int }),
        }
    }
}

impl FromJs for bool {
    open spec fn spec_from_js(v: Value) -> Result<bool, Error> {
        match v {
            Value::Bool(b) => Ok(b),
            _ => Err(Error::FromJs { from: kind_of(v), to: Kind::Bool }),
        }
    }

    fn from_js(ctx: Ctx, v: Value) -> (r: Result<bool, Error>) {
        match v {
            Value::Bool(b) => Ok(b),
            _ => Err(Error::FromJs { from: v.kind(), to: Kind::Bool }),
        }
    }
}

impl FromJs for String {
    open spec fn spec_from_js(v: Value) -> Result<String, Error> {
        match v {
            Value::String(s) => Ok(s),
            _ => Err(Error::FromJs { from: kind_of(v), to: Kind::String }),
        }
    }

    fn from_js(ctx: Ctx, v: Value) -> (r: Result<String, Error>) {
        match v {
            Value::String(s) => Ok(s),
            _ => Err(Error::FromJs { from: v.kind(), to: Kind::String }),
        }
    }
}

impl ToJs for Value {
    open spec fn spec_to_js(self) -> Result<Value, Error> {
        Ok(self)
    }

    fn to_js(self, ctx: Ctx) -> (r: Result<Value, Error>) {
        Ok(self)
    }
}

impl ToJs for i32 {
    open spec fn spec_to_js(self) -> Result<Value, Error> {
        Ok(Value::Int(self))
    }

    fn to_js(self, ctx: Ctx) -> (r: Result<Value, Error>) {
        Ok(Value::Int(self))
    }
}

impl ToJs for bool {
    open spec fn spec_to_js(self) -> Result<Value, Error> {
        Ok(Value::Bool(self))
    }

    fn to_js(self, ctx: Ctx) -> (r: Result<Value, Error>) {
        Ok(Value::Bool(self))
    }
}

impl ToJs for String {
    open spec fn spec_to_js(self) -> Result<Value, Error> {
        Ok(Value::String(self))
    }

    fn to_js(self, ctx: Ctx) -> (r: Result<Value, Error>) {
        Ok(Value::String(self))
    }
}

} // verus!
