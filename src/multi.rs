use crate::error::Error;
use crate::extract::error_of;
use crate::value::{Ctx, FromJs, ToJs, Value};
use vstd::prelude::*;

verus! {

/// The values of a variadic call, taken as they are.
#[derive(Debug, PartialEq, Eq)]
pub struct Args(pub Vec<Value>);

/// `r` with the conversion `x` appended, or the first error of the two.
pub open spec fn append_converted(r: Result<Seq<Value>, Error>, x: Result<Value, Error>) -> Result<
    Seq<Value>,
    Error,
> {
    match r {
        Err(e) => Err(e),
        Ok(s) => match x {
            Err(e) => Err(e),
            Ok(v) => Ok(s.push(v)),
        },
    }
}

/// Conversion of a host value, or a tuple of them, into a sequence of engine
/// values, in order.
pub trait ToJsMulti: Sized {
    /// What the conversion gives.
    spec fn spec_to_multi(self) -> Result<Seq<Value>, Error>;

    fn to_js_multi(self, ctx: Ctx) -> (r: Result<Vec<Value>, Error>)
        ensures
            match r {
                Ok(v) => self.spec_to_multi() == Ok::<Seq<Value>, Error>(v@),
                Err(e) => self.spec_to_multi() == Err::<Seq<Value>, Error>(e),
            },
    ;
}

/// Conversion of a sequence of engine values into a host value, or a tuple
/// of them, one value per position from the front.
pub trait FromJsMulti: Sized {
    /// The error of the conversion of `values`, if it fails.
    spec fn spec_multi_error(values: Seq<Value>) -> Option<Error>;

    /// What a value converted from `values` is.
    spec fn spec_multi_value(values: Seq<Value>, v: Self) -> bool;

    fn from_js_multi(ctx: Ctx, value: Vec<Value>) -> (r: Result<Self, Error>)
        ensures
            match r {
                Ok(v) => Self::spec_multi_error(value@) is None && Self::spec_multi_value(value@, v),
                Err(e) => Self::spec_multi_error(value@) == Some(e),
            },
    ;
}

impl ToJsMulti for Vec<Value> {
    open spec fn spec_to_multi(self) -> Result<Seq<Value>, Error> {
        Ok(self@)
    }

    fn to_js_multi(self, ctx: Ctx) -> (r: Result<Vec<Value>, Error>) {
        Ok(self)
    }
}

impl<T: ToJs> ToJsMulti for T {
    open spec fn spec_to_multi(self) -> Result<Seq<Value>, Error> {
        append_converted(Ok(Seq::empty()), self.spec_to_js())
    }

    fn to_js_multi(self, ctx: Ctx) -> (r: Result<Vec<Value>, Error>) {
        match self.to_js(ctx) {
            Ok(v) => {
                let mut out: Vec<Value> = Vec::new();
                out.push(v);
                proof {
                    assert(out@ == Seq::<Value>::empty().push(v));
                }
                Ok(out)
            },
            Err(e) => Err(e),
        }
    }
}

impl FromJsMulti for Args {
    open spec fn spec_multi_error(values: Seq<Value>) -> Option<Error> {
        None
    }

    open spec fn spec_multi_value(values: Seq<Value>, v: Args) -> bool {
        v.0@ == values
    }

    fn from_js_multi(ctx: Ctx, value: Vec<Value>) -> (r: Result<Args, Error>) {
        Ok(Args(value))
    }
}

impl<T: FromJs> FromJsMulti for T {
    open spec fn spec_multi_error(values: Seq<Value>) -> Option<Error> {
        if values.len() == 0 {
            Some(Error::MissingArguments(0, 1))
        } else {
            error_of(T::spec_from_js(values[0]))
        }
    }

    open spec fn spec_multi_value(values: Seq<Value>, v: T) -> bool {
        T::spec_from_js(values[0]) == Ok::<T, Error>(v)
    }

    fn from_js_multi(ctx: Ctx, value: Vec<Value>) -> (r: Result<T, Error>) {
        let len = value.len();
        let mut value = value;
        if len == 0 {
            return Err(Error::MissingArguments(len, 1));
        }
        let v = value.remove(0);
        T::from_js(ctx, v)
    }
}

impl<A: ToJs> ToJsMulti for (A,) {
    open spec fn spec_to_multi(self) -> Result<Seq<Value>, Error> {
        let r = Ok(Seq::empty());
        let r = append_converted(r, self.0.spec_to_js());
        r
    }

    fn to_js_multi(self, ctx: Ctx) -> (r: Result<Vec<Value>, Error>) {
        let ghost whole = self;
        let (av,) = self;
        let mut out: Vec<Value> = Vec::new();
        let ghost mut done: Result<Seq<Value>, Error> = Ok(Seq::empty());
        match av.to_js(ctx) {
            Ok(v) => out.push(v),
            Err(e) => return Err(e),
        }
        proof {
            done = append_converted(done, whole.0.spec_to_js());
        }
        assert(done == Ok::<Seq<Value>, Error>(out@));
        Ok(out)
    }
}

impl<A: ToJs, B: ToJs> ToJsMulti for (A, B) {
    open spec fn spec_to_multi(self) -> Result<Seq<Value>, Error> {
        let r = Ok(Seq::empty());
        let r = append_converted(r, self.0.spec_to_js());
        let r = append_converted(r, self.1.spec_to_js());
        r
    }

    fn to_js_multi(self, ctx: Ctx) -> (r: Result<Vec<Value>, Error>) {
        let ghost whole = self;
        let (av, bv) = self;
        let mut out: Vec<Value> = Vec::new();
        let ghost mut done: Result<Seq<Value>, Error> = Ok(Seq::empty());
        match av.to_js(ctx) {
            Ok(v) => out.push(v),
            Err(e) => return Err(e),
        }
        proof {
            done = append_converted(done, whole.0.spec_to_js());
        }
        assert(done == Ok::<Seq<Value>, Error>(out@));
        match bv.to_js(ctx) {
            Ok(v) => out.push(v),
            Err(e) => return Err(e),
        }
        proof {
            done = append_converted(done, whole.1.spec_to_js());
        }
        assert(done == Ok::<Seq<Value>, Error>(out@));
        Ok(out)
    }
}

impl<A: ToJs, B: ToJs, C: ToJs> ToJsMulti for (A, B, C) {
    open spec fn spec_to_multi(self) -> Result<Seq<Value>, Error> {
        let r = Ok(Seq::empty());
        let r = append_converted(r, self.0.spec_to_js());
        let r = append_converted(r, self.1.spec_to_js());
        let r = append_converted(r, self.2.spec_to_js());
        r
    }

    fn to_js_multi(self, ctx: Ctx) -> (r: Result<Vec<Value>, Error>) {
        let ghost whole = self;
        let (av, bv, cv) = self;
        let mut out: Vec<Value> = Vec::new();
        let ghost mut done: Result<Seq<Value>, Error> = Ok(Seq::empty());
        match av.to_js(ctx) {
            Ok(v) => out.push(v),
            Err(e) => return Err(e),
        }
        proof {
            done = append_converted(done, whole.0.spec_to_js());
        }
        assert(done == Ok::<Seq<Value>, Error>(out@));
        match bv.to_js(ctx) {
            Ok(v) => out.push(v),
            Err(e) => return Err(e),
        }
        proof {
            done = append_converted(done, whole.1.spec_to_js());
        }
        assert(done == Ok::<Seq<Value>, Error>(out@));
        match cv.to_js(ctx) {
            Ok(v) => out.push(v),
            Err(e) => return Err(e),
        }
        proof {
            done = append_converted(done, whole.2.spec_to_js());
        }
        assert(done == Ok::<Seq<Value>, Error>(out@));
        Ok(out)
    }
}

impl<A: ToJs, B: ToJs, C: ToJs, D: ToJs> ToJsMulti for (A, B, C, D) {
    open spec fn spec_to_multi(self) -> Result<Seq<Value>, Error> {
        let r = Ok(Seq::empty());
        let r = append_converted(r, self.0.spec_to_js());
        let r = append_converted(r, self.1.spec_to_js());
        let r = append_converted(r, self.2.spec_to_js());
        let r = append_converted(r, self.3.spec_to_js());
        r
    }

    fn to_js_multi(self, ctx: Ctx) -> (r: Result<Vec<Value>, Error>) {
        let ghost whole = self;
        let (av, bv, cv, dv) = self;
        let mut out: Vec<Value> = Vec::new();
        let ghost mut done: Result<Seq<Value>, Error> = Ok(Seq::empty());
        match av.to_js(ctx) {
            Ok(v) => out.push(v),
            Err(e) => return Err(e),
        }
        proof {
            done = append_converted(done, whole.0.spec_to_js());
        }
        assert(done == Ok::<Seq<Value>, Error>(out@));
        match bv.to_js(ctx) {
            Ok(v) => out.push(v),
            Err(e) => return Err(e),
        }
        proof {
            done = append_converted(done, whole.1.spec_to_js());
        }
        assert(done == Ok::<Seq<Value>, Error>(out@));
        match cv.to_js(ctx) {
            Ok(v) => out.push(v),
            Err(e) => return Err(e),
        }
        proof {
            done = append_converted(done, whole.2.spec_to_js());
        }
        assert(done == Ok::<Seq<Value>, Error>(out@));
        match dv.to_js(ctx) {
            Ok(v) => out.push(v),
            Err(e) => return Err(e),
        }
        proof {
            done = append_converted(done, whole.3.spec_to_js());
        }
        assert(done == Ok::<Seq<Value>, Error>(out@));
        Ok(out)
    }
}

impl<A: ToJs, B: ToJs, C: ToJs, D: ToJs, E: ToJs> ToJsMulti for (A, B, C, D, E) {
    open spec fn spec_to_multi(self) -> Result<Seq<Value>, Error> {
        let r = Ok(Seq::empty());
        let r = append_converted(r, self.0.spec_to_js());
        let r = append_converted(r, self.1.spec_to_js());
        let r = append_converted(r, self.2.spec_to_js());
        let r = append_converted(r, self.3.spec_to_js());
        let r = append_converted(r, self.4.spec_to_js());
        r
    }

    fn to_js_multi(self, ctx: Ctx) -> (r: Result<Vec<Value>, Error>) {
        let ghost whole = self;
        let (av, bv, cv, dv, ev) = self;
        let mut out: Vec<Value> = Vec::new();
        let ghost mut done: Result<Seq<Value>, Error> = Ok(Seq::empty());
        match av.to_js(ctx) {
            Ok(v) => out.push(v),
            Err(e) => return Err(e),
        }
        proof {
            done = append_converted(done, whole.0.spec_to_js());
        }
        assert(done == Ok::<Seq<Value>, Error>(out@));
        match bv.to_js(ctx) {
            Ok(v) => out.push(v),
            Err(e) => return Err(e),
        }
        proof {
            done = append_converted(done, whole.1.spec_to_js());
        }
        assert(done == Ok::<Seq<Value>, Error>(out@));
        match cv.to_js(ctx) {
            Ok(v) => out.push(v),
            Err(e) => return Err(e),
        }
        proof {
            done = append_converted(done, whole.2.spec_to_js());
        }
        assert(done == Ok::<Seq<Value>, Error>(out@));
        match dv.to_js(ctx) {
            Ok(v) => out.push(v),
            Err(e) => return Err(e),
        }
        proof {
            done = append_converted(done, whole.3.spec_to_js());
        }
        assert(done == Ok::<Seq<Value>, Error>(out@));
        match ev.to_js(ctx) {
            Ok(v) => out.push(v),
            Err(e) => return Err(e),
        }
        proof {
            done = append_converted(done, whole.4.spec_to_js());
        }
        assert(done == Ok::<Seq<Value>, Error>(out@));
        Ok(out)
    }
}

impl<A: ToJs, B: ToJs, C: ToJs, D: ToJs, E: ToJs, F: ToJs> ToJsMulti for (A, B, C, D, E, F) {
    open spec fn spec_to_multi(self) -> Result<Seq<Value>, Error> {
        let r = Ok(Seq::empty());
        let r = append_converted(r, self.0.spec_to_js());
        let r = append_converted(r, self.1.spec_to_js());
        let r = append_converted(r, self.2.spec_to_js());
        let r = append_converted(r, self.3.spec_to_js());
        let r = append_converted(r, self.4.spec_to_js());
        let r = append_converted(r, self.5.spec_to_js());
        r
    }

    fn to_js_multi(self, ctx: Ctx) -> (r: Result<Vec<Value>, Error>) {
        let ghost whole = self;
        let (av, bv, cv, dv, ev, fv) = self;
        let mut out: Vec<Value> = Vec::new();
        let ghost mut done: Result<Seq<Value>, Error> = Ok(Seq::empty());
        match av.to_js(ctx) {
            Ok(v) => out.push(v),
            Err(e) => return Err(e),
        }
        proof {
            done = append_converted(done, whole.0.spec_to_js());
        }
        assert(done == Ok::<Seq<Value>, Error>(out@));
        match bv.to_js(ctx) {
            Ok(v) => out.push(v),
            Err(e) => return Err(e),
        }
        proof {
            done = append_converted(done, whole.1.spec_to_js());
        }
        assert(done == Ok::<Seq<Value>, Error>(out@));
        match cv.to_js(ctx) {
            Ok(v) => out.push(v),
            Err(e) => return Err(e),
        }
        proof {
            done = append_converted(done, whole.2.spec_to_js());
        }
        assert(done == Ok::<Seq<Value>, Error>(out@));
        match dv.to_js(ctx) {
            Ok(v) => out.push(v),
            Err(e) => return Err(e),
        }
        proof {
            done = append_converted(done, whole.3.spec_to_js());
        }
        assert(done == Ok::<Seq<Value>, Error>(out@));
        match ev.to_js(ctx) {
            Ok(v) => out.push(v),
            Err(e) => return Err(e),
        }
        proof {
            done = append_converted(done, whole.4.spec_to_js());
        }
        assert(done == Ok::<Seq<Value>, Error>(out@));
        match fv.to_js(ctx) {
            Ok(v) => out.push(v),
            Err(e) => return Err(e),
        }
        proof {
            done = append_converted(done, whole.5.spec_to_js());
        }
        assert(done == Ok::<Seq<Value>, Error>(out@));
        Ok(out)
    }
}

impl<A: ToJs, B: ToJs, C: ToJs, D: ToJs, E: ToJs, F: ToJs, G: ToJs> ToJsMulti for (A, B, C, D, E, F, G) {
    open spec fn spec_to_multi(self) -> Result<Seq<Value>, Error> {
        let r = Ok(Seq::empty());
        let r = append_converted(r, self.0.spec_to_js());
        let r = append_converted(r, self.1.spec_to_js());
        let r = append_converted(r, self.2.spec_to_js());
        let r = append_converted(r, self.3.spec_to_js());
        let r = append_converted(r, self.4.spec_to_js());
        let r = append_converted(r, self.5.spec_to_js());
        let r = append_converted(r, self.6.spec_to_js());
        r
    }

    fn to_js_multi(self, ctx: Ctx) -> (r: Result<Vec<Value>, Error>) {
        let ghost whole = self;
        let (av, bv, cv, dv, ev, fv, gv) = self;
        let mut out: Vec<Value> = Vec::new();
        let ghost mut done: Result<Seq<Value>, Error> = Ok(Seq::empty());
        match av.to_js(ctx) {
            Ok(v) => out.push(v),
            Err(e) => return Err(e),
        }
        proof {
            done = append_converted(done, whole.0.spec_to_js());
        }
        assert(done == Ok::<Seq<Value>, Error>(out@));
        match bv.to_js(ctx) {
            Ok(v) => out.push(v),
            Err(e) => return Err(e),
        }
        proof {
            done = append_converted(done, whole.1.spec_to_js());
        }
        assert(done == Ok::<Seq<Value>, Error>(out@));
        match cv.to_js(ctx) {
            Ok(v) => out.push(v),
            Err(e) => return Err(e),
        }
        proof {
            done = append_converted(done, whole.2.spec_to_js());
        }
        assert(done == Ok::<Seq<Value>, Error>(out@));
        match dv.to_js(ctx) {
            Ok(v) => out.push(v),
            Err(e) => return Err(e),
        }
        proof {
            done = append_converted(done, whole.3.spec_to_js());
        }
        assert(done == Ok::<Seq<Value>, Error>(out@));
        match ev.to_js(ctx) {
            Ok(v) => out.push(v),
            Err(e) => return Err(e),
        }
        proof {
            done = append_converted(done, whole.4.spec_to_js());
        }
        assert(done == Ok::<Seq<Value>, Error>(out@));
        match fv.to_js(ctx) {
            Ok(v) => out.push(v),
            Err(e) => return Err(e),
        }
        proof {
            done = append_converted(done, whole.5.spec_to_js());
        }
        assert(done == Ok::<Seq<Value>, Error>(out@));
        match gv.to_js(ctx) {
            Ok(v) => out.push(v),
            Err(e) => return Err(e),
        }
        proof {
            done = append_converted(done, whole.6.spec_to_js());
        }
        assert(done == Ok::<Seq<Value>, Error>(out@));
        Ok(out)
    }
}

impl<A: ToJs, B: ToJs, C: ToJs, D: ToJs, E: ToJs, F: ToJs, G: ToJs, H: ToJs> ToJsMulti for (A, B, C, D, E, F, G, H) {
    open spec fn spec_to_multi(self) -> Result<Seq<Value>, Error> {
        let r = Ok(Seq::empty());
        let r = append_converted(r, self.0.spec_to_js());
        let r = append_converted(r, self.1.spec_to_js());
        let r = append_converted(r, self.2.spec_to_js());
        let r = append_converted(r, self.3.spec_to_js());
        let r = append_converted(r, self.4.spec_to_js());
        let r = append_converted(r, self.5.spec_to_js());
        let r = append_converted(r, self.6.spec_to_js());
        let r = append_converted(r, self.7.spec_to_js());
        r
    }

    fn to_js_multi(self, ctx: Ctx) -> (r: Result<Vec<Value>, Error>) {
        let ghost whole = self;
        let (av, bv, cv, dv, ev, fv, gv, hv) = self;
        let mut out: Vec<Value> = Vec::new();
        let ghost mut done: Result<Seq<Value>, Error> = Ok(Seq::empty());
        match av.to_js(ctx) {
            Ok(v) => out.push(v),
            Err(e) => return Err(e),
        }
        proof {
            done = append_converted(done, whole.0.spec_to_js());
        }
        assert(done == Ok::<Seq<Value>, Error>(out@));
        match bv.to_js(ctx) {
            Ok(v) => out.push(v),
            Err(e) => return Err(e),
        }
        proof {
            done = append_converted(done, whole.1.spec_to_js());
        }
        assert(done == Ok::<Seq<Value>, Error>(out@));
        match cv.to_js(ctx) {
            Ok(v) => out.push(v),
            Err(e) => return Err(e),
        }
        proof {
            done = append_converted(done, whole.2.spec_to_js());
        }
        assert(done == Ok::<Seq<Value>, Error>(out@));
        match dv.to_js(ctx) {
            Ok(v) => out.push(v),
            Err(e) => return Err(e),
        }
        proof {
            done = append_converted(done, whole.3.spec_to_js());
        }
        assert(done == Ok::<Seq<Value>, Error>(out@));
        match ev.to_js(ctx) {
            Ok(v) => out.push(v),
            Err(e) => return Err(e),
        }
        proof {
            done = append_converted(done, whole.4.spec_to_js());
        }
        assert(done == Ok::<Seq<Value>, Error>(out@));
        match fv.to_js(ctx) {
            Ok(v) => out.push(v),
            Err(e) => return Err(e),
        }
        proof {
            done = append_converted(done, whole.5.spec_to_js());
        }
        assert(done == Ok::<Seq<Value>, Error>(out@));
        match gv.to_js(ctx) {
            Ok(v) => out.push(v),
            Err(e) => return Err(e),
        }
        proof {
            done = append_converted(done, whole.6.spec_to_js());
        }
        assert(done == Ok::<Seq<Value>, Error>(out@));
        match hv.to_js(ctx) {
            Ok(v) => out.push(v),
            Err(e) => return Err(e),
        }
        proof {
            done = append_converted(done, whole.7.spec_to_js());
        }
        assert(done == Ok::<Seq<Value>, Error>(out@));
        Ok(out)
    }
}

impl<A: ToJs, B: ToJs, C: ToJs, D: ToJs, E: ToJs, F: ToJs, G: ToJs, H: ToJs, I: ToJs> ToJsMulti for (A, B, C, D, E, F, G, H, I) {
    open spec fn spec_to_multi(self) -> Result<Seq<Value>, Error> {
        let r = Ok(Seq::empty());
        let r = append_converted(r, self.0.spec_to_js());
        let r = append_converted(r, self.1.spec_to_js());
        let r = append_converted(r, self.2.spec_to_js());
        let r = append_converted(r, self.3.spec_to_js());
        let r = append_converted(r, self.4.spec_to_js());
        let r = append_converted(r, self.5.spec_to_js());
        let r = append_converted(r, self.6.spec_to_js());
        let r = append_converted(r, self.7.spec_to_js());
        let r = append_converted(r, self.8.spec_to_js());
        r
    }

    fn to_js_multi(self, ctx: Ctx) -> (r: Result<Vec<Value>, Error>) {
        let ghost whole = self;
        let (av, bv, cv, dv, ev, fv, gv, hv, iv) = self;
        let mut out: Vec<Value> = Vec::new();
        let ghost mut done: Result<Seq<Value>, Error> = Ok(Seq::empty());
        match av.to_js(ctx) {
            Ok(v) => out.push(v),
            Err(e) => return Err(e),
        }
        proof {
            done = append_converted(done, whole.0.spec_to_js());
        }
        assert(done == Ok::<Seq<Value>, Error>(out@));
        match bv.to_js(ctx) {
            Ok(v) => out.push(v),
            Err(e) => return Err(e),
        }
        proof {
            done = append_converted(done, whole.1.spec_to_js());
        }
        assert(done == Ok::<Seq<Value>, Error>(out@));
        match cv.to_js(ctx) {
            Ok(v) => out.push(v),
            Err(e) => return Err(e),
        }
        proof {
            done = append_converted(done, whole.2.spec_to_js());
        }
        assert(done == Ok::<Seq<Value>, Error>(out@));
        match dv.to_js(ctx) {
            Ok(v) => out.push(v),
            Err(e) => return Err(e),
        }
        proof {
            done = append_converted(done, whole.3.spec_to_js());
        }
        assert(done == Ok::<Seq<Value>, Error>(out@));
        match ev.to_js(ctx) {
            Ok(v) => out.push(v),
            Err(e) => return Err(e),
        }
        proof {
            done = append_converted(done, whole.4.spec_to_js());
        }
        assert(done == Ok::<Seq<Value>, Error>(out@));
        match fv.to_js(ctx) {
            Ok(v) => out.push(v),
            Err(e) => return Err(e),
        }
        proof {
            done = append_converted(done, whole.5.spec_to_js());
        }
        assert(done == Ok::<Seq<Value>, Error>(out@));
        match gv.to_js(ctx) {
            Ok(v) => out.push(v),
            Err(e) => return Err(e),
        }
        proof {
            done = append_converted(done, whole.6.spec_to_js());
        }
        assert(done == Ok::<Seq<Value>, Error>(out@));
        match hv.to_js(ctx) {
            Ok(v) => out.push(v),
            Err(e) => return Err(e),
        }
        proof {
            done = append_converted(done, whole.7.spec_to_js());
        }
        assert(done == Ok::<Seq<Value>, Error>(out@));
        match iv.to_js(ctx) {
            Ok(v) => out.push(v),
            Err(e) => return Err(e),
        }
        proof {
            done = append_converted(done, whole.8.spec_to_js());
        }
        assert(done == Ok::<Seq<Value>, Error>(out@));
        Ok(out)
    }
}

impl<A: ToJs, B: ToJs, C: ToJs, D: ToJs, E: ToJs, F: ToJs, G: ToJs, H: ToJs, I: ToJs, J: ToJs> ToJsMulti for (A, B, C, D, E, F, G, H, I, J) {
    open spec fn spec_to_multi(self) -> Result<Seq<Value>, Error> {
        let r = Ok(Seq::empty());
        let r = append_converted(r, self.0.spec_to_js());
        let r = append_converted(r, self.1.spec_to_js());
        let r = append_converted(r, self.2.spec_to_js());
        let r = append_converted(r, self.3.spec_to_js());
        let r = append_converted(r, self.4.spec_to_js());
        let r = append_converted(r, self.5.spec_to_js());
        let r = append_converted(r, self.6.spec_to_js());
        let r = append_converted(r, self.7.spec_to_js());
        let r = append_converted(r, self.8.spec_to_js());
        let r = append_converted(r, self.9.spec_to_js());
        r
    }

    fn to_js_multi(self, ctx: Ctx) -> (r: Result<Vec<Value>, Error>) {
        let ghost whole = self;
        let (av, bv, cv, dv, ev, fv, gv, hv, iv, jv) = self;
        let mut out: Vec<Value> = Vec::new();
        let ghost mut done: Result<Seq<Value>, Error> = Ok(Seq::empty());
        match av.to_js(ctx) {
            Ok(v) => out.push(v),
            Err(e) => return Err(e),
        }
        proof {
            done = append_converted(done, whole.0.spec_to_js());
        }
        assert(done == Ok::<Seq<Value>, Error>(out@));
        match bv.to_js(ctx) {
            Ok(v) => out.push(v),
            Err(e) => return Err(e),
        }
        proof {
            done = append_converted(done, whole.1.spec_to_js());
        }
        assert(done == Ok::<Seq<Value>, Error>(out@));
        match cv.to_js(ctx) {
            Ok(v) => out.push(v),
            Err(e) => return Err(e),
        }
        proof {
            done = append_converted(done, whole.2.spec_to_js());
        }
        assert(done == Ok::<Seq<Value>, Error>(out@));
        match dv.to_js(ctx) {
            Ok(v) => out.push(v),
            Err(e) => return Err(e),
        }
        proof {
            done = append_converted(done, whole.3.spec_to_js());
        }
        assert(done == Ok::<Seq<Value>, Error>(out@));
        match ev.to_js(ctx) {
            Ok(v) => out.push(v),
            Err(e) => return Err(e),
        }
        proof {
            done = append_converted(done, whole.4.spec_to_js());
        }
        assert(done == Ok::<Seq<Value>, Error>(out@));
        match fv.to_js(ctx) {
            Ok(v) => out.push(v),
            Err(e) => return Err(e),
        }
        proof {
            done = append_converted(done, whole.5.spec_to_js());
        }
        assert(done == Ok::<Seq<Value>, Error>(out@));
        match gv.to_js(ctx) {
            Ok(v) => out.push(v),
            Err(e) => return Err(e),
        }
        proof {
            done = append_converted(done, whole.6.spec_to_js());
        }
        assert(done == Ok::<Seq<Value>, Error>(out@));
        match hv.to_js(ctx) {
            Ok(v) => out.push(v),
            Err(e) => return Err(e),
        }
        proof {
            done = append_converted(done, whole.7.spec_to_js());
        }
        assert(done == Ok::<Seq<Value>, Error>(out@));
        match iv.to_js(ctx) {
            Ok(v) => out.push(v),
            Err(e) => return Err(e),
        }
        proof {
            done = append_converted(done, whole.8.spec_to_js());
        }
        assert(done == Ok::<Seq<Value>, Error>(out@));
        match jv.to_js(ctx) {
            Ok(v) => out.push(v),
            Err(e) => return Err(e),
        }
        proof {
            done = append_converted(done, whole.9.spec_to_js());
        }
        assert(done == Ok::<Seq<Value>, Error>(out@));
        Ok(out)
    }
}

impl<A: ToJs, B: ToJs, C: ToJs, D: ToJs, E: ToJs, F: ToJs, G: ToJs, H: ToJs, I: ToJs, J: ToJs, K: ToJs> ToJsMulti for (A, B, C, D, E, F, G, H, I, J, K) {
    open spec fn spec_to_multi(self) -> Result<Seq<Value>, Error> {
        let r = Ok(Seq::empty());
        let r = append_converted(r, self.0.spec_to_js());
        let r = append_converted(r, self.1.spec_to_js());
        let r = append_converted(r, self.2.spec_to_js());
        let r = append_converted(r, self.3.spec_to_js());
        let r = append_converted(r, self.4.spec_to_js());
        let r = append_converted(r, self.5.spec_to_js());
        let r = append_converted(r, self.6.spec_to_js());
        let r = append_converted(r, self.7.spec_to_js());
        let r = append_converted(r, self.8.spec_to_js());
        let r = append_converted(r, self.9.spec_to_js());
        let r = append_converted(r, self.10.spec_to_js());
        r
    }

    fn to_js_multi(self, ctx: Ctx) -> (r: Result<Vec<Value>, Error>) {
        let ghost whole = self;
        let (av, bv, cv, dv, ev, fv, gv, hv, iv, jv, kv) = self;
        let mut out: Vec<Value> = Vec::new();
        let ghost mut done: Result<Seq<Value>, Error> = Ok(Seq::empty());
        match av.to_js(ctx) {
            Ok(v) => out.push(v),
            Err(e) => return Err(e),
        }
        proof {
            done = append_converted(done, whole.0.spec_to_js());
        }
        assert(done == Ok::<Seq<Value>, Error>(out@));
        match bv.to_js(ctx) {
            Ok(v) => out.push(v),
            Err(e) => return Err(e),
        }
        proof {
            done = append_converted(done, whole.1.spec_to_js());
        }
        assert(done == Ok::<Seq<Value>, Error>(out@));
        match cv.to_js(ctx) {
            Ok(v) => out.push(v),
            Err(e) => return Err(e),
        }
        proof {
            done = append_converted(done, whole.2.spec_to_js());
        }
        assert(done == Ok::<Seq<Value>, Error>(out@));
        match dv.to_js(ctx) {
            Ok(v) => out.push(v),
            Err(e) => return Err(e),
        }
        proof {
            done = append_converted(done, whole.3.spec_to_js());
        }
        assert(done == Ok::<Seq<Value>, Error>(out@));
        match ev.to_js(ctx) {
            Ok(v) => out.push(v),
            Err(e) => return Err(e),
        }
        proof {
            done = append_converted(done, whole.4.spec_to_js());
        }
        assert(done == Ok::<Seq<Value>, Error>(out@));
        match fv.to_js(ctx) {
            Ok(v) => out.push(v),
            Err(e) => return Err(e),
        }
        proof {
            done = append_converted(done, whole.5.spec_to_js());
        }
        assert(done == Ok::<Seq<Value>, Error>(out@));
        match gv.to_js(ctx) {
            Ok(v) => out.push(v),
            Err(e) => return Err(e),
        }
        proof {
            done = append_converted(done, whole.6.spec_to_js());
        }
        assert(done == Ok::<Seq<Value>, Error>(out@));
        match hv.to_js(ctx) {
            Ok(v) => out.push(v),
            Err(e) => return Err(e),
        }
        proof {
            done = append_converted(done, whole.7.spec_to_js());
        }
        assert(done == Ok::<Seq<Value>, Error>(out@));
        match iv.to_js(ctx) {
            Ok(v) => out.push(v),
            Err(e) => return Err(e),
        }
        proof {
            done = append_converted(done, whole.8.spec_to_js());
        }
        assert(done == Ok::<Seq<Value>, Error>(out@));
        match jv.to_js(ctx) {
            Ok(v) => out.push(v),
            Err(e) => return Err(e),
        }
        proof {
            done = append_converted(done, whole.9.spec_to_js());
        }
        assert(done == Ok::<Seq<Value>, Error>(out@));
        match kv.to_js(ctx) {
            Ok(v) => out.push(v),
            Err(e) => return Err(e),
        }
        proof {
            done = append_converted(done, whole.10.spec_to_js());
        }
        assert(done == Ok::<Seq<Value>, Error>(out@));
        Ok(out)
    }
}

impl<A: FromJs> FromJsMulti for (A,) {
    open spec fn spec_multi_error(values: Seq<Value>) -> Option<Error> {
        let missing = Some(Error::MissingArguments(values.len() as usize, 1));
        if values.len() == 0 {
            missing
        } else if A::spec_from_js(values[0]) is Err {
            error_of(A::spec_from_js(values[0]))
        } else {
            None
        }
    }

    open spec fn spec_multi_value(values: Seq<Value>, v: (A,)) -> bool {
        A::spec_from_js(values[0]) == Ok::<A, Error>(v.0)
    }

    fn from_js_multi(ctx: Ctx, value: Vec<Value>) -> (r: Result<(A,), Error>) {
        let ghost whole = value@;
        let len = value.len();
        let mut value = value;
        if value.len() == 0 {
            return Err(Error::MissingArguments(len, 1));
        }
        assert(value@ == whole.subrange(0, len as int));
        let av = match A::from_js(ctx, value.remove(0)) {
            Ok(x) => x,
            Err(e) => return Err(e),
        };
        Ok((av,))
    }
}

impl<A: FromJs, B: FromJs> FromJsMulti for (A, B) {
    open spec fn spec_multi_error(values: Seq<Value>) -> Option<Error> {
        let missing = Some(Error::MissingArguments(values.len() as usize, 1));
        if values.len() == 0 {
            missing
        } else if A::spec_from_js(values[0]) is Err {
            error_of(A::spec_from_js(values[0]))
        } else if values.len() == 1 {
            missing
        } else if B::spec_from_js(values[1]) is Err {
            error_of(B::spec_from_js(values[1]))
        } else {
            None
        }
    }

    open spec fn spec_multi_value(values: Seq<Value>, v: (A, B)) -> bool {
        A::spec_from_js(values[0]) == Ok::<A, Error>(v.0)
            && B::spec_from_js(values[1]) == Ok::<B, Error>(v.1)
    }

    fn from_js_multi(ctx: Ctx, value: Vec<Value>) -> (r: Result<(A, B), Error>) {
        let ghost whole = value@;
        let len = value.len();
        let mut value = value;
        if value.len() == 0 {
            return Err(Error::MissingArguments(len, 1));
        }
        assert(value@ == whole.subrange(0, len as int));
        let av = match A::from_js(ctx, value.remove(0)) {
            Ok(x) => x,
            Err(e) => return Err(e),
        };
        if value.len() == 0 {
            return Err(Error::MissingArguments(len, 1));
        }
        assert(value@ == whole.subrange(1, len as int));
        let bv = match B::from_js(ctx, value.remove(0)) {
            Ok(x) => x,
            Err(e) => return Err(e),
        };
        Ok((av, bv))
    }
}

impl<A: FromJs, B: FromJs, C: FromJs> FromJsMulti for (A, B, C) {
    open spec fn spec_multi_error(values: Seq<Value>) -> Option<Error> {
        let missing = Some(Error::MissingArguments(values.len() as usize, 1));
        if values.len() == 0 {
            missing
        } else if A::spec_from_js(values[0]) is Err {
            error_of(A::spec_from_js(values[0]))
        } else if values.len() == 1 {
            missing
        } else if B::spec_from_js(values[1]) is Err {
            error_of(B::spec_from_js(values[1]))
        } else if values.len() == 2 {
            missing
        } else if C::spec_from_js(values[2]) is Err {
            error_of(C::spec_from_js(values[2]))
        } else {
            None
        }
    }

    open spec fn spec_multi_value(values: Seq<Value>, v: (A, B, C)) -> bool {
        A::spec_from_js(values[0]) == Ok::<A, Error>(v.0)
            && B::spec_from_js(values[1]) == Ok::<B, Error>(v.1)
            && C::spec_from_js(values[2]) == Ok::<C, Error>(v.2)
    }

    fn from_js_multi(ctx: Ctx, value: Vec<Value>) -> (r: Result<(A, B, C), Error>) {
        let ghost whole = value@;
        let len = value.len();
        let mut value = value;
        if value.len() == 0 {
            return Err(Error::MissingArguments(len, 1));
        }
        assert(value@ == whole.subrange(0, len as int));
        let av = match A::from_js(ctx, value.remove(0)) {
            Ok(x) => x,
            Err(e) => return Err(e),
        };
        if value.len() == 0 {
            return Err(Error::MissingArguments(len, 1));
        }
        assert(value@ == whole.subrange(1, len as int));
        let bv = match B::from_js(ctx, value.remove(0)) {
            Ok(x) => x,
            Err(e) => return Err(e),
        };
        if value.len() == 0 {
            return Err(Error::MissingArguments(len, 1));
        }
        assert(value@ == whole.subrange(2, len as int));
        let cv = match C::from_js(ctx, value.remove(0)) {
            Ok(x) => x,
            Err(e) => return Err(e),
        };
        Ok((av, bv, cv))
    }
}

impl<A: FromJs, B: FromJs, C: FromJs, D: FromJs> FromJsMulti for (A, B, C, D) {
    open spec fn spec_multi_error(values: Seq<Value>) -> Option<Error> {
        let missing = Some(Error::MissingArguments(values.len() as usize, 1));
        if values.len() == 0 {
            missing
        } else if A::spec_from_js(values[0]) is Err {
            error_of(A::spec_from_js(values[0]))
        } else if values.len() == 1 {
            missing
        } else if B::spec_from_js(values[1]) is Err {
            error_of(B::spec_from_js(values[1]))
        } else if values.len() == 2 {
            missing
        } else if C::spec_from_js(values[2]) is Err {
            error_of(C::spec_from_js(values[2]))
        } else if values.len() == 3 {
            missing
        } else if D::spec_from_js(values[3]) is Err {
            error_of(D::spec_from_js(values[3]))
        } else {
            None
        }
    }

    open spec fn spec_multi_value(values: Seq<Value>, v: (A, B, C, D)) -> bool {
        A::spec_from_js(values[0]) == Ok::<A, Error>(v.0)
            && B::spec_from_js(values[1]) == Ok::<B, Error>(v.1)
            && C::spec_from_js(values[2]) == Ok::<C, Error>(v.2)
            && D::spec_from_js(values[3]) == Ok::<D, Error>(v.3)
    }

    fn from_js_multi(ctx: Ctx, value: Vec<Value>) -> (r: Result<(A, B, C, D), Error>) {
        let ghost whole = value@;
        let len = value.len();
        let mut value = value;
        if value.len() == 0 {
            return Err(Error::MissingArguments(len, 1));
        }
        assert(value@ == whole.subrange(0, len as int));
        let av = match A::from_js(ctx, value.remove(0)) {
            Ok(x) => x,
            Err(e) => return Err(e),
        };
        if value.len() == 0 {
            return Err(Error::MissingArguments(len, 1));
        }
        assert(value@ == whole.subrange(1, len as int));
        let bv = match B::from_js(ctx, value.remove(0)) {
            Ok(x) => x,
            Err(e) => return Err(e),
        };
        if value.len() == 0 {
            return Err(Error::MissingArguments(len, 1));
        }
        assert(value@ == whole.subrange(2, len as int));
        let cv = match C::from_js(ctx, value.remove(0)) {
            Ok(x) => x,
            Err(e) => return Err(e),
        };
        if value.len() == 0 {
            return Err(Error::MissingArguments(len, 1));
        }
        assert(value@ == whole.subrange(3, len as int));
        let dv = match D::from_js(ctx, value.remove(0)) {
            Ok(x) => x,
            Err(e) => return Err(e),
        };
        Ok((av, bv, cv, dv))
    }
}

impl<A: FromJs, B: FromJs, C: FromJs, D: FromJs, E: FromJs> FromJsMulti for (A, B, C, D, E) {
    open spec fn spec_multi_error(values: Seq<Value>) -> Option<Error> {
        let missing = Some(Error::MissingArguments(values.len() as usize, 1));
        if values.len() == 0 {
            missing
        } else if A::spec_from_js(values[0]) is Err {
            error_of(A::spec_from_js(values[0]))
        } else if values.len() == 1 {
            missing
        } else if B::spec_from_js(values[1]) is Err {
            error_of(B::spec_from_js(values[1]))
        } else if values.len() == 2 {
            missing
        } else if C::spec_from_js(values[2]) is Err {
            error_of(C::spec_from_js(values[2]))
        } else if values.len() == 3 {
            missing
        } else if D::spec_from_js(values[3]) is Err {
            error_of(D::spec_from_js(values[3]))
        } else if values.len() == 4 {
            missing
        } else if E::spec_from_js(values[4]) is Err {
            error_of(E::spec_from_js(values[4]))
        } else {
            None
        }
    }

    open spec fn spec_multi_value(values: Seq<Value>, v: (A, B, C, D, E)) -> bool {
        A::spec_from_js(values[0]) == Ok::<A, Error>(v.0)
            && B::spec_from_js(values[1]) == Ok::<B, Error>(v.1)
            && C::spec_from_js(values[2]) == Ok::<C, Error>(v.2)
            && D::spec_from_js(values[3]) == Ok::<D, Error>(v.3)
            && E::spec_from_js(values[4]) == Ok::<E, Error>(v.4)
    }

    fn from_js_multi(ctx: Ctx, value: Vec<Value>) -> (r: Result<(A, B, C, D, E), Error>) {
        let ghost whole = value@;
        let len = value.len();
        let mut value = value;
        if value.len() == 0 {
            return Err(Error::MissingArguments(len, 1));
        }
        assert(value@ == whole.subrange(0, len as int));
        let av = match A::from_js(ctx, value.remove(0)) {
            Ok(x) => x,
            Err(e) => return Err(e),
        };
        if value.len() == 0 {
            return Err(Error::MissingArguments(len, 1));
        }
        assert(value@ == whole.subrange(1, len as int));
        let bv = match B::from_js(ctx, value.remove(0)) {
            Ok(x) => x,
            Err(e) => return Err(e),
        };
        if value.len() == 0 {
            return Err(Error::MissingArguments(len, 1));
        }
        assert(value@ == whole.subrange(2, len as int));
        let cv = match C::from_js(ctx, value.remove(0)) {
            Ok(x) => x,
            Err(e) => return Err(e),
        };
        if value.len() == 0 {
            return Err(Error::MissingArguments(len, 1));
        }
        assert(value@ == whole.subrange(3, len as int));
        let dv = match D::from_js(ctx, value.remove(0)) {
            Ok(x) => x,
            Err(e) => return Err(e),
        };
        if value.len() == 0 {
            return Err(Error::MissingArguments(len, 1));
        }
        assert(value@ == whole.subrange(4, len as int));
        let ev = match E::from_js(ctx, value.remove(0)) {
            Ok(x) => x,
            Err(e) => return Err(e),
        };
        Ok((av, bv, cv, dv, ev))
    }
}

impl<A: FromJs, B: FromJs, C: FromJs, D: FromJs, E: FromJs, F: FromJs> FromJsMulti for (A, B, C, D, E, F) {
    open spec fn spec_multi_error(values: Seq<Value>) -> Option<Error> {
        let missing = Some(Error::MissingArguments(values.len() as usize, 1));
        if values.len() == 0 {
            missing
        } else if A::spec_from_js(values[0]) is Err {
            error_of(A::spec_from_js(values[0]))
        } else if values.len() == 1 {
            missing
        } else if B::spec_from_js(values[1]) is Err {
            error_of(B::spec_from_js(values[1]))
        } else if values.len() == 2 {
            missing
        } else if C::spec_from_js(values[2]) is Err {
            error_of(C::spec_from_js(values[2]))
        } else if values.len() == 3 {
            missing
        } else if D::spec_from_js(values[3]) is Err {
            error_of(D::spec_from_js(values[3]))
        } else if values.len() == 4 {
            missing
        } else if E::spec_from_js(values[4]) is Err {
            error_of(E::spec_from_js(values[4]))
        } else if values.len() == 5 {
            missing
        } else if F::spec_from_js(values[5]) is Err {
            error_of(F::spec_from_js(values[5]))
        } else {
            None
        }
    }

    open spec fn spec_multi_value(values: Seq<Value>, v: (A, B, C, D, E, F)) -> bool {
        A::spec_from_js(values[0]) == Ok::<A, Error>(v.0)
            && B::spec_from_js(values[1]) == Ok::<B, Error>(v.1)
            && C::spec_from_js(values[2]) == Ok::<C, Error>(v.2)
            && D::spec_from_js(values[3]) == Ok::<D, Error>(v.3)
            && E::spec_from_js(values[4]) == Ok::<E, Error>(v.4)
            && F::spec_from_js(values[5]) == Ok::<F, Error>(v.5)
    }

    fn from_js_multi(ctx: Ctx, value: Vec<Value>) -> (r: Result<(A, B, C, D, E, F), Error>) {
        let ghost whole = value@;
        let len = value.len();
        let mut value = value;
        if value.len() == 0 {
            return Err(Error::MissingArguments(len, 1));
        }
        assert(value@ == whole.subrange(0, len as int));
        let av = match A::from_js(ctx, value.remove(0)) {
            Ok(x) => x,
            Err(e) => return Err(e),
        };
        if value.len() == 0 {
            return Err(Error::MissingArguments(len, 1));
        }
        assert(value@ == whole.subrange(1, len as int));
        let bv = match B::from_js(ctx, value.remove(0)) {
            Ok(x) => x,
            Err(e) => return Err(e),
        };
        if value.len() == 0 {
            return Err(Error::MissingArguments(len, 1));
        }
        assert(value@ == whole.subrange(2, len as int));
        let cv = match C::from_js(ctx, value.remove(0)) {
            Ok(x) => x,
            Err(e) => return Err(e),
        };
        if value.len() == 0 {
            return Err(Error::MissingArguments(len, 1));
        }
        assert(value@ == whole.subrange(3, len as int));
        let dv = match D::from_js(ctx, value.remove(0)) {
            Ok(x) => x,
            Err(e) => return Err(e),
        };
        if value.len() == 0 {
            return Err(Error::MissingArguments(len, 1));
        }
        assert(value@ == whole.subrange(4, len as int));
        let ev = match E::from_js(ctx, value.remove(0)) {
            Ok(x) => x,
            Err(e) => return Err(e),
        };
        if value.len() == 0 {
            return Err(Error::MissingArguments(len, 1));
        }
        assert(value@ == whole.subrange(5, len as int));
        let fv = match F::from_js(ctx, value.remove(0)) {
            Ok(x) => x,
            Err(e) => return Err(e),
        };
        Ok((av, bv, cv, dv, ev, fv))
    }
}

impl<A: FromJs, B: FromJs, C: FromJs, D: FromJs, E: FromJs, F: FromJs, G: FromJs> FromJsMulti for (A, B, C, D, E, F, G) {
    open spec fn spec_multi_error(values: Seq<Value>) -> Option<Error> {
        let missing = Some(Error::MissingArguments(values.len() as usize, 1));
        if values.len() == 0 {
            missing
        } else if A::spec_from_js(values[0]) is Err {
            error_of(A::spec_from_js(values[0]))
        } else if values.len() == 1 {
            missing
        } else if B::spec_from_js(values[1]) is Err {
            error_of(B::spec_from_js(values[1]))
        } else if values.len() == 2 {
            missing
        } else if C::spec_from_js(values[2]) is Err {
            error_of(C::spec_from_js(values[2]))
        } else if values.len() == 3 {
            missing
        } else if D::spec_from_js(values[3]) is Err {
            error_of(D::spec_from_js(values[3]))
        } else if values.len() == 4 {
            missing
        } else if E::spec_from_js(values[4]) is Err {
            error_of(E::spec_from_js(values[4]))
        } else if values.len() == 5 {
            missing
        } else if F::spec_from_js(values[5]) is Err {
            error_of(F::spec_from_js(values[5]))
        } else if values.len() == 6 {
            missing
        } else if G::spec_from_js(values[6]) is Err {
            error_of(G::spec_from_js(values[6]))
        } else {
            None
        }
    }

    open spec fn spec_multi_value(values: Seq<Value>, v: (A, B, C, D, E, F, G)) -> bool {
        A::spec_from_js(values[0]) == Ok::<A, Error>(v.0)
            && B::spec_from_js(values[1]) == Ok::<B, Error>(v.1)
            && C::spec_from_js(values[2]) == Ok::<C, Error>(v.2)
            && D::spec_from_js(values[3]) == Ok::<D, Error>(v.3)
            && E::spec_from_js(values[4]) == Ok::<E, Error>(v.4)
            && F::spec_from_js(values[5]) == Ok::<F, Error>(v.5)
            && G::spec_from_js(values[6]) == Ok::<G, Error>(v.6)
    }

    fn from_js_multi(ctx: Ctx, value: Vec<Value>) -> (r: Result<(A, B, C, D, E, F, G), Error>) {
        let ghost whole = value@;
        let len = value.len();
        let mut value = value;
        if value.len() == 0 {
            return Err(Error::MissingArguments(len, 1));
        }
        assert(value@ == whole.subrange(0, len as int));
        let av = match A::from_js(ctx, value.remove(0)) {
            Ok(x) => x,
            Err(e) => return Err(e),
        };
        if value.len() == 0 {
            return Err(Error::MissingArguments(len, 1));
        }
        assert(value@ == whole.subrange(1, len as int));
        let bv = match B::from_js(ctx, value.remove(0)) {
            Ok(x) => x,
            Err(e) => return Err(e),
        };
        if value.len() == 0 {
            return Err(Error::MissingArguments(len, 1));
        }
        assert(value@ == whole.subrange(2, len as int));
        let cv = match C::from_js(ctx, value.remove(0)) {
            Ok(x) => x,
            Err(e) => return Err(e),
        };
        if value.len() == 0 {
            return Err(Error::MissingArguments(len, 1));
        }
        assert(value@ == whole.subrange(3, len as int));
        let dv = match D::from_js(ctx, value.remove(0)) {
            Ok(x) => x,
            Err(e) => return Err(e),
        };
        if value.len() == 0 {
            return Err(Error::MissingArguments(len, 1));
        }
        assert(value@ == whole.subrange(4, len as int));
        let ev = match E::from_js(ctx, value.remove(0)) {
            Ok(x) => x,
            Err(e) => return Err(e),
        };
        if value.len() == 0 {
            return Err(Error::MissingArguments(len, 1));
        }
        assert(value@ == whole.subrange(5, len as int));
        let fv = match F::from_js(ctx, value.remove(0)) {
            Ok(x) => x,
            Err(e) => return Err(e),
        };
        if value.len() == 0 {
            return Err(Error::MissingArguments(len, 1));
        }
        assert(value@ == whole.subrange(6, len as int));
        let gv = match G::from_js(ctx, value.remove(0)) {
            Ok(x) => x,
            Err(e) => return Err(e),
        };
        Ok((av, bv, cv, dv, ev, fv, gv))
    }
}

impl<A: FromJs, B: FromJs, C: FromJs, D: FromJs, E: FromJs, F: FromJs, G: FromJs, H: FromJs> FromJsMulti for (A, B, C, D, E, F, G, H) {
    open spec fn spec_multi_error(values: Seq<Value>) -> Option<Error> {
        let missing = Some(Error::MissingArguments(values.len() as usize, 1));
        if values.len() == 0 {
            missing
        } else if A::spec_from_js(values[0]) is Err {
            error_of(A::spec_from_js(values[0]))
        } else if values.len() == 1 {
            missing
        } else if B::spec_from_js(values[1]) is Err {
            error_of(B::spec_from_js(values[1]))
        } else if values.len() == 2 {
            missing
        } else if C::spec_from_js(values[2]) is Err {
            error_of(C::spec_from_js(values[2]))
        } else if values.len() == 3 {
            missing
        } else if D::spec_from_js(values[3]) is Err {
            error_of(D::spec_from_js(values[3]))
        } else if values.len() == 4 {
            missing
        } else if E::spec_from_js(values[4]) is Err {
            error_of(E::spec_from_js(values[4]))
        } else if values.len() == 5 {
            missing
        } else if F::spec_from_js(values[5]) is Err {
            error_of(F::spec_from_js(values[5]))
        } else if values.len() == 6 {
            missing
        } else if G::spec_from_js(values[6]) is Err {
            error_of(G::spec_from_js(values[6]))
        } else if values.len() == 7 {
            missing
        } else if H::spec_from_js(values[7]) is Err {
            error_of(H::spec_from_js(values[7]))
        } else {
            None
        }
    }

    open spec fn spec_multi_value(values: Seq<Value>, v: (A, B, C, D, E, F, G, H)) -> bool {
        A::spec_from_js(values[0]) == Ok::<A, Error>(v.0)
            && B::spec_from_js(values[1]) == Ok::<B, Error>(v.1)
            && C::spec_from_js(values[2]) == Ok::<C, Error>(v.2)
            && D::spec_from_js(values[3]) == Ok::<D, Error>(v.3)
            && E::spec_from_js(values[4]) == Ok::<E, Error>(v.4)
            && F::spec_from_js(values[5]) == Ok::<F, Error>(v.5)
            && G::spec_from_js(values[6]) == Ok::<G, Error>(v.6)
            && H::spec_from_js(values[7]) == Ok::<H, Error>(v.7)
    }

    fn from_js_multi(ctx: Ctx, value: Vec<Value>) -> (r: Result<(A, B, C, D, E, F, G, H), Error>) {
        let ghost whole = value@;
        let len = value.len();
        let mut value = value;
        if value.len() == 0 {
            return Err(Error::MissingArguments(len, 1));
        }
        assert(value@ == whole.subrange(0, len as int));
        let av = match A::from_js(ctx, value.remove(0)) {
            Ok(x) => x,
            Err(e) => return Err(e),
        };
        if value.len() == 0 {
            return Err(Error::MissingArguments(len, 1));
        }
        assert(value@ == whole.subrange(1, len as int));
        let bv = match B::from_js(ctx, value.remove(0)) {
            Ok(x) => x,
            Err(e) => return Err(e),
        };
        if value.len() == 0 {
            return Err(Error::MissingArguments(len, 1));
        }
        assert(value@ == whole.subrange(2, len as int));
        let cv = match C::from_js(ctx, value.remove(0)) {
            Ok(x) => x,
            Err(e) => return Err(e),
        };
        if value.len() == 0 {
            return Err(Error::MissingArguments(len, 1));
        }
        assert(value@ == whole.subrange(3, len as int));
        let dv = match D::from_js(ctx, value.remove(0)) {
            Ok(x) => x,
            Err(e) => return Err(e),
        };
        if value.len() == 0 {
            return Err(Error::MissingArguments(len, 1));
        }
        assert(value@ == whole.subrange(4, len as int));
        let ev = match E::from_js(ctx, value.remove(0)) {
            Ok(x) => x,
            Err(e) => return Err(e),
        };
        if value.len() == 0 {
            return Err(Error::MissingArguments(len, 1));
        }
        assert(value@ == whole.subrange(5, len as int));
        let fv = match F::from_js(ctx, value.remove(0)) {
            Ok(x) => x,
            Err(e) => return Err(e),
        };
        if value.len() == 0 {
            return Err(Error::MissingArguments(len, 1));
        }
        assert(value@ == whole.subrange(6, len as int));
        let gv = match G::from_js(ctx, value.remove(0)) {
            Ok(x) => x,
            Err(e) => return Err(e),
        };
        if value.len() == 0 {
            return Err(Error::MissingArguments(len, 1));
        }
        assert(value@ == whole.subrange(7, len as int));
        let hv = match H::from_js(ctx, value.remove(0)) {
            Ok(x) => x,
            Err(e) => return Err(e),
        };
        Ok((av, bv, cv, dv, ev, fv, gv, hv))
    }
}

impl<A: FromJs, B: FromJs, C: FromJs, D: FromJs, E: FromJs, F: FromJs, G: FromJs, H: FromJs, I: FromJs> FromJsMulti for (A, B, C, D, E, F, G, H, I) {
    open spec fn spec_multi_error(values: Seq<Value>) -> Option<Error> {
        let missing = Some(Error::MissingArguments(values.len() as usize, 1));
        if values.len() == 0 {
            missing
        } else if A::spec_from_js(values[0]) is Err {
            error_of(A::spec_from_js(values[0]))
        } else if values.len() == 1 {
            missing
        } else if B::spec_from_js(values[1]) is Err {
            error_of(B::spec_from_js(values[1]))
        } else if values.len() == 2 {
            missing
        } else if C::spec_from_js(values[2]) is Err {
            error_of(C::spec_from_js(values[2]))
        } else if values.len() == 3 {
            missing
        } else if D::spec_from_js(values[3]) is Err {
            error_of(D::spec_from_js(values[3]))
        } else if values.len() == 4 {
            missing
        } else if E::spec_from_js(values[4]) is Err {
            error_of(E::spec_from_js(values[4]))
        } else if values.len() == 5 {
            missing
        } else if F::spec_from_js(values[5]) is Err {
            error_of(F::spec_from_js(values[5]))
        } else if values.len() == 6 {
            missing
        } else if G::spec_from_js(values[6]) is Err {
            error_of(G::spec_from_js(values[6]))
        } else if values.len() == 7 {
            missing
        } else if H::spec_from_js(values[7]) is Err {
            error_of(H::spec_from_js(values[7]))
        } else if values.len() == 8 {
            missing
        } else if I::spec_from_js(values[8]) is Err {
            error_of(I::spec_from_js(values[8]))
        } else {
            None
        }
    }

    open spec fn spec_multi_value(values: Seq<Value>, v: (A, B, C, D, E, F, G, H, I)) -> bool {
        A::spec_from_js(values[0]) == Ok::<A, Error>(v.0)
            && B::spec_from_js(values[1]) == Ok::<B, Error>(v.1)
            && C::spec_from_js(values[2]) == Ok::<C, Error>(v.2)
            && D::spec_from_js(values[3]) == Ok::<D, Error>(v.3)
            && E::spec_from_js(values[4]) == Ok::<E, Error>(v.4)
            && F::spec_from_js(values[5]) == Ok::<F, Error>(v.5)
            && G::spec_from_js(values[6]) == Ok::<G, Error>(v.6)
            && H::spec_from_js(values[7]) == Ok::<H, Error>(v.7)
            && I::spec_from_js(values[8]) == Ok::<I, Error>(v.8)
    }

    fn from_js_multi(ctx: Ctx, value: Vec<Value>) -> (r: Result<(A, B, C, D, E, F, G, H, I), Error>) {
        let ghost whole = value@;
        let len = value.len();
        let mut value = value;
        if value.len() == 0 {
            return Err(Error::MissingArguments(len, 1));
        }
        assert(value@ == whole.subrange(0, len as int));
        let av = match A::from_js(ctx, value.remove(0)) {
            Ok(x) => x,
            Err(e) => return Err(e),
        };
        if value.len() == 0 {
            return Err(Error::MissingArguments(len, 1));
        }
        assert(value@ == whole.subrange(1, len as int));
        let bv = match B::from_js(ctx, value.remove(0)) {
            Ok(x) => x,
            Err(e) => return Err(e),
        };
        if value.len() == 0 {
            return Err(Error::MissingArguments(len, 1));
        }
        assert(value@ == whole.subrange(2, len as int));
        let cv = match C::from_js(ctx, value.remove(0)) {
            Ok(x) => x,
            Err(e) => return Err(e),
        };
        if value.len() == 0 {
            return Err(Error::MissingArguments(len, 1));
        }
        assert(value@ == whole.subrange(3, len as int));
        let dv = match D::from_js(ctx, value.remove(0)) {
            Ok(x) => x,
            Err(e) => return Err(e),
        };
        if value.len() == 0 {
            return Err(Error::MissingArguments(len, 1));
        }
        assert(value@ == whole.subrange(4, len as int));
        let ev = match E::from_js(ctx, value.remove(0)) {
            Ok(x) => x,
            Err(e) => return Err(e),
        };
        if value.len() == 0 {
            return Err(Error::MissingArguments(len, 1));
        }
        assert(value@ == whole.subrange(5, len as int));
        let fv = match F::from_js(ctx, value.remove(0)) {
            Ok(x) => x,
            Err(e) => return Err(e),
        };
        if value.len() == 0 {
            return Err(Error::MissingArguments(len, 1));
        }
        assert(value@ == whole.subrange(6, len as int));
        let gv = match G::from_js(ctx, value.remove(0)) {
            Ok(x) => x,
            Err(e) => return Err(e),
        };
        if value.len() == 0 {
            return Err(Error::MissingArguments(len, 1));
        }
        assert(value@ == whole.subrange(7, len as int));
        let hv = match H::from_js(ctx, value.remove(0)) {
            Ok(x) => x,
            Err(e) => return Err(e),
        };
        if value.len() == 0 {
            return Err(Error::MissingArguments(len, 1));
        }
        assert(value@ == whole.subrange(8, len as int));
        let iv = match I::from_js(ctx, value.remove(0)) {
            Ok(x) => x,
            Err(e) => return Err(e),
        };
        Ok((av, bv, cv, dv, ev, fv, gv, hv, iv))
    }
}

impl<A: FromJs, B: FromJs, C: FromJs, D: FromJs, E: FromJs, F: FromJs, G: FromJs, H: FromJs, I: FromJs, J: FromJs> FromJsMulti for (A, B, C, D, E, F, G, H, I, J) {
    open spec fn spec_multi_error(values: Seq<Value>) -> Option<Error> {
        let missing = Some(Error::MissingArguments(values.len() as usize, 1));
        if values.len() == 0 {
            missing
        } else if A::spec_from_js(values[0]) is Err {
            error_of(A::spec_from_js(values[0]))
        } else if values.len() == 1 {
            missing
        } else if B::spec_from_js(values[1]) is Err {
            error_of(B::spec_from_js(values[1]))
        } else if values.len() == 2 {
            missing
        } else if C::spec_from_js(values[2]) is Err {
            error_of(C::spec_from_js(values[2]))
        } else if values.len() == 3 {
            missing
        } else if D::spec_from_js(values[3]) is Err {
            error_of(D::spec_from_js(values[3]))
        } else if values.len() == 4 {
            missing
        } else if E::spec_from_js(values[4]) is Err {
            error_of(E::spec_from_js(values[4]))
        } else if values.len() == 5 {
            missing
        } else if F::spec_from_js(values[5]) is Err {
            error_of(F::spec_from_js(values[5]))
        } else if values.len() == 6 {
            missing
        } else if G::spec_from_js(values[6]) is Err {
            error_of(G::spec_from_js(values[6]))
        } else if values.len() == 7 {
            missing
        } else if H::spec_from_js(values[7]) is Err {
            error_of(H::spec_from_js(values[7]))
        } else if values.len() == 8 {
            missing
        } else if I::spec_from_js(values[8]) is Err {
            error_of(I::spec_from_js(values[8]))
        } else if values.len() == 9 {
            missing
        } else if J::spec_from_js(values[9]) is Err {
            error_of(J::spec_from_js(values[9]))
        } else {
            None
        }
    }

    open spec fn spec_multi_value(values: Seq<Value>, v: (A, B, C, D, E, F, G, H, I, J)) -> bool {
        A::spec_from_js(values[0]) == Ok::<A, Error>(v.0)
            && B::spec_from_js(values[1]) == Ok::<B, Error>(v.1)
            && C::spec_from_js(values[2]) == Ok::<C, Error>(v.2)
            && D::spec_from_js(values[3]) == Ok::<D, Error>(v.3)
            && E::spec_from_js(values[4]) == Ok::<E, Error>(v.4)
            && F::spec_from_js(values[5]) == Ok::<F, Error>(v.5)
            && G::spec_from_js(values[6]) == Ok::<G, Error>(v.6)
            && H::spec_from_js(values[7]) == Ok::<H, Error>(v.7)
            && I::spec_from_js(values[8]) == Ok::<I, Error>(v.8)
            && J::spec_from_js(values[9]) == Ok::<J, Error>(v.9)
    }

    fn from_js_multi(ctx: Ctx, value: Vec<Value>) -> (r: Result<(A, B, C, D, E, F, G, H, I, J), Error>) {
        let ghost whole = value@;
        let len = value.len();
        let mut value = value;
        if value.len() == 0 {
            return Err(Error::MissingArguments(len, 1));
        }
        assert(value@ == whole.subrange(0, len as int));
        let av = match A::from_js(ctx, value.remove(0)) {
            Ok(x) => x,
            Err(e) => return Err(e),
        };
        if value.len() == 0 {
            return Err(Error::MissingArguments(len, 1));
        }
        assert(value@ == whole.subrange(1, len as int));
        let bv = match B::from_js(ctx, value.remove(0)) {
            Ok(x) => x,
            Err(e) => return Err(e),
        };
        if value.len() == 0 {
            return Err(Error::MissingArguments(len, 1));
        }
        assert(value@ == whole.subrange(2, len as int));
        let cv = match C::from_js(ctx, value.remove(0)) {
            Ok(x) => x,
            Err(e) => return Err(e),
        };
        if value.len() == 0 {
            return Err(Error::MissingArguments(len, 1));
        }
        assert(value@ == whole.subrange(3, len as int));
        let dv = match D::from_js(ctx, value.remove(0)) {
            Ok(x) => x,
            Err(e) => return Err(e),
        };
        if value.len() == 0 {
            return Err(Error::MissingArguments(len, 1));
        }
        assert(value@ == whole.subrange(4, len as int));
        let ev = match E::from_js(ctx, value.remove(0)) {
            Ok(x) => x,
            Err(e) => return Err(e),
        };
        if value.len() == 0 {
            return Err(Error::MissingArguments(len, 1));
        }
        assert(value@ == whole.subrange(5, len as int));
        let fv = match F::from_js(ctx, value.remove(0)) {
            Ok(x) => x,
            Err(e) => return Err(e),
        };
        if value.len() == 0 {
            return Err(Error::MissingArguments(len, 1));
        }
        assert(value@ == whole.subrange(6, len as int));
        let gv = match G::from_js(ctx, value.remove(0)) {
            Ok(x) => x,
            Err(e) => return Err(e),
        };
        if value.len() == 0 {
            return Err(Error::MissingArguments(len, 1));
        }
        assert(value@ == whole.subrange(7, len as int));
        let hv = match H::from_js(ctx, value.remove(0)) {
            Ok(x) => x,
            Err(e) => return Err(e),
        };
        if value.len() == 0 {
            return Err(Error::MissingArguments(len, 1));
        }
        assert(value@ == whole.subrange(8, len as int));
        let iv = match I::from_js(ctx, value.remove(0)) {
            Ok(x) => x,
            Err(e) => return Err(e),
        };
        if value.len() == 0 {
            return Err(Error::MissingArguments(len, 1));
        }
        assert(value@ == whole.subrange(9, len as int));
        let jv = match J::from_js(ctx, value.remove(0)) {
            Ok(x) => x,
            Err(e) => return Err(e),
        };
        Ok((av, bv, cv, dv, ev, fv, gv, hv, iv, jv))
    }
}

impl<A: FromJs, B: FromJs, C: FromJs, D: FromJs, E: FromJs, F: FromJs, G: FromJs, H: FromJs, I: FromJs, J: FromJs, K: FromJs> FromJsMulti for (A, B, C, D, E, F, G, H, I, J, K) {
    open spec fn spec_multi_error(values: Seq<Value>) -> Option<Error> {
        let missing = Some(Error::MissingArguments(values.len() as usize, 1));
        if values.len() == 0 {
            missing
        } else if A::spec_from_js(values[0]) is Err {
            error_of(A::spec_from_js(values[0]))
        } else if values.len() == 1 {
            missing
        } else if B::spec_from_js(values[1]) is Err {
            error_of(B::spec_from_js(values[1]))
        } else if values.len() == 2 {
            missing
        } else if C::spec_from_js(values[2]) is Err {
            error_of(C::spec_from_js(values[2]))
        } else if values.len() == 3 {
            missing
        } else if D::spec_from_js(values[3]) is Err {
            error_of(D::spec_from_js(values[3]))
        } else if values.len() == 4 {
            missing
        } else if E::spec_from_js(values[4]) is Err {
            error_of(E::spec_from_js(values[4]))
        } else if values.len() == 5 {
            missing
        } else if F::spec_from_js(values[5]) is Err {
            error_of(F::spec_from_js(values[5]))
        } else if values.len() == 6 {
            missing
        } else if G::spec_from_js(values[6]) is Err {
            error_of(G::spec_from_js(values[6]))
        } else if values.len() == 7 {
            missing
        } else if H::spec_from_js(values[7]) is Err {
            error_of(H::spec_from_js(values[7]))
        } else if values.len() == 8 {
            missing
        } else if I::spec_from_js(values[8]) is Err {
            error_of(I::spec_from_js(values[8]))
        } else if values.len() == 9 {
            missing
        } else if J::spec_from_js(values[9]) is Err {
            error_of(J::spec_from_js(values[9]))
        } else if values.len() == 10 {
            missing
        } else if K::spec_from_js(values[10]) is Err {
            error_of(K::spec_from_js(values[10]))
        } else {
            None
        }
    }

    open spec fn spec_multi_value(values: Seq<Value>, v: (A, B, C, D, E, F, G, H, I, J, K)) -> bool {
        A::spec_from_js(values[0]) == Ok::<A, Error>(v.0)
            && B::spec_from_js(values[1]) == Ok::<B, Error>(v.1)
            && C::spec_from_js(values[2]) == Ok::<C, Error>(v.2)
            && D::spec_from_js(values[3]) == Ok::<D, Error>(v.3)
            && E::spec_from_js(values[4]) == Ok::<E, Error>(v.4)
            && F::spec_from_js(values[5]) == Ok::<F, Error>(v.5)
            && G::spec_from_js(values[6]) == Ok::<G, Error>(v.6)
            && H::spec_from_js(values[7]) == Ok::<H, Error>(v.7)
            && I::spec_from_js(values[8]) == Ok::<I, Error>(v.8)
            && J::spec_from_js(values[9]) == Ok::<J, Error>(v.9)
            && K::spec_from_js(values[10]) == Ok::<K, Error>(v.10)
    }

    fn from_js_multi(ctx: Ctx, value: Vec<Value>) -> (r: Result<(A, B, C, D, E, F, G, H, I, J, K), Error>) {
        let ghost whole = value@;
        let len = value.len();
        let mut value = value;
        if value.len() == 0 {
            return Err(Error::MissingArguments(len, 1));
        }
        assert(value@ == whole.subrange(0, len as int));
        let av = match A::from_js(ctx, value.remove(0)) {
            Ok(x) => x,
            Err(e) => return Err(e),
        };
        if value.len() == 0 {
            return Err(Error::MissingArguments(len, 1));
        }
        assert(value@ == whole.subrange(1, len as int));
        let bv = match B::from_js(ctx, value.remove(0)) {
            Ok(x) => x,
            Err(e) => return Err(e),
        };
        if value.len() == 0 {
            return Err(Error::MissingArguments(len, 1));
        }
        assert(value@ == whole.subrange(2, len as int));
        let cv = match C::from_js(ctx, value.remove(0)) {
            Ok(x) => x,
            Err(e) => return Err(e),
        };
        if value.len() == 0 {
            return Err(Error::MissingArguments(len, 1));
        }
        assert(value@ == whole.subrange(3, len as int));
        let dv = match D::from_js(ctx, value.remove(0)) {
            Ok(x) => x,
            Err(e) => return Err(e),
        };
        if value.len() == 0 {
            return Err(Error::MissingArguments(len, 1));
        }
        assert(value@ == whole.subrange(4, len as int));
        let ev = match E::from_js(ctx, value.remove(0)) {
            Ok(x) => x,
            Err(e) => return Err(e),
        };
        if value.len() == 0 {
            return Err(Error::MissingArguments(len, 1));
        }
        assert(value@ == whole.subrange(5, len as int));
        let fv = match F::from_js(ctx, value.remove(0)) {
            Ok(x) => x,
            Err(e) => return Err(e),
        };
        if value.len() == 0 {
            return Err(Error::MissingArguments(len, 1));
        }
        assert(value@ == whole.subrange(6, len as int));
        let gv = match G::from_js(ctx, value.remove(0)) {
            Ok(x) => x,
            Err(e) => return Err(e),
        };
        if value.len() == 0 {
            return Err(Error::MissingArguments(len, 1));
        }
        assert(value@ == whole.subrange(7, len as int));
        let hv = match H::from_js(ctx, value.remove(0)) {
            Ok(x) => x,
            Err(e) => return Err(e),
        };
        if value.len() == 0 {
            return Err(Error::MissingArguments(len, 1));
        }
        assert(value@ == whole.subrange(8, len as int));
        let iv = match I::from_js(ctx, value.remove(0)) {
            Ok(x) => x,
            Err(e) => return Err(e),
        };
        if value.len() == 0 {
            return Err(Error::MissingArguments(len, 1));
        }
        assert(value@ == whole.subrange(9, len as int));
        let jv = match J::from_js(ctx, value.remove(0)) {
            Ok(x) => x,
            Err(e) => return Err(e),
        };
        if value.len() == 0 {
            return Err(Error::MissingArguments(len, 1));
        }
        assert(value@ == whole.subrange(10, len as int));
        let kv = match K::from_js(ctx, value.remove(0)) {
            Ok(x) => x,
            Err(e) => return Err(e),
        };
        Ok((av, bv, cv, dv, ev, fv, gv, hv, iv, jv, kv))
    }
}

} // verus!
