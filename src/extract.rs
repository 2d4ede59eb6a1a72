use crate::error::Error;
use crate::params::{CallView, ParamsAccessor};
use crate::requirement::{combined, ParamReq, ReqView};
use crate::value::{FromJs, Value};
use vstd::prelude::*;

verus! {

/// A position bound to an optional argument: present where one is left.
#[derive(Debug, PartialEq, Eq)]
pub struct Opt<T>(pub Option<T>);

/// A position bound to the value the call was made on.
#[derive(Debug, PartialEq, Eq)]
pub struct This<T>(pub T);

/// A position bound to the value that was called.
#[derive(Debug, PartialEq, Eq)]
pub struct Func<T>(pub T);

/// A position that takes every argument that is left.
#[derive(Debug, PartialEq, Eq)]
pub struct Rest<T>(pub Vec<T>);

/// A position that stands for a nested tuple of positions, sharing the cursor.
#[derive(Debug, PartialEq, Eq)]
pub struct Flat<T>(pub T);

/// A position that takes nothing and makes the signature exhaustive.
#[derive(Debug, PartialEq, Eq)]
pub struct Exhaustive;

/// The error of a result, if it is one.
pub open spec fn error_of<T>(r: Result<T, Error>) -> Option<Error> {
    match r {
        Ok(_) => None,
        Err(e) => Some(e),
    }
}

/// The first index from `i` on whose argument does not convert to `T`.
pub open spec fn first_failure<T: FromJs>(args: Seq<Value>, i: nat) -> Option<nat>
    decreases args.len() - i,
{
    if i >= args.len() {
        None
    } else if T::spec_from_js(args[i as int]) is Err {
        Some(i)
    } else {
        first_failure::<T>(args, i + 1)
    }
}

/// Where `first_failure` finds an index, it is one from `i` on whose
/// argument does not convert.
pub proof fn lemma_first_failure<T: FromJs>(args: Seq<Value>, i: nat)
    ensures
        first_failure::<T>(args, i) matches Some(j) ==> i <= j < args.len()
            && T::spec_from_js(args[j as int]) is Err,
    decreases args.len() - i,
{
    if i < args.len() && T::spec_from_js(args[i as int]) is Ok {
        lemma_first_failure::<T>(args, i + 1);
    }
}

/// One position of a signature: how many arguments it needs, and how it
/// takes its value from a cursor. Extraction at an offset ends at
/// `spec_end`, fails with `spec_error` where that is some error, and
/// otherwise gives a value of which `spec_value` holds.
pub trait FromParam: Sized {
    /// The requirement of this position.
    spec fn spec_required() -> ReqView;

    /// Whether extraction at `offset` stays within the arguments.
    spec fn spec_fits(call: CallView, offset: nat) -> bool;

    /// The offset after extraction at `offset`.
    spec fn spec_end(call: CallView, offset: nat) -> nat;

    /// The error of extraction at `offset`, if it fails.
    spec fn spec_error(call: CallView, offset: nat) -> Option<Error>;

    /// What a value extracted at `offset` is.
    spec fn spec_value(call: CallView, offset: nat, v: Self) -> bool;

    fn params_required() -> (r: ParamReq)
        ensures
            r@ == Self::spec_required(),
    ;

    fn from_param(params: &mut ParamsAccessor) -> (r: Result<Self, Error>)
        requires
            Self::spec_fits(old(params).snapshot(), old(params).offset()),
        ensures
            final(params).snapshot() == old(params).snapshot(),
            final(params).offset() == Self::spec_end(old(params).snapshot(), old(params).offset()),
            match r {
                Ok(v) => Self::spec_error(old(params).snapshot(), old(params).offset()) is None
                    && Self::spec_value(old(params).snapshot(), old(params).offset(), v),
                Err(e) => Self::spec_error(old(params).snapshot(), old(params).offset()) == Some(e),
            },
    ;
}

/// A whole signature, a tuple of positions, taken in order from one cursor;
/// the first failure ends the extraction.
pub trait FromParams: Sized {
    /// The requirement of the whole signature.
    spec fn spec_requirements() -> ReqView;

    /// Whether extraction at `offset` stays within the arguments.
    spec fn spec_fits_all(call: CallView, offset: nat) -> bool;

    /// The offset after extraction at `offset`.
    spec fn spec_end_all(call: CallView, offset: nat) -> nat;

    /// The error of extraction at `offset`, if it fails.
    spec fn spec_error_all(call: CallView, offset: nat) -> Option<Error>;

    /// What a tuple extracted at `offset` is.
    spec fn spec_value_all(call: CallView, offset: nat, v: Self) -> bool;

    fn params_requirements() -> (r: ParamReq)
        ensures
            r@ == Self::spec_requirements(),
    ;

    fn from_params(params: &mut ParamsAccessor) -> (r: Result<Self, Error>)
        requires
            Self::spec_fits_all(old(params).snapshot(), old(params).offset()),
        ensures
            final(params).snapshot() == old(params).snapshot(),
            final(params).offset() == Self::spec_end_all(old(params).snapshot(), old(params).offset()),
            match r {
                Ok(v) => Self::spec_error_all(old(params).snapshot(), old(params).offset()) is None
                    && Self::spec_value_all(old(params).snapshot(), old(params).offset(), v),
                Err(e) => Self::spec_error_all(old(params).snapshot(), old(params).offset()) == Some(e),
            },
    ;
}

impl<T: FromJs> FromParam for T {
    open spec fn spec_required() -> ReqView {
        ReqView { min: 1, max: 1, exhaustive: false }
    }

    open spec fn spec_fits(call: CallView, offset: nat) -> bool {
        offset < call.args.len()
    }

    open spec fn spec_end(call: CallView, offset: nat) -> nat {
        offset + 1
    }

    open spec fn spec_error(call: CallView, offset: nat) -> Option<Error> {
        error_of(T::spec_from_js(call.args[offset as int]))
    }

    open spec fn spec_value(call: CallView, offset: nat, v: T) -> bool {
        T::spec_from_js(call.args[offset as int]) == Ok::<T, Error>(v)
    }

    fn params_required() -> (r: ParamReq) {
        ParamReq::single()
    }

    fn from_param(params: &mut ParamsAccessor) -> (r: Result<T, Error>) {
        let v = params.arg();
        T::from_js(params.ctx(), v)
    }
}

impl<T: FromJs> FromParam for Opt<T> {
    open spec fn spec_required() -> ReqView {
        ReqView { min: 0, max: 1, exhaustive: false }
    }

    open spec fn spec_fits(call: CallView, offset: nat) -> bool {
        true
    }

    open spec fn spec_end(call: CallView, offset: nat) -> nat {
        if offset < call.args.len() {
            offset + 1
        } else {
            offset
        }
    }

    open spec fn spec_error(call: CallView, offset: nat) -> Option<Error> {
        if offset < call.args.len() {
            error_of(T::spec_from_js(call.args[offset as int]))
        } else {
            None
        }
    }

    open spec fn spec_value(call: CallView, offset: nat, v: Opt<T>) -> bool {
        if offset < call.args.len() {
            v.0 is Some && T::spec_from_js(call.args[offset as int]) == Ok::<T, Error>(v.0->Some_0)
        } else {
            v.0 is None
        }
    }

    fn params_required() -> (r: ParamReq) {
        ParamReq::optional()
    }

    fn from_param(params: &mut ParamsAccessor) -> (r: Result<Opt<T>, Error>) {
        if !params.is_empty() {
            let v = params.arg();
            match T::from_js(params.ctx(), v) {
                Ok(x) => Ok(Opt(Some(x))),
                Err(e) => Err(e),
            }
        } else {
            Ok(Opt(None))
        }
    }
}

impl<T: FromJs> FromParam for This<T> {
    open spec fn spec_required() -> ReqView {
        ReqView { min: 0, max: usize::MAX as nat, exhaustive: false }
    }

    open spec fn spec_fits(call: CallView, offset: nat) -> bool {
        true
    }

    open spec fn spec_end(call: CallView, offset: nat) -> nat {
        offset
    }

    open spec fn spec_error(call: CallView, offset: nat) -> Option<Error> {
        error_of(T::spec_from_js(call.this))
    }

    open spec fn spec_value(call: CallView, offset: nat, v: This<T>) -> bool {
        T::spec_from_js(call.this) == Ok::<T, Error>(v.0)
    }

    fn params_required() -> (r: ParamReq) {
        ParamReq::any()
    }

    fn from_param(params: &mut ParamsAccessor) -> (r: Result<This<T>, Error>) {
        match T::from_js(params.ctx(), params.this()) {
            Ok(x) => Ok(This(x)),
            Err(e) => Err(e),
        }
    }
}

impl<T: FromJs> FromParam for Func<T> {
    open spec fn spec_required() -> ReqView {
        ReqView { min: 0, max: usize::MAX as nat, exhaustive: false }
    }

    open spec fn spec_fits(call: CallView, offset: nat) -> bool {
        true
    }

    open spec fn spec_end(call: CallView, offset: nat) -> nat {
        offset
    }

    open spec fn spec_error(call: CallView, offset: nat) -> Option<Error> {
        error_of(T::spec_from_js(call.function))
    }

    open spec fn spec_value(call: CallView, offset: nat, v: Func<T>) -> bool {
        T::spec_from_js(call.function) == Ok::<T, Error>(v.0)
    }

    fn params_required() -> (r: ParamReq) {
        ParamReq::any()
    }

    fn from_param(params: &mut ParamsAccessor) -> (r: Result<Func<T>, Error>) {
        match T::from_js(params.ctx(), params.function()) {
            Ok(x) => Ok(Func(x)),
            Err(e) => Err(e),
        }
    }
}

impl<T: FromJs> FromParam for Rest<T> {
    open spec fn spec_required() -> ReqView {
        ReqView { min: 0, max: usize::MAX as nat, exhaustive: false }
    }

    open spec fn spec_fits(call: CallView, offset: nat) -> bool {
        true
    }

    open spec fn spec_end(call: CallView, offset: nat) -> nat {
        match first_failure::<T>(call.args, offset) {
            Some(i) => i + 1,
            None => call.args.len(),
        }
    }

    open spec fn spec_error(call: CallView, offset: nat) -> Option<Error> {
        match first_failure::<T>(call.args, offset) {
            Some(i) => error_of(T::spec_from_js(call.args[i as int])),
            None => None,
        }
    }

    open spec fn spec_value(call: CallView, offset: nat, v: Rest<T>) -> bool {
        &&& v.0@.len() == call.args.len() - offset
        &&& forall|k: int|
            0 <= k < v.0@.len() ==> T::spec_from_js(#[trigger] call.args[offset + k])
                == Ok::<T, Error>(v.0@[k])
    }

    fn params_required() -> (r: ParamReq) {
        ParamReq::any()
    }

    fn from_param(params: &mut ParamsAccessor) -> (r: Result<Rest<T>, Error>) {
        let ghost call = params.snapshot();
        let ghost start = params.offset();
        let n = params.len();
        let mut res: Vec<T> = Vec::new();
        let mut i: usize = 0;
        while i < n
            invariant
                params.snapshot() == call,
                call == old(params).snapshot(),
                start == old(params).offset(),
                start + n == call.args.len(),
                params.offset() == start + i,
                i <= n,
                first_failure::<T>(call.args, start) == first_failure::<T>(call.args, (start + i) as nat),
                res@.len() == i,
                forall|k: int|
                    0 <= k < i ==> T::spec_from_js(#[trigger] call.args[start + k])
                        == Ok::<T, Error>(res@[k]),
            decreases n - i,
        {
            let p = params.arg();
            match T::from_js(params.ctx(), p) {
                Ok(x) => {
                    res.push(x);
                },
                Err(e) => {
                    return Err(e);
                },
            }
            i = i + 1;
        }
        Ok(Rest(res))
    }
}

impl<T: FromParams> FromParam for Flat<T> {
    open spec fn spec_required() -> ReqView {
        T::spec_requirements()
    }

    open spec fn spec_fits(call: CallView, offset: nat) -> bool {
        T::spec_fits_all(call, offset)
    }

    open spec fn spec_end(call: CallView, offset: nat) -> nat {
        T::spec_end_all(call, offset)
    }

    open spec fn spec_error(call: CallView, offset: nat) -> Option<Error> {
        T::spec_error_all(call, offset)
    }

    open spec fn spec_value(call: CallView, offset: nat, v: Flat<T>) -> bool {
        T::spec_value_all(call, offset, v.0)
    }

    fn params_required() -> (r: ParamReq) {
        T::params_requirements()
    }

    fn from_param(params: &mut ParamsAccessor) -> (r: Result<Flat<T>, Error>) {
        match T::from_params(params) {
            Ok(x) => Ok(Flat(x)),
            Err(e) => Err(e),
        }
    }
}

impl FromParam for Exhaustive {
    open spec fn spec_required() -> ReqView {
        ReqView { min: 0, max: 0, exhaustive: true }
    }

    open spec fn spec_fits(call: CallView, offset: nat) -> bool {
        true
    }

    open spec fn spec_end(call: CallView, offset: nat) -> nat {
        offset
    }

    open spec fn spec_error(call: CallView, offset: nat) -> Option<Error> {
        None
    }

    open spec fn spec_value(call: CallView, offset: nat, v: Exhaustive) -> bool {
        true
    }

    fn params_required() -> (r: ParamReq) {
        ParamReq::exhaustive()
    }

    fn from_param(params: &mut ParamsAccessor) -> (r: Result<Exhaustive, Error>) {
        Ok(Exhaustive)
    }
}

impl FromParams for () {
    open spec fn spec_requirements() -> ReqView {
        let r = ReqView { min: 0, max: 0, exhaustive: false };
        r
    }

    open spec fn spec_fits_all(call: CallView, offset: nat) -> bool {
        true
    }

    open spec fn spec_end_all(call: CallView, offset: nat) -> nat {
        offset
    }

    open spec fn spec_error_all(call: CallView, offset: nat) -> Option<Error> {
        None
    }

    open spec fn spec_value_all(call: CallView, offset: nat, v: ()) -> bool {
        true
    }

    fn params_requirements() -> (r: ParamReq) {
        ParamReq::none()
    }

    fn from_params(params: &mut ParamsAccessor) -> (r: Result<(), Error>) {
        Ok(())
    }
}

impl<A: FromParam> FromParams for (A,) {
    open spec fn spec_requirements() -> ReqView {
        let r = ReqView { min: 0, max: 0, exhaustive: false };
        let r = combined(r, A::spec_required());
        r
    }

    open spec fn spec_fits_all(call: CallView, offset: nat) -> bool {
        &&& A::spec_fits(call, offset)
    }

    open spec fn spec_end_all(call: CallView, offset: nat) -> nat {
        let m1 = A::spec_end(call, offset);
        m1
    }

    open spec fn spec_error_all(call: CallView, offset: nat) -> Option<Error> {
        A::spec_error(call, offset)
    }

    open spec fn spec_value_all(call: CallView, offset: nat, v: (A,)) -> bool {
        A::spec_value(call, offset, v.0)
    }

    fn params_requirements() -> (r: ParamReq) {
        let r = ParamReq::none();
        let r = r.combine(A::params_required());
        r
    }

    fn from_params(params: &mut ParamsAccessor) -> (r: Result<(A,), Error>) {
        let av = match A::from_param(params) {
            Ok(x) => x,
            Err(e) => return Err(e),
        };
        Ok((av,))
    }
}

impl<A: FromParam, B: FromParam> FromParams for (A, B) {
    open spec fn spec_requirements() -> ReqView {
        let r = ReqView { min: 0, max: 0, exhaustive: false };
        let r = combined(r, A::spec_required());
        let r = combined(r, B::spec_required());
        r
    }

    open spec fn spec_fits_all(call: CallView, offset: nat) -> bool {
        let m1 = A::spec_end(call, offset);
        &&& A::spec_fits(call, offset)
        &&& ({
            &&& A::spec_error(call, offset) is None
        } ==> B::spec_fits(call, m1))
    }

    open spec fn spec_end_all(call: CallView, offset: nat) -> nat {
        let m1 = A::spec_end(call, offset);
        let m2 = B::spec_end(call, m1);
        if A::spec_error(call, offset) is Some {
            m1
        } else {
            m2
        }
    }

    open spec fn spec_error_all(call: CallView, offset: nat) -> Option<Error> {
        let m1 = A::spec_end(call, offset);
        if A::spec_error(call, offset) is Some {
            A::spec_error(call, offset)
        } else {
            B::spec_error(call, m1)
        }
    }

    open spec fn spec_value_all(call: CallView, offset: nat, v: (A, B)) -> bool {
        let m1 = A::spec_end(call, offset);
        A::spec_value(call, offset, v.0)
            && B::spec_value(call, m1, v.1)
    }

    fn params_requirements() -> (r: ParamReq) {
        let r = ParamReq::none();
        let r = r.combine(A::params_required());
        let r = r.combine(B::params_required());
        r
    }

    fn from_params(params: &mut ParamsAccessor) -> (r: Result<(A, B), Error>) {
        let av = match A::from_param(params) {
            Ok(x) => x,
            Err(e) => return Err(e),
        };
        let bv = match B::from_param(params) {
            Ok(x) => x,
            Err(e) => return Err(e),
        };
        Ok((av, bv))
    }
}

impl<A: FromParam, B: FromParam, C: FromParam> FromParams for (A, B, C) {
    open spec fn spec_requirements() -> ReqView {
        let r = ReqView { min: 0, max: 0, exhaustive: false };
        let r = combined(r, A::spec_required());
        let r = combined(r, B::spec_required());
        let r = combined(r, C::spec_required());
        r
    }

    open spec fn spec_fits_all(call: CallView, offset: nat) -> bool {
        let m1 = A::spec_end(call, offset);
        let m2 = B::spec_end(call, m1);
        &&& A::spec_fits(call, offset)
        &&& ({
            &&& A::spec_error(call, offset) is None
        } ==> B::spec_fits(call, m1))
        &&& ({
            &&& A::spec_error(call, offset) is None
            &&& B::spec_error(call, m1) is None
        } ==> C::spec_fits(call, m2))
    }

    open spec fn spec_end_all(call: CallView, offset: nat) -> nat {
        let m1 = A::spec_end(call, offset);
        let m2 = B::spec_end(call, m1);
        let m3 = C::spec_end(call, m2);
        if A::spec_error(call, offset) is Some {
            m1
        } else if B::spec_error(call, m1) is Some {
            m2
        } else {
            m3
        }
    }

    open spec fn spec_error_all(call: CallView, offset: nat) -> Option<Error> {
        let m1 = A::spec_end(call, offset);
        let m2 = B::spec_end(call, m1);
        if A::spec_error(call, offset) is Some {
            A::spec_error(call, offset)
        } else if B::spec_error(call, m1) is Some {
            B::spec_error(call, m1)
        } else {
            C::spec_error(call, m2)
        }
    }

    open spec fn spec_value_all(call: CallView, offset: nat, v: (A, B, C)) -> bool {
        let m1 = A::spec_end(call, offset);
        let m2 = B::spec_end(call, m1);
        A::spec_value(call, offset, v.0)
            && B::spec_value(call, m1, v.1)
            && C::spec_value(call, m2, v.2)
    }

    fn params_requirements() -> (r: ParamReq) {
        let r = ParamReq::none();
        let r = r.combine(A::params_required());
        let r = r.combine(B::params_required());
        let r = r.combine(C::params_required());
        r
    }

    fn from_params(params: &mut ParamsAccessor) -> (r: Result<(A, B, C), Error>) {
        let av = match A::from_param(params) {
            Ok(x) => x,
            Err(e) => return Err(e),
        };
        let bv = match B::from_param(params) {
            Ok(x) => x,
            Err(e) => return Err(e),
        };
        let cv = match C::from_param(params) {
            Ok(x) => x,
            Err(e) => return Err(e),
        };
        Ok((av, bv, cv))
    }
}

impl<A: FromParam, B: FromParam, C: FromParam, D: FromParam> FromParams for (A, B, C, D) {
    open spec fn spec_requirements() -> ReqView {
        let r = ReqView { min: 0, max: 0, exhaustive: false };
        let r = combined(r, A::spec_required());
        let r = combined(r, B::spec_required());
        let r = combined(r, C::spec_required());
        let r = combined(r, D::spec_required());
        r
    }

    open spec fn spec_fits_all(call: CallView, offset: nat) -> bool {
        let m1 = A::spec_end(call, offset);
        let m2 = B::spec_end(call, m1);
        let m3 = C::spec_end(call, m2);
        &&& A::spec_fits(call, offset)
        &&& ({
            &&& A::spec_error(call, offset) is None
        } ==> B::spec_fits(call, m1))
        &&& ({
            &&& A::spec_error(call, offset) is None
            &&& B::spec_error(call, m1) is None
        } ==> C::spec_fits(call, m2))
        &&& ({
            &&& A::spec_error(call, offset) is None
            &&& B::spec_error(call, m1) is None
            &&& C::spec_error(call, m2) is None
        } ==> D::spec_fits(call, m3))
    }

    open spec fn spec_end_all(call: CallView, offset: nat) -> nat {
        let m1 = A::spec_end(call, offset);
        let m2 = B::spec_end(call, m1);
        let m3 = C::spec_end(call, m2);
        let m4 = D::spec_end(call, m3);
        if A::spec_error(call, offset) is Some {
            m1
        } else if B::spec_error(call, m1) is Some {
            m2
        } else if C::spec_error(call, m2) is Some {
            m3
        } else {
            m4
        }
    }

    open spec fn spec_error_all(call: CallView, offset: nat) -> Option<Error> {
        let m1 = A::spec_end(call, offset);
        let m2 = B::spec_end(call, m1);
        let m3 = C::spec_end(call, m2);
        if A::spec_error(call, offset) is Some {
            A::spec_error(call, offset)
        } else if B::spec_error(call, m1) is Some {
            B::spec_error(call, m1)
        } else if C::spec_error(call, m2) is Some {
            C::spec_error(call, m2)
        } else {
            D::spec_error(call, m3)
        }
    }

    open spec fn spec_value_all(call: CallView, offset: nat, v: (A, B, C, D)) -> bool {
        let m1 = A::spec_end(call, offset);
        let m2 = B::spec_end(call, m1);
        let m3 = C::spec_end(call, m2);
        A::spec_value(call, offset, v.0)
            && B::spec_value(call, m1, v.1)
            && C::spec_value(call, m2, v.2)
            && D::spec_value(call, m3, v.3)
    }

    fn params_requirements() -> (r: ParamReq) {
        let r = ParamReq::none();
        let r = r.combine(A::params_required());
        let r = r.combine(B::params_required());
        let r = r.combine(C::params_required());
        let r = r.combine(D::params_required());
        r
    }

    fn from_params(params: &mut ParamsAccessor) -> (r: Result<(A, B, C, D), Error>) {
        let av = match A::from_param(params) {
            Ok(x) => x,
            Err(e) => return Err(e),
        };
        let bv = match B::from_param(params) {
            Ok(x) => x,
            Err(e) => return Err(e),
        };
        let cv = match C::from_param(params) {
            Ok(x) => x,
            Err(e) => return Err(e),
        };
        let dv = match D::from_param(params) {
            Ok(x) => x,
            Err(e) => return Err(e),
        };
        Ok((av, bv, cv, dv))
    }
}

impl<A: FromParam, B: FromParam, C: FromParam, D: FromParam, E: FromParam> FromParams for (A, B, C, D, E) {
    open spec fn spec_requirements() -> ReqView {
        let r = ReqView { min: 0, max: 0, exhaustive: false };
        let r = combined(r, A::spec_required());
        let r = combined(r, B::spec_required());
        let r = combined(r, C::spec_required());
        let r = combined(r, D::spec_required());
        let r = combined(r, E::spec_required());
        r
    }

    open spec fn spec_fits_all(call: CallView, offset: nat) -> bool {
        let m1 = A::spec_end(call, offset);
        let m2 = B::spec_end(call, m1);
        let m3 = C::spec_end(call, m2);
        let m4 = D::spec_end(call, m3);
        &&& A::spec_fits(call, offset)
        &&& ({
            &&& A::spec_error(call, offset) is None
        } ==> B::spec_fits(call, m1))
        &&& ({
            &&& A::spec_error(call, offset) is None
            &&& B::spec_error(call, m1) is None
        } ==> C::spec_fits(call, m2))
        &&& ({
            &&& A::spec_error(call, offset) is None
            &&& B::spec_error(call, m1) is None
            &&& C::spec_error(call, m2) is None
        } ==> D::spec_fits(call, m3))
        &&& ({
            &&& A::spec_error(call, offset) is None
            &&& B::spec_error(call, m1) is None
            &&& C::spec_error(call, m2) is None
            &&& D::spec_error(call, m3) is None
        } ==> E::spec_fits(call, m4))
    }

    open spec fn spec_end_all(call: CallView, offset: nat) -> nat {
        let m1 = A::spec_end(call, offset);
        let m2 = B::spec_end(call, m1);
        let m3 = C::spec_end(call, m2);
        let m4 = D::spec_end(call, m3);
        let m5 = E::spec_end(call, m4);
        if A::spec_error(call, offset) is Some {
            m1
        } else if B::spec_error(call, m1) is Some {
            m2
        } else if C::spec_error(call, m2) is Some {
            m3
        } else if D::spec_error(call, m3) is Some {
            m4
        } else {
            m5
        }
    }

    open spec fn spec_error_all(call: CallView, offset: nat) -> Option<Error> {
        let m1 = A::spec_end(call, offset);
        let m2 = B::spec_end(call, m1);
        let m3 = C::spec_end(call, m2);
        let m4 = D::spec_end(call, m3);
        if A::spec_error(call, offset) is Some {
            A::spec_error(call, offset)
        } else if B::spec_error(call, m1) is Some {
            B::spec_error(call, m1)
        } else if C::spec_error(call, m2) is Some {
            C::spec_error(call, m2)
        } else if D::spec_error(call, m3) is Some {
            D::spec_error(call, m3)
        } else {
            E::spec_error(call, m4)
        }
    }

    open spec fn spec_value_all(call: CallView, offset: nat, v: (A, B, C, D, E)) -> bool {
        let m1 = A::spec_end(call, offset);
        let m2 = B::spec_end(call, m1);
        let m3 = C::spec_end(call, m2);
        let m4 = D::spec_end(call, m3);
        A::spec_value(call, offset, v.0)
            && B::spec_value(call, m1, v.1)
            && C::spec_value(call, m2, v.2)
            && D::spec_value(call, m3, v.3)
            && E::spec_value(call, m4, v.4)
    }

    fn params_requirements() -> (r: ParamReq) {
        let r = ParamReq::none();
        let r = r.combine(A::params_required());
        let r = r.combine(B::params_required());
        let r = r.combine(C::params_required());
        let r = r.combine(D::params_required());
        let r = r.combine(E::params_required());
        r
    }

    fn from_params(params: &mut ParamsAccessor) -> (r: Result<(A, B, C, D, E), Error>) {
        let av = match A::from_param(params) {
            Ok(x) => x,
            Err(e) => return Err(e),
        };
        let bv = match B::from_param(params) {
            Ok(x) => x,
            Err(e) => return Err(e),
        };
        let cv = match C::from_param(params) {
            Ok(x) => x,
            Err(e) => return Err(e),
        };
        let dv = match D::from_param(params) {
            Ok(x) => x,
            Err(e) => return Err(e),
        };
        let ev = match E::from_param(params) {
            Ok(x) => x,
            Err(e) => return Err(e),
        };
        Ok((av, bv, cv, dv, ev))
    }
}

impl<A: FromParam, B: FromParam, C: FromParam, D: FromParam, E: FromParam, F: FromParam> FromParams for (A, B, C, D, E, F) {
    open spec fn spec_requirements() -> ReqView {
        let r = ReqView { min: 0, max: 0, exhaustive: false };
        let r = combined(r, A::spec_required());
        let r = combined(r, B::spec_required());
        let r = combined(r, C::spec_required());
        let r = combined(r, D::spec_required());
        let r = combined(r, E::spec_required());
        let r = combined(r, F::spec_required());
        r
    }

    open spec fn spec_fits_all(call: CallView, offset: nat) -> bool {
        let m1 = A::spec_end(call, offset);
        let m2 = B::spec_end(call, m1);
        let m3 = C::spec_end(call, m2);
        let m4 = D::spec_end(call, m3);
        let m5 = E::spec_end(call, m4);
        &&& A::spec_fits(call, offset)
        &&& ({
            &&& A::spec_error(call, offset) is None
        } ==> B::spec_fits(call, m1))
        &&& ({
            &&& A::spec_error(call, offset) is None
            &&& B::spec_error(call, m1) is None
        } ==> C::spec_fits(call, m2))
        &&& ({
            &&& A::spec_error(call, offset) is None
            &&& B::spec_error(call, m1) is None
            &&& C::spec_error(call, m2) is None
        } ==> D::spec_fits(call, m3))
        &&& ({
            &&& A::spec_error(call, offset) is None
            &&& B::spec_error(call, m1) is None
            &&& C::spec_error(call, m2) is None
            &&& D::spec_error(call, m3) is None
        } ==> E::spec_fits(call, m4))
        &&& ({
            &&& A::spec_error(call, offset) is None
            &&& B::spec_error(call, m1) is None
            &&& C::spec_error(call, m2) is None
            &&& D::spec_error(call, m3) is None
            &&& E::spec_error(call, m4) is None
        } ==> F::spec_fits(call, m5))
    }

    open spec fn spec_end_all(call: CallView, offset: nat) -> nat {
        let m1 = A::spec_end(call, offset);
        let m2 = B::spec_end(call, m1);
        let m3 = C::spec_end(call, m2);
        let m4 = D::spec_end(call, m3);
        let m5 = E::spec_end(call, m4);
        let m6 = F::spec_end(call, m5);
        if A::spec_error(call, offset) is Some {
            m1
        } else if B::spec_error(call, m1) is Some {
            m2
        } else if C::spec_error(call, m2) is Some {
            m3
        } else if D::spec_error(call, m3) is Some {
            m4
        } else if E::spec_error(call, m4) is Some {
            m5
        } else {
            m6
        }
    }

    open spec fn spec_error_all(call: CallView, offset: nat) -> Option<Error> {
        let m1 = A::spec_end(call, offset);
        let m2 = B::spec_end(call, m1);
        let m3 = C::spec_end(call, m2);
        let m4 = D::spec_end(call, m3);
        let m5 = E::spec_end(call, m4);
        if A::spec_error(call, offset) is Some {
            A::spec_error(call, offset)
        } else if B::spec_error(call, m1) is Some {
            B::spec_error(call, m1)
        } else if C::spec_error(call, m2) is Some {
            C::spec_error(call, m2)
        } else if D::spec_error(call, m3) is Some {
            D::spec_error(call, m3)
        } else if E::spec_error(call, m4) is Some {
            E::spec_error(call, m4)
        } else {
            F::spec_error(call, m5)
        }
    }

    open spec fn spec_value_all(call: CallView, offset: nat, v: (A, B, C, D, E, F)) -> bool {
        let m1 = A::spec_end(call, offset);
        let m2 = B::spec_end(call, m1);
        let m3 = C::spec_end(call, m2);
        let m4 = D::spec_end(call, m3);
        let m5 = E::spec_end(call, m4);
        A::spec_value(call, offset, v.0)
            && B::spec_value(call, m1, v.1)
            && C::spec_value(call, m2, v.2)
            && D::spec_value(call, m3, v.3)
            && E::spec_value(call, m4, v.4)
            && F::spec_value(call, m5, v.5)
    }

    fn params_requirements() -> (r: ParamReq) {
        let r = ParamReq::none();
        let r = r.combine(A::params_required());
        let r = r.combine(B::params_required());
        let r = r.combine(C::params_required());
        let r = r.combine(D::params_required());
        let r = r.combine(E::params_required());
        let r = r.combine(F::params_required());
        r
    }

    fn from_params(params: &mut ParamsAccessor) -> (r: Result<(A, B, C, D, E, F), Error>) {
        let av = match A::from_param(params) {
            Ok(x) => x,
            Err(e) => return Err(e),
        };
        let bv = match B::from_param(params) {
            Ok(x) => x,
            Err(e) => return Err(e),
        };
        let cv = match C::from_param(params) {
            Ok(x) => x,
            Err(e) => return Err(e),
        };
        let dv = match D::from_param(params) {
            Ok(x) => x,
            Err(e) => return Err(e),
        };
        let ev = match E::from_param(params) {
            Ok(x) => x,
            Err(e) => return Err(e),
        };
        let fv = match F::from_param(params) {
            Ok(x) => x,
            Err(e) => return Err(e),
        };
        Ok((av, bv, cv, dv, ev, fv))
    }
}

impl<A: FromParam, B: FromParam, C: FromParam, D: FromParam, E: FromParam, F: FromParam, G: FromParam> FromParams for (A, B, C, D, E, F, G) {
    open spec fn spec_requirements() -> ReqView {
        let r = ReqView { min: 0, max: 0, exhaustive: false };
        let r = combined(r, A::spec_required());
        let r = combined(r, B::spec_required());
        let r = combined(r, C::spec_required());
        let r = combined(r, D::spec_required());
        let r = combined(r, E::spec_required());
        let r = combined(r, F::spec_required());
        let r = combined(r, G::spec_required());
        r
    }

    open spec fn spec_fits_all(call: CallView, offset: nat) -> bool {
        let m1 = A::spec_end(call, offset);
        let m2 = B::spec_end(call, m1);
        let m3 = C::spec_end(call, m2);
        let m4 = D::spec_end(call, m3);
        let m5 = E::spec_end(call, m4);
        let m6 = F::spec_end(call, m5);
        &&& A::spec_fits(call, offset)
        &&& ({
            &&& A::spec_error(call, offset) is None
        } ==> B::spec_fits(call, m1))
        &&& ({
            &&& A::spec_error(call, offset) is None
            &&& B::spec_error(call, m1) is None
        } ==> C::spec_fits(call, m2))
        &&& ({
            &&& A::spec_error(call, offset) is None
            &&& B::spec_error(call, m1) is None
            &&& C::spec_error(call, m2) is None
        } ==> D::spec_fits(call, m3))
        &&& ({
            &&& A::spec_error(call, offset) is None
            &&& B::spec_error(call, m1) is None
            &&& C::spec_error(call, m2) is None
            &&& D::spec_error(call, m3) is None
        } ==> E::spec_fits(call, m4))
        &&& ({
            &&& A::spec_error(call, offset) is None
            &&& B::spec_error(call, m1) is None
            &&& C::spec_error(call, m2) is None
            &&& D::spec_error(call, m3) is None
            &&& E::spec_error(call, m4) is None
        } ==> F::spec_fits(call, m5))
        &&& ({
            &&& A::spec_error(call, offset) is None
            &&& B::spec_error(call, m1) is None
            &&& C::spec_error(call, m2) is None
            &&& D::spec_error(call, m3) is None
            &&& E::spec_error(call, m4) is None
            &&& F::spec_error(call, m5) is None
        } ==> G::spec_fits(call, m6))
    }

    open spec fn spec_end_all(call: CallView, offset: nat) -> nat {
        let m1 = A::spec_end(call, offset);
        let m2 = B::spec_end(call, m1);
        let m3 = C::spec_end(call, m2);
        let m4 = D::spec_end(call, m3);
        let m5 = E::spec_end(call, m4);
        let m6 = F::spec_end(call, m5);
        let m7 = G::spec_end(call, m6);
        if A::spec_error(call, offset) is Some {
            m1
        } else if B::spec_error(call, m1) is Some {
            m2
        } else if C::spec_error(call, m2) is Some {
            m3
        } else if D::spec_error(call, m3) is Some {
            m4
        } else if E::spec_error(call, m4) is Some {
            m5
        } else if F::spec_error(call, m5) is Some {
            m6
        } else {
            m7
        }
    }

    open spec fn spec_error_all(call: CallView, offset: nat) -> Option<Error> {
        let m1 = A::spec_end(call, offset);
        let m2 = B::spec_end(call, m1);
        let m3 = C::spec_end(call, m2);
        let m4 = D::spec_end(call, m3);
        let m5 = E::spec_end(call, m4);
        let m6 = F::spec_end(call, m5);
        if A::spec_error(call, offset) is Some {
            A::spec_error(call, offset)
        } else if B::spec_error(call, m1) is Some {
            B::spec_error(call, m1)
        } else if C::spec_error(call, m2) is Some {
            C::spec_error(call, m2)
        } else if D::spec_error(call, m3) is Some {
            D::spec_error(call, m3)
        } else if E::spec_error(call, m4) is Some {
            E::spec_error(call, m4)
        } else if F::spec_error(call, m5) is Some {
            F::spec_error(call, m5)
        } else {
            G::spec_error(call, m6)
        }
    }

    open spec fn spec_value_all(call: CallView, offset: nat, v: (A, B, C, D, E, F, G)) -> bool {
        let m1 = A::spec_end(call, offset);
        let m2 = B::spec_end(call, m1);
        let m3 = C::spec_end(call, m2);
        let m4 = D::spec_end(call, m3);
        let m5 = E::spec_end(call, m4);
        let m6 = F::spec_end(call, m5);
        A::spec_value(call, offset, v.0)
            && B::spec_value(call, m1, v.1)
            && C::spec_value(call, m2, v.2)
            && D::spec_value(call, m3, v.3)
            && E::spec_value(call, m4, v.4)
            && F::spec_value(call, m5, v.5)
            && G::spec_value(call, m6, v.6)
    }

    fn params_requirements() -> (r: ParamReq) {
        let r = ParamReq::none();
        let r = r.combine(A::params_required());
        let r = r.combine(B::params_required());
        let r = r.combine(C::params_required());
        let r = r.combine(D::params_required());
        let r = r.combine(E::params_required());
        let r = r.combine(F::params_required());
        let r = r.combine(G::params_required());
        r
    }

    fn from_params(params: &mut ParamsAccessor) -> (r: Result<(A, B, C, D, E, F, G), Error>) {
        let av = match A::from_param(params) {
            Ok(x) => x,
            Err(e) => return Err(e),
        };
        let bv = match B::from_param(params) {
            Ok(x) => x,
            Err(e) => return Err(e),
        };
        let cv = match C::from_param(params) {
            Ok(x) => x,
            Err(e) => return Err(e),
        };
        let dv = match D::from_param(params) {
            Ok(x) => x,
            Err(e) => return Err(e),
        };
        let ev = match E::from_param(params) {
            Ok(x) => x,
            Err(e) => return Err(e),
        };
        let fv = match F::from_param(params) {
            Ok(x) => x,
            Err(e) => return Err(e),
        };
        let gv = match G::from_param(params) {
            Ok(x) => x,
            Err(e) => return Err(e),
        };
        Ok((av, bv, cv, dv, ev, fv, gv))
    }
}

} // verus!
