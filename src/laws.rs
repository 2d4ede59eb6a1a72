use crate::error::Error;
use crate::extract::{lemma_first_failure, Flat, FromParam, FromParams, Func, Opt, Rest, This};
use crate::params::{check_arity, CallView};
use crate::requirement::{combined, ReqView};
use crate::value::FromJs;
use vstd::prelude::*;

verus! {

/// Combining two requirements adds their minima and their maxima, each
/// saturating at `usize::MAX`, and is exhaustive where either one is.
pub proof fn lemma_combine_adds(a: ReqView, b: ReqView)
    ensures
        combined(a, b).min == (if a.min + b.min > usize::MAX { usize::MAX as nat } else { a.min + b.min }),
        combined(a, b).max == (if a.max + b.max > usize::MAX { usize::MAX as nat } else { a.max + b.max }),
        combined(a, b).exhaustive == (a.exhaustive || b.exhaustive),
{
}

/// A lenient signature rejects a call with fewer arguments than its minimum,
/// naming the minimum and the count, and accepts every other count, surplus
/// included.
pub proof fn lemma_lenient_arity(n: nat, req: ReqView)
    requires
        !req.exhaustive,
        n <= usize::MAX,
        req.min <= usize::MAX,
    ensures
        n < req.min ==> check_arity(n, req) == Err::<(), Error>(
            Error::MissingArgs { expected: req.min as usize, given: n as usize },
        ),
        n >= req.min ==> check_arity(n, req) == Ok::<(), Error>(()),
{
}

/// An exhaustive signature rejects a call with more arguments than its
/// maximum, naming the maximum and the count.
pub proof fn lemma_exhaustive_arity(n: nat, req: ReqView)
    requires
        req.exhaustive,
        req.min <= req.max,
        req.max < n <= usize::MAX,
    ensures
        check_arity(n, req) == Err::<(), Error>(
            Error::TooManyArgs { expected: req.max as usize, given: n as usize },
        ),
{
}

/// An optional position with no argument left gives an absent value and
/// takes nothing; with one left it takes exactly that one and, where it
/// converts, gives it as present.
pub proof fn lemma_optional_position<T: FromJs>(call: CallView, offset: nat)
    requires
        offset <= call.args.len(),
    ensures
        offset == call.args.len() ==> {
            &&& Opt::<T>::spec_end(call, offset) == offset
            &&& Opt::<T>::spec_error(call, offset) is None
            &&& forall|v: Opt<T>| #[trigger] Opt::<T>::spec_value(call, offset, v) <==> v.0 is None
        },
        offset < call.args.len() ==> {
            &&& Opt::<T>::spec_end(call, offset) == offset + 1
            &&& forall|x: T|
                T::spec_from_js(call.args[offset as int]) == Ok::<T, Error>(x) ==> {
                    &&& Opt::<T>::spec_error(call, offset) is None
                    &&& Opt::<T>::spec_value(call, offset, Opt(Some(x)))
                }
        },
{
}

/// A rest position placed last takes every argument left where it runs:
/// where the whole extraction succeeds it ends at the last argument, and
/// the rest holds as many values as were left after the first position.
pub proof fn lemma_rest_last<A: FromParam, T: FromJs>(call: CallView, offset: nat)
    requires
        A::spec_end(call, offset) <= call.args.len(),
        <(A, Rest<T>) as FromParams>::spec_error_all(call, offset) is None,
    ensures
        <(A, Rest<T>) as FromParams>::spec_end_all(call, offset) == call.args.len(),
        forall|v: (A, Rest<T>)|
            #[trigger] <(A, Rest<T>) as FromParams>::spec_value_all(call, offset, v) ==> v.1.0@.len()
                == call.args.len() - A::spec_end(call, offset),
{
    let m = A::spec_end(call, offset);
    lemma_first_failure::<T>(call.args, m);
}

/// Positions bound to the receiver or to the call target take no argument.
pub proof fn lemma_bound_positions_take_nothing<T: FromJs>(call: CallView, offset: nat)
    ensures
        This::<T>::spec_end(call, offset) == offset,
        Func::<T>::spec_end(call, offset) == offset,
{
}

/// A flattened tuple inside an outer one shares the cursor: in
/// `(A, Flat<(B, C)>, D)` of single positions the four values come from four
/// consecutive arguments, in the order A, B, C, D, and the whole takes four.
pub proof fn lemma_flat_nested<A: FromJs, B: FromJs, C: FromJs, D: FromJs>(
    call: CallView,
    offset: nat,
    v: (A, Flat<(B, C)>, D),
)
    requires
        offset + 4 <= call.args.len(),
    ensures
        <(A, Flat<(B, C)>, D) as FromParams>::spec_fits_all(call, offset),
        <(A, Flat<(B, C)>, D) as FromParams>::spec_error_all(call, offset) is None
            ==> <(A, Flat<(B, C)>, D) as FromParams>::spec_end_all(call, offset) == offset + 4,
        <(A, Flat<(B, C)>, D) as FromParams>::spec_value_all(call, offset, v) <==> {
            &&& A::spec_from_js(call.args[offset as int]) == Ok::<A, Error>(v.0)
            &&& B::spec_from_js(call.args[offset + 1 as int]) == Ok::<B, Error>(v.1.0.0)
            &&& C::spec_from_js(call.args[offset + 2 as int]) == Ok::<C, Error>(v.1.0.1)
            &&& D::spec_from_js(call.args[offset + 3 as int]) == Ok::<D, Error>(v.2)
        },
{
}

/// The requirement of a flattened tuple is the nested tuple's own.
pub proof fn lemma_flat_requirement<T: FromParams>()
    ensures
        Flat::<T>::spec_required() == T::spec_requirements(),
{
}

} // verus!
