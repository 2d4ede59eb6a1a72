use crate::error::Error;
use crate::requirement::{ParamReq, ReqView};
use crate::value::{Ctx, Value};
use vstd::prelude::*;

verus! {

/// What a call snapshot holds, as a mathematical value.
pub struct CallView {
    pub ctx: Ctx,
    /// The value that was called.
    pub function: Value,
    /// The value the call was made on.
    pub this: Value,
    pub args: Seq<Value>,
}

/// The values one invocation from the engine carries: its context, the
/// call target, the receiver and the arguments, borrowed for the call.
pub struct Params<'a> {
    ctx: Ctx,
    function: Value,
    this: Value,
    args: &'a [Value],
}

impl<'a> View for Params<'a> {
    type V = CallView;

    closed spec fn view(&self) -> CallView {
        CallView { ctx: self.ctx, function: self.function, this: self.this, args: self.args@ }
    }
}

impl<'a> Params<'a> {
    /// A snapshot of a call that names its target, as a class method call does.
    pub fn new(ctx: Ctx, function: Value, this: Value, args: &'a [Value]) -> (r: Params<'a>)
        ensures
            r@ == (CallView { ctx, function, this, args: args@ }),
    {
        Params { ctx, function, this, args }
    }

    /// A snapshot of a plain function call: the call target is undefined.
    pub fn from_plain_call(ctx: Ctx, this: Value, args: &'a [Value]) -> (r: Params<'a>)
        ensures
            r@ == (CallView { ctx, function: Value::Undefined, this, args: args@ }),
    {
        Params { ctx, function: Value::Undefined, this, args }
    }

    /// Checks the number of arguments against a requirement: too few is
    /// `MissingArgs`; more than the maximum is `TooManyArgs` where the
    /// requirement is exhaustive, and is accepted where it is not.
    pub fn check_params(&self, num: ParamReq) -> (r: Result<(), Error>)
        ensures
            r == check_arity(self@.args.len(), num@),
    {
        if self.args.len() < num.min() {
            return Err(Error::MissingArgs { expected: num.min(), given: self.args.len() });
        }
        if num.is_exhaustive() && self.args.len() > num.max() {
            return Err(Error::TooManyArgs { expected: num.max(), given: self.args.len() });
        }
        Ok(())
    }

    /// The context of the call.
    pub fn ctx(&self) -> (r: Ctx)
        ensures
            r == self@.ctx,
    {
        self.ctx
    }

    /// The value that was called: in `bla.foo()` the `foo` value.
    pub fn function(&self) -> (r: Value)
        ensures
            r == self@.function,
    {
        self.function.duplicate()
    }

    /// The value the call was made on: in `bla.foo()` the `bla` value. This
    /// is the receiver slot, kept apart from the call target.
    pub fn this(&self) -> (r: Value)
        ensures
            r == self@.this,
    {
        self.this.duplicate()
    }

    /// The argument at `index`, if there is one.
    pub fn arg(&self, index: usize) -> (r: Option<Value>)
        ensures
            index < self@.args.len() ==> r == Some(self@.args[index as int]),
            index >= self@.args.len() ==> r.is_none(),
    {
        if index < self.args.len() {
            Some(self.args[index].duplicate())
        } else {
            None
        }
    }

    /// The number of arguments.
    pub fn len(&self) -> (r: usize)
        ensures
            r == self@.args.len(),
    {
        self.args.len()
    }

    /// Whether there are no arguments.
    pub fn is_empty(&self) -> (r: bool)
        ensures
            r == (self@.args.len() == 0),
    {
        self.args.len() == 0
    }

    /// Turns the snapshot into a cursor positioned on the first argument.
    pub fn access(self) -> (r: ParamsAccessor<'a>)
        ensures
            r.snapshot() == self@,
            r.offset() == 0,
            r.wf(),
    {
        ParamsAccessor { params: self, offset: 0 }
    }
}

/// What `check_params` gives for `n` arguments against `req`.
pub open spec fn check_arity(n: nat, req: ReqView) -> Result<(), Error> {
    if n < req.min {
        Err(Error::MissingArgs { expected: req.min as usize, given: n as usize })
    } else if req.exhaustive && n > req.max {
        Err(Error::TooManyArgs { expected: req.max as usize, given: n as usize })
    } else {
        Ok(())
    }
}

/// A single-pass cursor over a call's arguments: each `arg` hands out the
/// next one.
pub struct ParamsAccessor<'a> {
    params: Params<'a>,
    offset: usize,
}

impl<'a> ParamsAccessor<'a> {
    /// The cursor never passes the last argument.
    #[verifier::type_invariant]
    spec fn within(&self) -> bool {
        self.offset <= self.params.args@.len()
    }

    /// The call the cursor reads.
    pub closed spec fn snapshot(&self) -> CallView {
        self.params@
    }

    /// How many arguments have been handed out.
    pub closed spec fn offset(&self) -> nat {
        self.offset as nat
    }

    /// The cursor stands within the arguments.
    pub open spec fn wf(&self) -> bool {
        self.offset() <= self.snapshot().args.len()
    }

    /// The context of the call.
    pub fn ctx(&self) -> (r: Ctx)
        ensures
            r == self.snapshot().ctx,
    {
        self.params.ctx()
    }

    /// The value the call was made on.
    pub fn this(&self) -> (r: Value)
        ensures
            r == self.snapshot().this,
    {
        self.params.this()
    }

    /// The value that was called.
    pub fn function(&self) -> (r: Value)
        ensures
            r == self.snapshot().function,
    {
        self.params.function()
    }

    /// Hands out the next argument and moves past it.
    pub fn arg(&mut self) -> (r: Value)
        requires
            old(self).offset() < old(self).snapshot().args.len(),
        ensures
            r == old(self).snapshot().args[old(self).offset() as int],
            final(self).snapshot() == old(self).snapshot(),
            final(self).offset() == old(self).offset() + 1,
    {
        let res = self.params.args[self.offset].duplicate();
        self.offset = self.offset + 1;
        res
    }

    /// The number of arguments not yet handed out.
    pub fn len(&self) -> (r: usize)
        ensures
            r == self.snapshot().args.len() - self.offset(),
    {
        proof {
            use_type_invariant(self);
        }
        self.params.args.len() - self.offset
    }

    /// Whether every argument has been handed out.
    pub fn is_empty(&self) -> (r: bool)
        ensures
            self.wf(),
            r == (self.offset() == self.snapshot().args.len()),
    {
        self.len() == 0
    }
}

} // verus!
