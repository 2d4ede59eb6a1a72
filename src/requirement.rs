use vstd::prelude::*;

verus! {

/// How many call arguments a signature, or one position of it, needs.
#[derive(Debug, Clone, Copy, PartialEq, Eq, Structural)]
pub struct ParamReq {
    min: usize,
    max: usize,
    exhaustive: bool,
}

/// What a requirement says, as a mathematical value.
pub struct ReqView {
    pub min: nat,
    pub max: nat,
    pub exhaustive: bool,
}

impl View for ParamReq {
    type V = ReqView;

    closed spec fn view(&self) -> ReqView {
        ReqView { min: self.min as nat, max: self.max as nat, exhaustive: self.exhaustive }
    }
}

impl ParamReq {
    /// Exactly one argument.
    pub fn single() -> (r: ParamReq)
        ensures
            r@ == (ReqView { min: 1, max: 1, exhaustive: false }),
    {
        ParamReq { min: 1, max: 1, exhaustive: false }
    }

    /// No count of its own, but the whole signature becomes exhaustive: a call
    /// may not pass more arguments than the signature's maximum.
    pub fn exhaustive() -> (r: ParamReq)
        ensures
            r@ == (ReqView { min: 0, max: 0, exhaustive: true }),
    {
        ParamReq { min: 0, max: 0, exhaustive: true }
    }

    /// At most one argument, possibly none.
    pub fn optional() -> (r: ParamReq)
        ensures
            r@ == (ReqView { min: 0, max: 1, exhaustive: false }),
    {
        ParamReq { min: 0, max: 1, exhaustive: false }
    }

    /// Any number of arguments.
    pub fn any() -> (r: ParamReq)
        ensures
            r@ == (ReqView { min: 0, max: usize::MAX as nat, exhaustive: false }),
    {
        ParamReq { min: 0, max: usize::MAX, exhaustive: false }
    }

    /// No arguments.
    pub fn none() -> (r: ParamReq)
        ensures
            r@ == (ReqView { min: 0, max: 0, exhaustive: false }),
    {
        ParamReq { min: 0, max: 0, exhaustive: false }
    }

    /// The requirement of two positions taken together: counts add up,
    /// saturating at `usize::MAX`, and either one being exhaustive makes the
    /// whole exhaustive.
    pub fn combine(self, other: ParamReq) -> (r: ParamReq)
        ensures
            r@ == combined(self@, other@),
    {
        ParamReq {
            min: self.min.saturating_add(other.min),
            max: self.max.saturating_add(other.max),
            exhaustive: self.exhaustive || other.exhaustive,
        }
    }

    /// The least number of arguments.
    pub fn min(&self) -> (r: usize)
        ensures
            r == self@.min,
    {
        self.min
    }

    /// The greatest number of arguments.
    pub fn max(&self) -> (r: usize)
        ensures
            r == self@.max,
    {
        self.max
    }

    /// Whether a call may not pass more arguments than the maximum.
    pub fn is_exhaustive(&self) -> (r: bool)
        ensures
            r == self@.exhaustive,
    {
        self.exhaustive
    }
}

/// The requirement of two positions taken together.
pub open spec fn combined(a: ReqView, b: ReqView) -> ReqView {
    ReqView {
        min: saturating_sum(a.min, b.min),
        max: saturating_sum(a.max, b.max),
        exhaustive: a.exhaustive || b.exhaustive,
    }
}

/// `a + b`, or `usize::MAX` where the sum does not fit.
pub open spec fn saturating_sum(a: nat, b: nat) -> nat {
    if a + b > usize::MAX {
        usize::MAX as nat
    } else {
        a + b
    }
}

} // verus!
