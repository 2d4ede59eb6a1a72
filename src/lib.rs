//! Argument marshalling between an embedded script engine's call sites and
//! typed host functions: arity requirements, a call snapshot, a single-pass
//! cursor over its arguments, per-position extraction shapes and multi-value
//! conversion.
mod error;
mod extract;
mod laws;
mod multi;
mod params;
mod requirement;
mod value;

pub use error::Error;
pub use extract::{
    error_of, first_failure, lemma_first_failure, Exhaustive, Flat, FromParam, FromParams, Func,
    Opt, Rest, This,
};
pub use laws::{
    lemma_bound_positions_take_nothing, lemma_combine_adds, lemma_exhaustive_arity,
    lemma_flat_nested, lemma_flat_requirement, lemma_lenient_arity, lemma_optional_position,
    lemma_rest_last,
};
pub use multi::{append_converted, Args, FromJsMulti, ToJsMulti};
pub use params::{check_arity, CallView, Params, ParamsAccessor};
pub use requirement::{combined, saturating_sum, ParamReq, ReqView};
pub use value::{kind_of, Ctx, FromJs, Kind, ToJs, Value};
