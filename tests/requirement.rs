use js_params::ParamReq;

#[test]
fn canonical_requirements() {
    let s = ParamReq::single();
    assert_eq!((s.min(), s.max(), s.is_exhaustive()), (1, 1, false));
    let o = ParamReq::optional();
    assert_eq!((o.min(), o.max(), o.is_exhaustive()), (0, 1, false));
    let a = ParamReq::any();
    assert_eq!((a.min(), a.max(), a.is_exhaustive()), (0, usize::MAX, false));
    let n = ParamReq::none();
    assert_eq!((n.min(), n.max(), n.is_exhaustive()), (0, 0, false));
    let e = ParamReq::exhaustive();
    assert_eq!((e.min(), e.max(), e.is_exhaustive()), (0, 0, true));
}

#[test]
fn combine_adds_counts() {
    let r = ParamReq::single().combine(ParamReq::optional());
    assert_eq!((r.min(), r.max(), r.is_exhaustive()), (1, 2, false));
    let r = r.combine(ParamReq::single());
    assert_eq!((r.min(), r.max(), r.is_exhaustive()), (2, 3, false));
}

#[test]
fn combine_saturates() {
    let r = ParamReq::any().combine(ParamReq::single());
    assert_eq!((r.min(), r.max()), (1, usize::MAX));
    let r = ParamReq::any().combine(ParamReq::any());
    assert_eq!((r.min(), r.max()), (0, usize::MAX));
}

#[test]
fn combine_exhaustive_is_or() {
    let r = ParamReq::single().combine(ParamReq::exhaustive());
    assert_eq!((r.min(), r.max(), r.is_exhaustive()), (1, 1, true));
    let r = ParamReq::exhaustive().combine(ParamReq::none());
    assert!(r.is_exhaustive());
    let r = ParamReq::none().combine(ParamReq::optional());
    assert!(!r.is_exhaustive());
}
