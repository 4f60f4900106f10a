//! Fixed-size lists of host values, converted in order.
use vstd::prelude::*;

use crate::convert::ToParam;
use crate::model::{infos_view, ParamInfo, ParamValue};

verus! {

/// Implemented for types that represents a list of parameters
pub trait IntoParams: Sized {
    /// The parameters that the list becomes, in order.
    spec fn params_spec(self) -> Seq<ParamValue>;

    fn to_params(self) -> (r: Vec<ParamInfo>)
        ensures
            infos_view(r@) == self.params_spec(),
    ;
}

/// Represents no parameters
impl IntoParams for () {
    open spec fn params_spec(self) -> Seq<ParamValue> {
        Seq::empty()
    }

    fn to_params(self) -> (r: Vec<ParamInfo>) {
        let v: Vec<ParamInfo> = Vec::new();
        assert(infos_view(v@) =~= Seq::empty());
        v
    }
}

impl<A: ToParam> IntoParams for (A,) {
    open spec fn params_spec(self) -> Seq<ParamValue> {
        seq![self.0.param_spec()]
    }

    fn to_params(self) -> (r: Vec<ParamInfo>) {
        let ghost s = self.params_spec();
        let (a,) = self;
        let mut v: Vec<ParamInfo> = Vec::new();
        v.push(a.to_info());
        assert(infos_view(v@) =~= s);
        v
    }
}

impl<A: ToParam, B: ToParam> IntoParams for (A, B) {
    open spec fn params_spec(self) -> Seq<ParamValue> {
        seq![self.0.param_spec(), self.1.param_spec()]
    }

    fn to_params(self) -> (r: Vec<ParamInfo>) {
        let ghost s = self.params_spec();
        let (a, b) = self;
        let mut v: Vec<ParamInfo> = Vec::new();
        v.push(a.to_info());
        v.push(b.to_info());
        assert(infos_view(v@) =~= s);
        v
    }
}

impl<A: ToParam, B: ToParam, C: ToParam> IntoParams for (A, B, C) {
    open spec fn params_spec(self) -> Seq<ParamValue> {
        seq![self.0.param_spec(), self.1.param_spec(), self.2.param_spec()]
    }

    fn to_params(self) -> (r: Vec<ParamInfo>) {
        let ghost s = self.params_spec();
        let (a, b, c) = self;
        let mut v: Vec<ParamInfo> = Vec::new();
        v.push(a.to_info());
        v.push(b.to_info());
        v.push(c.to_info());
        assert(infos_view(v@) =~= s);
        v
    }
}

impl<A: ToParam, B: ToParam, C: ToParam, D: ToParam> IntoParams for (A, B, C, D) {
    open spec fn params_spec(self) -> Seq<ParamValue> {
        seq![self.0.param_spec(), self.1.param_spec(), self.2.param_spec(), self.3.param_spec()]
    }

    fn to_params(self) -> (r: Vec<ParamInfo>) {
        let ghost s = self.params_spec();
        let (a, b, c, d) = self;
        let mut v: Vec<ParamInfo> = Vec::new();
        v.push(a.to_info());
        v.push(b.to_info());
        v.push(c.to_info());
        v.push(d.to_info());
        assert(infos_view(v@) =~= s);
        v
    }
}

impl<A: ToParam, B: ToParam, C: ToParam, D: ToParam, E: ToParam> IntoParams for (A, B, C, D, E) {
    open spec fn params_spec(self) -> Seq<ParamValue> {
        seq![
            self.0.param_spec(),
            self.1.param_spec(),
            self.2.param_spec(),
            self.3.param_spec(),
            self.4.param_spec(),
        ]
    }

    fn to_params(self) -> (r: Vec<ParamInfo>) {
        let ghost s = self.params_spec();
        let (a, b, c, d, e) = self;
        let mut v: Vec<ParamInfo> = Vec::new();
        v.push(a.to_info());
        v.push(b.to_info());
        v.push(c.to_info());
        v.push(d.to_info());
        v.push(e.to_info());
        assert(infos_view(v@) =~= s);
        v
    }
}

impl<
    A: ToParam,
    B: ToParam,
    C: ToParam,
    D: ToParam,
    E: ToParam,
    F: ToParam,
> IntoParams for (A, B, C, D, E, F) {
    open spec fn params_spec(self) -> Seq<ParamValue> {
        seq![
            self.0.param_spec(),
            self.1.param_spec(),
            self.2.param_spec(),
            self.3.param_spec(),
            self.4.param_spec(),
            self.5.param_spec(),
        ]
    }

    fn to_params(self) -> (r: Vec<ParamInfo>) {
        let ghost s = self.params_spec();
        let (a, b, c, d, e, f) = self;
        let mut v: Vec<ParamInfo> = Vec::new();
        v.push(a.to_info());
        v.push(b.to_info());
        v.push(c.to_info());
        v.push(d.to_info());
        v.push(e.to_info());
        v.push(f.to_info());
        assert(infos_view(v@) =~= s);
        v
    }
}

impl<
    A: ToParam,
    B: ToParam,
    C: ToParam,
    D: ToParam,
    E: ToParam,
    F: ToParam,
    G: ToParam,
> IntoParams for (A, B, C, D, E, F, G) {
    open spec fn params_spec(self) -> Seq<ParamValue> {
        seq![
            self.0.param_spec(),
            self.1.param_spec(),
            self.2.param_spec(),
            self.3.param_spec(),
            self.4.param_spec(),
            self.5.param_spec(),
            self.6.param_spec(),
        ]
    }

    fn to_params(self) -> (r: Vec<ParamInfo>) {
        let ghost s = self.params_spec();
        let (a, b, c, d, e, f, g) = self;
        let mut v: Vec<ParamInfo> = Vec::new();
        v.push(a.to_info());
        v.push(b.to_info());
        v.push(c.to_info());
        v.push(d.to_info());
        v.push(e.to_info());
        v.push(f.to_info());
        v.push(g.to_info());
        assert(infos_view(v@) =~= s);
        v
    }
}

impl<
    A: ToParam,
    B: ToParam,
    C: ToParam,
    D: ToParam,
    E: ToParam,
    F: ToParam,
    G: ToParam,
    H: ToParam,
> IntoParams for (A, B, C, D, E, F, G, H) {
    open spec fn params_spec(self) -> Seq<ParamValue> {
        seq![
            self.0.param_spec(),
            self.1.param_spec(),
            self.2.param_spec(),
            self.3.param_spec(),
            self.4.param_spec(),
            self.5.param_spec(),
            self.6.param_spec(),
            self.7.param_spec(),
        ]
    }

    fn to_params(self) -> (r: Vec<ParamInfo>) {
        let ghost s = self.params_spec();
        let (a, b, c, d, e, f, g, h) = self;
        let mut v: Vec<ParamInfo> = Vec::new();
        v.push(a.to_info());
        v.push(b.to_info());
        v.push(c.to_info());
        v.push(d.to_info());
        v.push(e.to_info());
        v.push(f.to_info());
        v.push(g.to_info());
        v.push(h.to_info());
        assert(infos_view(v@) =~= s);
        v
    }
}

impl<
    A: ToParam,
    B: ToParam,
    C: ToParam,
    D: ToParam,
    E: ToParam,
    F: ToParam,
    G: ToParam,
    H: ToParam,
    I: ToParam,
> IntoParams for (A, B, C, D, E, F, G, H, I) {
    open spec fn params_spec(self) -> Seq<ParamValue> {
        seq![
            self.0.param_spec(),
            self.1.param_spec(),
            self.2.param_spec(),
            self.3.param_spec(),
            self.4.param_spec(),
            self.5.param_spec(),
            self.6.param_spec(),
            self.7.param_spec(),
            self.8.param_spec(),
        ]
    }

    fn to_params(self) -> (r: Vec<ParamInfo>) {
        let ghost s = self.params_spec();
        let (a, b, c, d, e, f, g, h, i) = self;
        let mut v: Vec<ParamInfo> = Vec::new();
        v.push(a.to_info());
        v.push(b.to_info());
        v.push(c.to_info());
        v.push(d.to_info());
        v.push(e.to_info());
        v.push(f.to_info());
        v.push(g.to_info());
        v.push(h.to_info());
        v.push(i.to_info());
        assert(infos_view(v@) =~= s);
        v
    }
}

impl<
    A: ToParam,
    B: ToParam,
    C: ToParam,
    D: ToParam,
    E: ToParam,
    F: ToParam,
    G: ToParam,
    H: ToParam,
    I: ToParam,
    J: ToParam,
> IntoParams for (A, B, C, D, E, F, G, H, I, J) {
    open spec fn params_spec(self) -> Seq<ParamValue> {
        seq![
            self.0.param_spec(),
            self.1.param_spec(),
            self.2.param_spec(),
            self.3.param_spec(),
            self.4.param_spec(),
            self.5.param_spec(),
            self.6.param_spec(),
            self.7.param_spec(),
            self.8.param_spec(),
            self.9.param_spec(),
        ]
    }

    fn to_params(self) -> (r: Vec<ParamInfo>) {
        let ghost s = self.params_spec();
        let (a, b, c, d, e, f, g, h, i, j) = self;
        let mut v: Vec<ParamInfo> = Vec::new();
        v.push(a.to_info());
        v.push(b.to_info());
        v.push(c.to_info());
        v.push(d.to_info());
        v.push(e.to_info());
        v.push(f.to_info());
        v.push(g.to_info());
        v.push(h.to_info());
        v.push(i.to_info());
        v.push(j.to_info());
        assert(infos_view(v@) =~= s);
        v
    }
}

impl<
    A: ToParam,
    B: ToParam,
    C: ToParam,
    D: ToParam,
    E: ToParam,
    F: ToParam,
    G: ToParam,
    H: ToParam,
    I: ToParam,
    J: ToParam,
    K: ToParam,
> IntoParams for (A, B, C, D, E, F, G, H, I, J, K) {
    open spec fn params_spec(self) -> Seq<ParamValue> {
        seq![
            self.0.param_spec(),
            self.1.param_spec(),
            self.2.param_spec(),
            self.3.param_spec(),
            self.4.param_spec(),
            self.5.param_spec(),
            self.6.param_spec(),
            self.7.param_spec(),
            self.8.param_spec(),
            self.9.param_spec(),
            self.10.param_spec(),
        ]
    }

    fn to_params(self) -> (r: Vec<ParamInfo>) {
        let ghost s = self.params_spec();
        let (a, b, c, d, e, f, g, h, i, j, k) = self;
        let mut v: Vec<ParamInfo> = Vec::new();
        v.push(a.to_info());
        v.push(b.to_info());
        v.push(c.to_info());
        v.push(d.to_info());
        v.push(e.to_info());
        v.push(f.to_info());
        v.push(g.to_info());
        v.push(h.to_info());
        v.push(i.to_info());
        v.push(j.to_info());
        v.push(k.to_info());
        assert(infos_view(v@) =~= s);
        v
    }
}

impl<
    A: ToParam,
    B: ToParam,
    C: ToParam,
    D: ToParam,
    E: ToParam,
    F: ToParam,
    G: ToParam,
    H: ToParam,
    I: ToParam,
    J: ToParam,
    K: ToParam,
    L: ToParam,
> IntoParams for (A, B, C, D, E, F, G, H, I, J, K, L) {
    open spec fn params_spec(self) -> Seq<ParamValue> {
        seq![
            self.0.param_spec(),
            self.1.param_spec(),
            self.2.param_spec(),
            self.3.param_spec(),
            self.4.param_spec(),
            self.5.param_spec(),
            self.6.param_spec(),
            self.7.param_spec(),
            self.8.param_spec(),
            self.9.param_spec(),
            self.10.param_spec(),
            self.11.param_spec(),
        ]
    }

    fn to_params(self) -> (r: Vec<ParamInfo>) {
        let ghost s = self.params_spec();
        let (a, b, c, d, e, f, g, h, i, j, k, l) = self;
        let mut v: Vec<ParamInfo> = Vec::new();
        v.push(a.to_info());
        v.push(b.to_info());
        v.push(c.to_info());
        v.push(d.to_info());
        v.push(e.to_info());
        v.push(f.to_info());
        v.push(g.to_info());
        v.push(h.to_info());
        v.push(i.to_info());
        v.push(j.to_info());
        v.push(k.to_info());
        v.push(l.to_info());
        assert(infos_view(v@) =~= s);
        v
    }
}

impl<
    A: ToParam,
    B: ToParam,
    C: ToParam,
    D: ToParam,
    E: ToParam,
    F: ToParam,
    G: ToParam,
    H: ToParam,
    I: ToParam,
    J: ToParam,
    K: ToParam,
    L: ToParam,
    M: ToParam,
> IntoParams for (A, B, C, D, E, F, G, H, I, J, K, L, M) {
    open spec fn params_spec(self) -> Seq<ParamValue> {
        seq![
            self.0.param_spec(),
            self.1.param_spec(),
            self.2.param_spec(),
            self.3.param_spec(),
            self.4.param_spec(),
            self.5.param_spec(),
            self.6.param_spec(),
            self.7.param_spec(),
            self.8.param_spec(),
            self.9.param_spec(),
            self.10.param_spec(),
            self.11.param_spec(),
            self.12.param_spec(),
        ]
    }

    fn to_params(self) -> (r: Vec<ParamInfo>) {
        let ghost s = self.params_spec();
        let (a, b, c, d, e, f, g, h, i, j, k, l, m) = self;
        let mut v: Vec<ParamInfo> = Vec::new();
        v.push(a.to_info());
        v.push(b.to_info());
        v.push(c.to_info());
        v.push(d.to_info());
        v.push(e.to_info());
        v.push(f.to_info());
        v.push(g.to_info());
        v.push(h.to_info());
        v.push(i.to_info());
        v.push(j.to_info());
        v.push(k.to_info());
        v.push(l.to_info());
        v.push(m.to_info());
        assert(infos_view(v@) =~= s);
        v
    }
}

impl<
    A: ToParam,
    B: ToParam,
    C: ToParam,
    D: ToParam,
    E: ToParam,
    F: ToParam,
    G: ToParam,
    H: ToParam,
    I: ToParam,
    J: ToParam,
    K: ToParam,
    L: ToParam,
    M: ToParam,
    N: ToParam,
> IntoParams for (A, B, C, D, E, F, G, H, I, J, K, L, M, N) {
    open spec fn params_spec(self) -> Seq<ParamValue> {
        seq![
            self.0.param_spec(),
            self.1.param_spec(),
            self.2.param_spec(),
            self.3.param_spec(),
            self.4.param_spec(),
            self.5.param_spec(),
            self.6.param_spec(),
            self.7.param_spec(),
            self.8.param_spec(),
            self.9.param_spec(),
            self.10.param_spec(),
            self.11.param_spec(),
            self.12.param_spec(),
            self.13.param_spec(),
        ]
    }

    fn to_params(self) -> (r: Vec<ParamInfo>) {
        let ghost s = self.params_spec();
        let (a, b, c, d, e, f, g, h, i, j, k, l, m, n) = self;
        let mut v: Vec<ParamInfo> = Vec::new();
        v.push(a.to_info());
        v.push(b.to_info());
        v.push(c.to_info());
        v.push(d.to_info());
        v.push(e.to_info());
        v.push(f.to_info());
        v.push(g.to_info());
        v.push(h.to_info());
        v.push(i.to_info());
        v.push(j.to_info());
        v.push(k.to_info());
        v.push(l.to_info());
        v.push(m.to_info());
        v.push(n.to_info());
        assert(infos_view(v@) =~= s);
        v
    }
}

impl<
    A: ToParam,
    B: ToParam,
    C: ToParam,
    D: ToParam,
    E: ToParam,
    F: ToParam,
    G: ToParam,
    H: ToParam,
    I: ToParam,
    J: ToParam,
    K: ToParam,
    L: ToParam,
    M: ToParam,
    N: ToParam,
    O: ToParam,
> IntoParams for (A, B, C, D, E, F, G, H, I, J, K, L, M, N, O) {
    open spec fn params_spec(self) -> Seq<ParamValue> {
        seq![
            self.0.param_spec(),
            self.1.param_spec(),
            self.2.param_spec(),
            self.3.param_spec(),
            self.4.param_spec(),
            self.5.param_spec(),
            self.6.param_spec(),
            self.7.param_spec(),
            self.8.param_spec(),
            self.9.param_spec(),
            self.10.param_spec(),
            self.11.param_spec(),
            self.12.param_spec(),
            self.13.param_spec(),
            self.14.param_spec(),
        ]
    }

    fn to_params(self) -> (r: Vec<ParamInfo>) {
        let ghost s = self.params_spec();
        let (a, b, c, d, e, f, g, h, i, j, k, l, m, n, o) = self;
        let mut v: Vec<ParamInfo> = Vec::new();
        v.push(a.to_info());
        v.push(b.to_info());
        v.push(c.to_info());
        v.push(d.to_info());
        v.push(e.to_info());
        v.push(f.to_info());
        v.push(g.to_info());
        v.push(h.to_info());
        v.push(i.to_info());
        v.push(j.to_info());
        v.push(k.to_info());
        v.push(l.to_info());
        v.push(m.to_info());
        v.push(n.to_info());
        v.push(o.to_info());
        assert(infos_view(v@) =~= s);
        v
    }
}

} // verus!
