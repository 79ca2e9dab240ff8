//! Sql parameter types and traits: how host values become positional
//! statement parameters.

use vstd::prelude::*;

use crate::value::SqlType;

verus! {

/// Implemented for types that can be sent as statement parameters.
pub trait IntoStmtArg: Into<SqlType> {

}

/// A set of statement parameters indexed by the type `Idx`: takes the
/// indices and provides the positional parameter values.
pub trait IntoStmtArgs: Sized {
    type Idx;

    /// The positional parameters this value provides.
    spec fn spec_params(self) -> Seq<SqlType>;

    /// An empty vector if there are no parameters.
    fn with_indices(self, indices: Vec<Self::Idx>) -> (r: Vec<SqlType>)
        ensures
            r@ == self.spec_params(),
    ;
}

/// Dynamic positional parameters: parameters that cannot actually be
/// obtained — this type offers no constructor — so the arguments just
/// provide themselves.
pub struct DynParam {
    hidden: (),
}

pub struct DynParams;

impl DynParams {
    pub fn params<P: IntoStmtArgs<Idx = DynParam>>(params: P) -> (r: Vec<SqlType>)
        ensures
            r@ == params.spec_params(),
    {
        let empty: Vec<DynParam> = Vec::new();
        params.with_indices(empty)
    }
}

impl IntoStmtArgs for Vec<SqlType> {
    type Idx = DynParam;

    open spec fn spec_params(self) -> Seq<SqlType> {
        self@
    }

    fn with_indices(self, _indices: Vec<DynParam>) -> (r: Vec<SqlType>) {
        self
    }
}

impl IntoStmtArgs for () {
    type Idx = DynParam;

    open spec fn spec_params(self) -> Seq<SqlType> {
        Seq::<SqlType>::empty()
    }

    fn with_indices(self, _indices: Vec<DynParam>) -> (r: Vec<SqlType>) {
        let r: Vec<SqlType> = Vec::new();
        proof {
            assert(r@ =~= Seq::<SqlType>::empty());
        }
        r
    }
}

} // verus!
