use vstd::prelude::*;
use core::marker::PhantomData;
use crate::basis::{Basis, Point};
use crate::manifold::Chart;
use crate::matrix::{mat_vec, mat_vec_fits};
use crate::space::{add_seq, all_fit, dot, dot_fits, ints, scale_seq, Covector, Vector};

verus! {

/// The identity of one scoped access to a bundle. Its lifetime parameter is
/// invariant, so brands of two accesses never unify, and it has no runtime
/// representation.
#[derive(Clone, Copy)]
pub struct Brand<'id> {
    marker: PhantomData<&'id mut &'id ()>,
}

/// A tangent vector at the base point of a bundle, usable only inside the
/// access that produced it.
#[derive(Clone, Copy)]
pub struct TangentVector<'id, const N: usize> {
    raw: [i64; N],
    brand: Brand<'id>,
}

/// A cotangent vector at the base point of a bundle, usable only inside the
/// access that produced it.
#[derive(Clone, Copy)]
pub struct CotangentVector<'id, const N: usize> {
    raw: [i64; N],
    brand: Brand<'id>,
}

impl<'id, const N: usize> View for TangentVector<'id, N> {
    type V = Seq<int>;

    closed spec fn view(&self) -> Seq<int> {
        ints(self.raw)
    }
}

impl<'id, const N: usize> View for CotangentVector<'id, N> {
    type V = Seq<int>;

    closed spec fn view(&self) -> Seq<int> {
        ints(self.raw)
    }
}

impl<'id, const N: usize> TangentVector<'id, N> {
    pub proof fn lemma_len(&self)
        ensures
            self@.len() == N,
    {
    }

    /// The sum of two tangent vectors of the same access.
    pub fn add(&self, other: &TangentVector<'id, N>) -> (r: TangentVector<'id, N>)
        requires
            all_fit(add_seq(self@, other@)),
        ensures
            r@ == add_seq(self@, other@),
    {
        let v = Vector { raw: self.raw }.add(&Vector { raw: other.raw });
        TangentVector { raw: v.raw, brand: self.brand }
    }

    pub fn scale(&self, s: i64) -> (r: TangentVector<'id, N>)
        requires
            all_fit(scale_seq(self@, s as int)),
        ensures
            r@ == scale_seq(self@, s as int),
    {
        let v = Vector { raw: self.raw }.scale(s);
        TangentVector { raw: v.raw, brand: self.brand }
    }

    /// The vector without its brand, which may leave the access.
    pub fn to_raw(&self) -> (r: Vector<N>)
        ensures
            r@ == self@,
    {
        Vector { raw: self.raw }
    }
}

impl<'id> TangentVector<'id, 3> {
    /// The components in a basis: tangent vectors of a flat space are read in
    /// the basis that the chart induces at every point, its own basis.
    pub fn local_in(&self, basis: &Basis) -> (r: [i64; 3])
        requires
            basis@.wf(),
            mat_vec_fits(basis@.dual, self@),
        ensures
            ints(r) == mat_vec(basis@.dual, self@),
    {
        basis.to_local(&Vector { raw: self.raw })
    }
}

impl<'id, const N: usize> CotangentVector<'id, N> {
    pub proof fn lemma_len(&self)
        ensures
            self@.len() == N,
    {
    }

    /// The value of this covector on a tangent vector of the same access.
    pub fn pair_with(&self, v: &TangentVector<'id, N>) -> (r: i64)
        requires
            dot_fits(self@, v@),
        ensures
            r == dot(self@, v@),
    {
        Covector { raw: self.raw }.pair_with(&Vector { raw: v.raw })
    }

    pub fn add(&self, other: &CotangentVector<'id, N>) -> (r: CotangentVector<'id, N>)
        requires
            all_fit(add_seq(self@, other@)),
        ensures
            r@ == add_seq(self@, other@),
    {
        let v = Covector { raw: self.raw }.add(&Covector { raw: other.raw });
        CotangentVector { raw: v.raw, brand: self.brand }
    }

    pub fn to_raw(&self) -> (r: Covector<N>)
        ensures
            r@ == self@,
    {
        Covector { raw: self.raw }
    }
}

/// A point of space with a vector attached to it.
#[derive(Clone, Copy, Debug, PartialEq, Eq)]
pub struct TangentBundle {
    pub point: Point,
    pub vector: Vector<3>,
}

/// A point of space with a covector attached to it.
#[derive(Clone, Copy, Debug, PartialEq, Eq)]
pub struct CotangentBundle {
    pub point: Point,
    pub covector: Covector<3>,
}

impl TangentBundle {
    /// The vector at `point` whose components in `basis` are `components`.
    pub fn from_local(point: Point, basis: &Basis, components: &[i64; 3]) -> (r: TangentBundle)
        requires
            basis@.wf(),
            mat_vec_fits(basis@.matrix(), ints(*components)),
        ensures
            r.point == point,
            r.vector@ == mat_vec(basis@.matrix(), ints(*components)),
    {
        TangentBundle { point, vector: basis.from_local(components) }
    }

    /// Calls `f` once with the attached vector, branded for this call only,
    /// and returns what `f` returns.
    pub fn with_vector<R, F>(&self, f: F) -> (r: R)
        where
            F: for<'id> FnOnce(TangentVector<'id, 3>) -> R,
        requires
            forall|v: TangentVector<3>| v@ == self.vector@ ==> f.requires((v,)),
        ensures
            exists|v: TangentVector<3>| v@ == self.vector@ && f.ensures((v,), r),
    {
        let v = TangentVector { raw: self.vector.raw, brand: Brand { marker: PhantomData } };
        f(v)
    }
}

impl CotangentBundle {
    /// Calls `f` once with the attached covector, branded for this call
    /// only, and returns what `f` returns.
    pub fn with_covector<R, F>(&self, f: F) -> (r: R)
        where
            F: for<'id> FnOnce(CotangentVector<'id, 3>) -> R,
        requires
            forall|v: CotangentVector<3>| v@ == self.covector@ ==> f.requires((v,)),
        ensures
            exists|v: CotangentVector<3>| v@ == self.covector@ && f.ensures((v,), r),
    {
        let v = CotangentVector { raw: self.covector.raw, brand: Brand { marker: PhantomData } };
        f(v)
    }
}

/// Calls `f` once with the vector and the covector of two bundles at the same
/// point under one brand, so that they can be paired.
pub fn with_pair<R, F>(t: &TangentBundle, c: &CotangentBundle, f: F) -> (r: R)
    where
        F: for<'id> FnOnce(TangentVector<'id, 3>, CotangentVector<'id, 3>) -> R,
    requires
        t.point == c.point,
        forall|v: TangentVector<3>, w: CotangentVector<3>|
            v@ == t.vector@ && w@ == c.covector@ ==> f.requires((v, w)),
    ensures
        exists|v: TangentVector<3>, w: CotangentVector<3>|
            v@ == t.vector@ && w@ == c.covector@ && f.ensures((v, w), r),
{
    let v = TangentVector { raw: t.vector.raw, brand: Brand { marker: PhantomData } };
    let w = CotangentVector { raw: c.covector.raw, brand: Brand { marker: PhantomData } };
    f(v, w)
}

} // verus!
