use vstd::prelude::*;
use crate::basis::Point;
use crate::general::GeneralLinearGroup;
use crate::lie::{between, moved, GroupAction, LieGroup, Torsor};
use crate::manifold::{Chart, Manifold};
use crate::matrix::{
    lemma_mat_vec_assoc, lemma_mat_vec_identity, lemma_mat_vec_linear, mat_vec, mat_vec_fits, Mat,
};
use crate::space::{add_seq, all_fit, neg_seq, sub_seq, zeros, Vector};

verus! {

/// An invertible affine map of space: a linear map of the general linear
/// group followed by a translation.
#[derive(Clone, Copy, Debug, PartialEq, Eq)]
pub struct GeneralAffineGroup {
    pub translation: Vector<3>,
    pub linear_transformation: GeneralLinearGroup,
}

pub type Aff = GeneralAffineGroup;

impl View for GeneralAffineGroup {
    type V = (Seq<int>, (Mat, Mat));

    open spec fn view(&self) -> (Seq<int>, (Mat, Mat)) {
        (self.translation@, self.linear_transformation@)
    }
}

impl Manifold for GeneralAffineGroup {
    open spec fn dim() -> nat {
        12
    }

    fn dimension() -> (r: usize) {
        3 * 3 + 3
    }
}

impl LieGroup for GeneralAffineGroup {
    open spec fn element(g: (Seq<int>, (Mat, Mat))) -> bool {
        g.0.len() == 3 && GeneralLinearGroup::element(g.1)
    }

    open spec fn unit() -> (Seq<int>, (Mat, Mat)) {
        (zeros(3), GeneralLinearGroup::unit())
    }

    /// `(t1, A1) (t2, A2) = (t1 + A1 t2, A1 A2)`.
    open spec fn op(a: (Seq<int>, (Mat, Mat)), b: (Seq<int>, (Mat, Mat))) -> (Seq<int>, (Mat, Mat)) {
        (add_seq(a.0, mat_vec(a.1.0, b.0)), GeneralLinearGroup::op(a.1, b.1))
    }

    /// `(t, A)^-1 = (A^-1 (-t), A^-1)`.
    open spec fn inv(a: (Seq<int>, (Mat, Mat))) -> (Seq<int>, (Mat, Mat)) {
        (mat_vec(a.1.1, neg_seq(a.0)), GeneralLinearGroup::inv(a.1))
    }

    open spec fn op_fits(a: (Seq<int>, (Mat, Mat)), b: (Seq<int>, (Mat, Mat))) -> bool {
        &&& mat_vec_fits(a.1.0, b.0)
        &&& all_fit(add_seq(a.0, mat_vec(a.1.0, b.0)))
        &&& GeneralLinearGroup::op_fits(a.1, b.1)
    }

    open spec fn inv_fits(a: (Seq<int>, (Mat, Mat))) -> bool {
        all_fit(neg_seq(a.0)) && mat_vec_fits(a.1.1, neg_seq(a.0))
    }

    proof fn lemma_closed(a: (Seq<int>, (Mat, Mat)), b: (Seq<int>, (Mat, Mat))) {
        GeneralLinearGroup::lemma_closed(a.1, b.1);
    }

    proof fn lemma_associative(
        a: (Seq<int>, (Mat, Mat)),
        b: (Seq<int>, (Mat, Mat)),
        c: (Seq<int>, (Mat, Mat)),
    ) {
        let (t1, m1, t2, m2, t3) = (a.0, a.1.0, b.0, b.1.0, c.0);
        GeneralLinearGroup::lemma_associative(a.1, b.1, c.1);
        lemma_mat_vec_linear(m1, t2, mat_vec(m2, t3));
        lemma_mat_vec_assoc(m1, m2, t3);
        assert(add_seq(add_seq(t1, mat_vec(m1, t2)), mat_vec(crate::matrix::mat_mul(m1, m2), t3))
            =~= add_seq(t1, add_seq(mat_vec(m1, t2), mat_vec(m1, mat_vec(m2, t3)))));
    }

    proof fn lemma_identity(a: (Seq<int>, (Mat, Mat))) {
        GeneralLinearGroup::lemma_identity(a.1);
        lemma_mat_vec_linear(a.1.0, a.0, a.0);
        lemma_mat_vec_identity(a.0);
        assert(add_seq(a.0, zeros(3)) =~= a.0);
        assert(add_seq(zeros(3), a.0) =~= a.0);
    }

    proof fn lemma_inverse(a: (Seq<int>, (Mat, Mat))) {
        let (t, m, n) = (a.0, a.1.0, a.1.1);
        let nt = neg_seq(t);
        GeneralLinearGroup::lemma_inverse(a.1);
        lemma_mat_vec_linear(m, mat_vec(n, nt), t);
        lemma_mat_vec_assoc(m, n, nt);
        lemma_mat_vec_identity(nt);
        lemma_mat_vec_linear(n, nt, t);
        lemma_mat_vec_assoc(n, m, t);
        lemma_mat_vec_identity(t);
        lemma_mat_vec_linear(n, t, t);
        assert(add_seq(t, nt) =~= zeros(3));
        assert(neg_seq(nt) =~= t);
        assert(add_seq(mat_vec(n, nt), mat_vec(n, t)) =~= zeros(3));
    }

    fn identity() -> (r: Self) {
        GeneralAffineGroup {
            translation: Vector::zero(),
            linear_transformation: GeneralLinearGroup::identity(),
        }
    }

    fn multiply(&self, other: &Self) -> (r: Self) {
        let moved = self.linear_transformation.apply(&other.translation);
        GeneralAffineGroup {
            translation: self.translation.add(&moved),
            linear_transformation: self.linear_transformation.multiply(&other.linear_transformation),
        }
    }

    fn inverse(&self) -> (r: Self) {
        let back = self.linear_transformation.inverse();
        let z = Vector::<3>::zero();
        proof {
            assert(sub_seq(z@, self@.0) =~= neg_seq(self@.0));
        }
        let n = self.translation.difference(&z);
        GeneralAffineGroup { translation: back.apply(&n), linear_transformation: back }
    }
}

/// An affine map read as a chart: the point with coordinates `c` is
/// `t + A c`.
impl Chart<Point, 3> for GeneralAffineGroup {
    open spec fn chart_valid(&self) -> bool {
        GeneralAffineGroup::element(self@)
    }

    open spec fn in_domain(&self, p: Seq<int>) -> bool {
        p.len() == 3
    }

    open spec fn local(&self, p: Seq<int>) -> Seq<int> {
        mat_vec(self@.1.1, between::<Vector<3>>(self@.0, p))
    }

    open spec fn global(&self, c: Seq<int>) -> Seq<int> {
        moved::<Vector<3>>(self@.0, mat_vec(self@.1.0, c))
    }

    open spec fn to_local_fits(&self, p: Seq<int>) -> bool {
        &&& all_fit(neg_seq(self@.0))
        &&& all_fit(between::<Vector<3>>(self@.0, p))
        &&& mat_vec_fits(self@.1.1, between::<Vector<3>>(self@.0, p))
    }

    open spec fn from_local_fits(&self, c: Seq<int>) -> bool {
        &&& mat_vec_fits(self@.1.0, c)
        &&& all_fit(moved::<Vector<3>>(self@.0, mat_vec(self@.1.0, c)))
    }

    proof fn lemma_round_trip(&self, c: Seq<int>, p: Seq<int>) {
        let (t, m, n) = (self@.0, self@.1.0, self@.1.1);
        let g = mat_vec(m, c);
        crate::lie::torsor_round_trip::<Vector<3>>(t, p);
        assert(between::<Vector<3>>(t, moved::<Vector<3>>(t, g)) =~= g);
        lemma_mat_vec_assoc(n, m, c);
        lemma_mat_vec_identity(c);
        lemma_mat_vec_assoc(m, n, between::<Vector<3>>(t, p));
        lemma_mat_vec_identity(between::<Vector<3>>(t, p));
    }

    fn to_local(&self, point: &Point) -> (r: [i64; 3]) {
        let origin = Torsor { from_origin: self.translation };
        let v = origin.difference(point);
        self.linear_transformation.inverse().apply(&v).raw
    }

    fn from_local(&self, components: &[i64; 3]) -> (r: Point) {
        let v = self.linear_transformation.apply(&Vector { raw: *components });
        Torsor { from_origin: self.translation }.act(&v)
    }
}

} // verus!
