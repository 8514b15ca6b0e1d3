use vstd::prelude::*;
use crate::basis::{AffineFrame, Basis, Point};
use crate::lie::{GroupAction, LieGroup, Torsor};
use crate::manifold::{fits, Chart, Manifold};
use crate::matrix::{
    identity_mat, is_mat, lemma_mat_vec_assoc, lemma_mat_vec_identity, lemma_mat_vec_linear,
    lemma_mul_assoc, lemma_mul_identity, lemma_transpose_mul, mat_mul, mat_vec, mat_vec_fits,
    mul_fits, transpose, Mat, Matrix3,
};
use crate::orthogonal::{is_rotation, lemma_identity_rotation, turned, SpecialOrthogonalGroup2D, SpecialOrthogonalGroup3D, SpecialOrthogonalGroup, U2, U3};
use crate::space::{add_seq, all_fit, ints, neg_seq, sub_seq, zeros, Covector, Vector};
use crate::basis::{columns_matrix, covector_models, vector_models};
use crate::algebra::lemma_swapped_factors;

verus! {

pub proof fn lemma_turned_linear(k: int, u: Seq<int>, v: Seq<int>)
    requires
        u.len() == 2,
        v.len() == 2,
    ensures
        turned(k, add_seq(u, v)) == add_seq(turned(k, u), turned(k, v)),
        turned(k, neg_seq(u)) == neg_seq(turned(k, u)),
        turned(k, zeros(2)) == zeros(2),
        turned(k, u).len() == 2,
{
    assert(turned(k, add_seq(u, v)) =~= add_seq(turned(k, u), turned(k, v)));
    assert(turned(k, neg_seq(u)) =~= neg_seq(turned(k, u)));
    assert(turned(k, zeros(2)) =~= zeros(2));
}

/// A motion of the plane: a rotation followed by a translation.
#[derive(Clone, Copy, Debug, PartialEq, Eq)]
pub struct SpecialEuclideanGroup2D {
    pub translation: Vector<2>,
    pub rotation: SpecialOrthogonalGroup2D,
}

impl View for SpecialEuclideanGroup2D {
    type V = (Seq<int>, int);

    open spec fn view(&self) -> (Seq<int>, int) {
        (self.translation@, self.rotation@)
    }
}

impl LieGroup for SpecialEuclideanGroup2D {
    open spec fn element(g: (Seq<int>, int)) -> bool {
        g.0.len() == 2
    }

    open spec fn unit() -> (Seq<int>, int) {
        (zeros(2), 0)
    }

    /// `(t1, a1) (t2, a2) = (t1 + R(a1) t2, a1 + a2)`.
    open spec fn op(a: (Seq<int>, int), b: (Seq<int>, int)) -> (Seq<int>, int) {
        (add_seq(a.0, turned(a.1, b.0)), a.1 + b.1)
    }

    /// `(t, a)^-1 = (R(-a) (-t), -a)`.
    open spec fn inv(a: (Seq<int>, int)) -> (Seq<int>, int) {
        (turned(-a.1, neg_seq(a.0)), -a.1)
    }

    open spec fn op_fits(a: (Seq<int>, int), b: (Seq<int>, int)) -> bool {
        &&& all_fit(turned(a.1, b.0))
        &&& all_fit(add_seq(a.0, turned(a.1, b.0)))
        &&& fits(a.1 + b.1)
    }

    open spec fn inv_fits(a: (Seq<int>, int)) -> bool {
        all_fit(neg_seq(a.0)) && fits(-a.1)
    }

    proof fn lemma_closed(a: (Seq<int>, int), b: (Seq<int>, int)) {
        lemma_turned_linear(a.1, b.0, b.0);
        lemma_turned_linear(-a.1, neg_seq(a.0), a.0);
    }

    proof fn lemma_associative(a: (Seq<int>, int), b: (Seq<int>, int), c: (Seq<int>, int)) {
        let (t1, k1, t2, k2, t3, k3) = (a.0, a.1, b.0, b.1, c.0, c.1);
        lemma_turned_linear(k1, t2, turned(k2, t3));
        lemma_turned_linear(k2, t3, t3);
        <SpecialOrthogonalGroup2D as GroupAction<Vector<2>>>::lemma_action(k1, k2, t3);
        assert(add_seq(add_seq(t1, turned(k1, t2)), turned(k1 + k2, t3)) =~= add_seq(
            t1,
            add_seq(turned(k1, t2), turned(k1, turned(k2, t3))),
        ));
    }

    proof fn lemma_identity(a: (Seq<int>, int)) {
        lemma_turned_linear(a.1, a.0, a.0);
        <SpecialOrthogonalGroup2D as GroupAction<Vector<2>>>::lemma_action(0, 0, a.0);
        assert(add_seq(a.0, zeros(2)) =~= a.0);
        assert(add_seq(zeros(2), a.0) =~= a.0);
    }

    proof fn lemma_inverse(a: (Seq<int>, int)) {
        let (t, k) = (a.0, a.1);
        let n = neg_seq(t);
        lemma_turned_linear(-k, n, t);
        lemma_turned_linear(k, t, t);
        <SpecialOrthogonalGroup2D as GroupAction<Vector<2>>>::lemma_action(k, -k, n);
        <SpecialOrthogonalGroup2D as GroupAction<Vector<2>>>::lemma_action(0, 0, n);
        assert(add_seq(t, n) =~= zeros(2));
        assert(add_seq(n, t) =~= zeros(2));
        assert(add_seq(turned(-k, n), turned(-k, t)) == turned(-k, add_seq(n, t)));
    }

    fn identity() -> (r: Self) {
        SpecialEuclideanGroup2D { translation: Vector::zero(), rotation: SpecialOrthogonalGroup2D { quarter_turns: 0 } }
    }

    fn multiply(&self, other: &Self) -> (r: Self) {
        let moved = self.rotation.act_on(&other.translation);
        proof {
            lemma_turned_linear(self@.1, other@.0, other@.0);
        }
        SpecialEuclideanGroup2D {
            translation: self.translation.add(&moved),
            rotation: self.rotation.multiply(&other.rotation),
        }
    }

    fn inverse(&self) -> (r: Self) {
        let back = self.rotation.inverse();
        let z = Vector::<2>::zero();
        proof {
            assert(crate::space::sub_seq(z@, self@.0) =~= neg_seq(self@.0));
            assert(neg_seq(neg_seq(self@.0)) =~= self@.0);
        }
        let n = self.translation.difference(&z);
        proof {
            let t = self@.0;
            assert(t[0] == self.translation.raw[0] && t[1] == self.translation.raw[1]);
            assert(fits(neg_seq(t)[0]) && fits(neg_seq(t)[1]));
            assert(n@ == neg_seq(t));
            let u = turned(-self@.1, n@);
            assert forall|i: int| 0 <= i < 2 implies fits(#[trigger] u[i]) by {
                assert(fits(t[0]) && fits(t[1]) && fits(-t[0]) && fits(-t[1]));
                assert(n@[0] == -t[0] && n@[1] == -t[1]);
            }
        }
        SpecialEuclideanGroup2D { translation: back.act_on(&n), rotation: back }
    }
}

/// A motion of space: a rotation followed by a translation.
#[derive(Clone, Copy, Debug, PartialEq, Eq)]
pub struct SpecialEuclideanGroup3D {
    pub translation: Vector<3>,
    pub rotation: SpecialOrthogonalGroup3D,
}

impl View for SpecialEuclideanGroup3D {
    type V = (Seq<int>, Mat);

    open spec fn view(&self) -> (Seq<int>, Mat) {
        (self.translation@, self.rotation@)
    }
}

impl LieGroup for SpecialEuclideanGroup3D {
    open spec fn element(g: (Seq<int>, Mat)) -> bool {
        g.0.len() == 3 && is_rotation(g.1)
    }

    open spec fn unit() -> (Seq<int>, Mat) {
        (zeros(3), identity_mat())
    }

    /// `(t1, R1) (t2, R2) = (t1 + R1 t2, R1 R2)`.
    open spec fn op(a: (Seq<int>, Mat), b: (Seq<int>, Mat)) -> (Seq<int>, Mat) {
        (add_seq(a.0, mat_vec(a.1, b.0)), mat_mul(a.1, b.1))
    }

    /// `(t, R)^-1 = (R^T (-t), R^T)`.
    open spec fn inv(a: (Seq<int>, Mat)) -> (Seq<int>, Mat) {
        (mat_vec(transpose(a.1), neg_seq(a.0)), transpose(a.1))
    }

    open spec fn op_fits(a: (Seq<int>, Mat), b: (Seq<int>, Mat)) -> bool {
        &&& mat_vec_fits(a.1, b.0)
        &&& all_fit(add_seq(a.0, mat_vec(a.1, b.0)))
        &&& mul_fits(a.1, b.1)
    }

    open spec fn inv_fits(a: (Seq<int>, Mat)) -> bool {
        all_fit(neg_seq(a.0)) && mat_vec_fits(transpose(a.1), neg_seq(a.0))
    }

    proof fn lemma_closed(a: (Seq<int>, Mat), b: (Seq<int>, Mat)) {
        SpecialOrthogonalGroup3D::lemma_closed(a.1, b.1);
    }

    proof fn lemma_associative(a: (Seq<int>, Mat), b: (Seq<int>, Mat), c: (Seq<int>, Mat)) {
        let (t1, r1, t2, r2, t3, r3) = (a.0, a.1, b.0, b.1, c.0, c.1);
        lemma_mul_assoc(r1, r2, r3);
        lemma_mat_vec_linear(r1, t2, mat_vec(r2, t3));
        lemma_mat_vec_assoc(r1, r2, t3);
        assert(add_seq(add_seq(t1, mat_vec(r1, t2)), mat_vec(mat_mul(r1, r2), t3)) =~= add_seq(
            t1,
            add_seq(mat_vec(r1, t2), mat_vec(r1, mat_vec(r2, t3))),
        ));
    }

    proof fn lemma_identity(a: (Seq<int>, Mat)) {
        lemma_mul_identity(a.1);
        lemma_mat_vec_linear(a.1, a.0, a.0);
        lemma_mat_vec_identity(a.0);
        assert(add_seq(a.0, zeros(3)) =~= a.0);
        assert(add_seq(zeros(3), a.0) =~= a.0);
    }

    proof fn lemma_inverse(a: (Seq<int>, Mat)) {
        let (t, r) = (a.0, a.1);
        let rt = transpose(r);
        let n = neg_seq(t);
        lemma_transpose_mul(r, r);
        lemma_mat_vec_linear(r, mat_vec(rt, n), t);
        lemma_mat_vec_assoc(r, rt, n);
        lemma_mat_vec_identity(n);
        lemma_mat_vec_linear(rt, n, t);
        lemma_mat_vec_assoc(rt, r, t);
        lemma_mat_vec_identity(t);
        lemma_mat_vec_linear(rt, t, t);
        assert(add_seq(t, n) =~= zeros(3));
        assert(neg_seq(n) =~= t);
        assert(add_seq(mat_vec(rt, n), mat_vec(rt, t)) =~= zeros(3));
    }

    fn identity() -> (r: Self) {
        SpecialEuclideanGroup3D { translation: Vector::zero(), rotation: SpecialOrthogonalGroup3D::identity() }
    }

    fn multiply(&self, other: &Self) -> (r: Self) {
        let moved = Vector { raw: self.rotation.matrix.mul_vec(&other.translation.raw) };
        SpecialEuclideanGroup3D {
            translation: self.translation.add(&moved),
            rotation: self.rotation.multiply(&other.rotation),
        }
    }

    fn inverse(&self) -> (r: Self) {
        let back = self.rotation.matrix.transpose();
        let z = Vector::<3>::zero();
        proof {
            assert(crate::space::sub_seq(z@, self@.0) =~= neg_seq(self@.0));
        }
        let n = self.translation.difference(&z);
        SpecialEuclideanGroup3D {
            translation: Vector { raw: back.mul_vec(&n.raw) },
            rotation: SpecialOrthogonalGroup3D { matrix: back },
        }
    }
}

/// Motions move points of space.
impl GroupAction<Point> for SpecialEuclideanGroup3D {
    open spec fn on_space(x: Seq<int>) -> bool {
        x.len() == 3
    }

    open spec fn action(g: (Seq<int>, Mat), x: Seq<int>) -> Seq<int> {
        add_seq(g.0, mat_vec(g.1, x))
    }

    open spec fn action_fits(g: (Seq<int>, Mat), x: Seq<int>) -> bool {
        mat_vec_fits(g.1, x) && all_fit(add_seq(g.0, mat_vec(g.1, x)))
    }

    proof fn lemma_action(g: (Seq<int>, Mat), h: (Seq<int>, Mat), x: Seq<int>) {
        lemma_mat_vec_identity(x);
        assert(add_seq(zeros(3), x) =~= x);
        lemma_mat_vec_assoc(g.1, h.1, x);
        lemma_mat_vec_linear(g.1, h.0, mat_vec(h.1, x));
        assert(add_seq(add_seq(g.0, mat_vec(g.1, h.0)), mat_vec(mat_mul(g.1, h.1), x)) =~= add_seq(
            g.0,
            add_seq(mat_vec(g.1, h.0), mat_vec(g.1, mat_vec(h.1, x))),
        ));
    }

    fn act_on(&self, point: &Point) -> (r: Point) {
        let turned = Vector { raw: self.rotation.matrix.mul_vec(&point.from_origin.raw) };
        Torsor { from_origin: self.translation.add(&turned) }
    }
}

/// The dimension of the motion group of a space of dimension `n`:
/// `n * (n - 1) / 2 + n`.
pub trait DimOfSE {
    spec fn motion_dim() -> nat;

    fn dimension_of_motions() -> (r: usize)
        ensures
            r == Self::motion_dim(),
    ;
}

/// How the motions of a dimension are represented.
pub trait SERepr: DimOfSE {
    type Repr: LieGroup + Copy;
}

impl SERepr for U2 {
    type Repr = SpecialEuclideanGroup2D;
}

impl DimOfSE for U2 {
    open spec fn motion_dim() -> nat {
        3
    }

    fn dimension_of_motions() -> (r: usize) {
        2 * (2 - 1) / 2 + 2
    }
}

impl SERepr for U3 {
    type Repr = SpecialEuclideanGroup3D;
}

impl DimOfSE for U3 {
    open spec fn motion_dim() -> nat {
        6
    }

    fn dimension_of_motions() -> (r: usize) {
        3 * (3 - 1) / 2 + 3
    }
}

/// The special Euclidean group: the rigid motions of the plane (`U2`) or of
/// space (`U3`).
#[derive(Clone, Copy)]
pub struct SpecialEuclideanGroup<D: SERepr> {
    pub repr: D::Repr,
}

pub type SE<D> = SpecialEuclideanGroup<D>;

pub type Motion2D = SpecialEuclideanGroup<U2>;

pub type Motion3D = SpecialEuclideanGroup<U3>;

impl<D: SERepr> View for SpecialEuclideanGroup<D> {
    type V = <D::Repr as View>::V;

    open spec fn view(&self) -> Self::V {
        self.repr@
    }
}

impl<D: SERepr> Manifold for SpecialEuclideanGroup<D> {
    open spec fn dim() -> nat {
        D::motion_dim()
    }

    fn dimension() -> (r: usize) {
        D::dimension_of_motions()
    }
}

impl<D: SERepr> LieGroup for SpecialEuclideanGroup<D> {
    open spec fn element(g: Self::V) -> bool {
        D::Repr::element(g)
    }

    open spec fn unit() -> Self::V {
        D::Repr::unit()
    }

    open spec fn op(a: Self::V, b: Self::V) -> Self::V {
        D::Repr::op(a, b)
    }

    open spec fn inv(a: Self::V) -> Self::V {
        D::Repr::inv(a)
    }

    open spec fn op_fits(a: Self::V, b: Self::V) -> bool {
        D::Repr::op_fits(a, b)
    }

    open spec fn inv_fits(a: Self::V) -> bool {
        D::Repr::inv_fits(a)
    }

    proof fn lemma_closed(a: Self::V, b: Self::V) {
        D::Repr::lemma_closed(a, b);
    }

    proof fn lemma_associative(a: Self::V, b: Self::V, c: Self::V) {
        D::Repr::lemma_associative(a, b, c);
    }

    proof fn lemma_identity(a: Self::V) {
        D::Repr::lemma_identity(a);
    }

    proof fn lemma_inverse(a: Self::V) {
        D::Repr::lemma_inverse(a);
    }

    fn identity() -> (r: Self) {
        SpecialEuclideanGroup { repr: D::Repr::identity() }
    }

    fn multiply(&self, other: &Self) -> (r: Self) {
        SpecialEuclideanGroup { repr: self.repr.multiply(&other.repr) }
    }

    fn inverse(&self) -> (r: Self) {
        SpecialEuclideanGroup { repr: self.repr.inverse() }
    }
}

impl SpecialEuclideanGroup<U3> {
    /// The rotation `r` about the point `center`: it moves `p` to
    /// `center + r (p - center)`, so its translation is `center - r center`.
    pub fn from_rotation(r: &SpecialOrthogonalGroup<U3>, center: &Point) -> (m: Self)
        requires
            mat_vec_fits(r@, center@),
            all_fit(sub_seq(center@, mat_vec(r@, center@))),
        ensures
            m@ == (sub_seq(center@, mat_vec(r@, center@)), r@),
    {
        let turned = Vector { raw: r.repr.matrix.mul_vec(&center.from_origin.raw) };
        let t = turned.difference(&center.from_origin);
        SpecialEuclideanGroup { repr: SpecialEuclideanGroup3D { translation: t, rotation: r.repr } }
    }

    pub fn translation(&self) -> (t: Vector<3>)
        ensures
            t@ == self@.0,
    {
        self.repr.translation
    }

    pub fn rotation(&self) -> (r: SpecialOrthogonalGroup<U3>)
        ensures
            r@ == self@.1,
    {
        SpecialOrthogonalGroup { repr: self.repr.rotation }
    }
}

impl GroupAction<Point> for SpecialEuclideanGroup<U3> {
    open spec fn on_space(x: Seq<int>) -> bool {
        x.len() == 3
    }

    open spec fn action(g: (Seq<int>, Mat), x: Seq<int>) -> Seq<int> {
        add_seq(g.0, mat_vec(g.1, x))
    }

    open spec fn action_fits(g: (Seq<int>, Mat), x: Seq<int>) -> bool {
        mat_vec_fits(g.1, x) && all_fit(add_seq(g.0, mat_vec(g.1, x)))
    }

    proof fn lemma_action(g: (Seq<int>, Mat), h: (Seq<int>, Mat), x: Seq<int>) {
        <SpecialEuclideanGroup3D as GroupAction<Point>>::lemma_action(g, h, x);
    }

    fn act_on(&self, point: &Point) -> (r: Point) {
        self.repr.act_on(point)
    }
}

/// The frame moved by `m` is representable.
pub open spec fn frame_move_fits(m: (Seq<int>, Mat), f: AffineFrame) -> bool {
    &&& mat_vec_fits(m.1, f.origin@)
    &&& all_fit(add_seq(m.0, mat_vec(m.1, f.origin@)))
    &&& forall|i: int| 0 <= i < 3 ==> mat_vec_fits(m.1, #[trigger] f.basis@.vectors[i])
    &&& forall|i: int| 0 <= i < 3 ==> mat_vec_fits(m.1, #[trigger] f.basis@.dual[i])
}

impl AffineFrame {
    /// The frame carried by the motion `m`: its origin is moved by `m`, its
    /// basis vectors are turned by the rotation of `m`, and so are the
    /// coordinates of its dual covectors, which for a rotation is transport by
    /// the inverse transpose.
    pub fn act(&self, m: &Motion3D) -> (r: AffineFrame)
        requires
            Motion3D::element(m@),
            self.basis@.wf(),
            self.origin@.len() == 3,
            frame_move_fits(m@, *self),
        ensures
            r.origin@ == add_seq(m@.0, mat_vec(m@.1, self.origin@)),
            r.basis@.matrix() == mat_mul(m@.1, self.basis@.matrix()),
            r.basis@.dual == mat_mul(self.basis@.dual, transpose(m@.1)),
            r.basis@.wf(),
    {
        let rot = m.repr.rotation.matrix;
        let b = self.basis;
        assert(mat_vec_fits(m@.1, b@.vectors[0]) && mat_vec_fits(m@.1, b@.vectors[1]) && mat_vec_fits(m@.1, b@.vectors[2]));
        assert(mat_vec_fits(m@.1, b@.dual[0]) && mat_vec_fits(m@.1, b@.dual[1]) && mat_vec_fits(m@.1, b@.dual[2]));
        let vectors = [
            Vector { raw: rot.mul_vec(&b.vectors[0].raw) },
            Vector { raw: rot.mul_vec(&b.vectors[1].raw) },
            Vector { raw: rot.mul_vec(&b.vectors[2].raw) },
        ];
        let dual = [
            Covector { raw: rot.mul_vec(&b.dual[0].raw) },
            Covector { raw: rot.mul_vec(&b.dual[1].raw) },
            Covector { raw: rot.mul_vec(&b.dual[2].raw) },
        ];
        let origin = m.act_on(&self.origin);
        let r = AffineFrame { origin, basis: Basis { vectors, dual } };
        proof {
            let rm = m@.1;
            let bm = b@.matrix();
            let dm = b@.dual;
            let rt = transpose(rm);
            assert forall|i: int, j: int| 0 <= i < 3 && 0 <= j < 3 implies r.basis@.matrix()[i][j]
                == mat_mul(rm, bm)[i][j] && r.basis@.dual[i][j] == mat_mul(dm, rt)[i][j] by {
                assert(r.basis@.vectors[j] == mat_vec(rm, b@.vectors[j]));
                assert(r.basis@.dual[i] == mat_vec(rm, b@.dual[i]));
                lemma_swapped_factors(rm[j][0], rm[j][1], rm[j][2], dm[i][0], dm[i][1], dm[i][2]);
            }
            assert(r.basis@.matrix() =~~= mat_mul(rm, bm));
            assert(r.basis@.dual =~~= mat_mul(dm, rt));
            lemma_transpose_mul(rm, rm);
            lemma_mul_assoc(dm, rt, mat_mul(rm, bm));
            lemma_mul_assoc(rt, rm, bm);
            lemma_mul_identity(bm);
            lemma_mul_assoc(rm, bm, mat_mul(dm, rt));
            lemma_mul_assoc(bm, dm, rt);
            lemma_mul_identity(rt);
        }
        r
    }
}

/// A motion of the plane read as a chart: the point with coordinates `c` is
/// `t + R(a) c`.
impl Chart<Vector<2>, 2> for SpecialEuclideanGroup2D {
    open spec fn chart_valid(&self) -> bool {
        self@.0.len() == 2
    }

    open spec fn in_domain(&self, p: Seq<int>) -> bool {
        p.len() == 2
    }

    open spec fn local(&self, p: Seq<int>) -> Seq<int> {
        turned(-self@.1, sub_seq(p, self@.0))
    }

    open spec fn global(&self, c: Seq<int>) -> Seq<int> {
        add_seq(self@.0, turned(self@.1, c))
    }

    open spec fn to_local_fits(&self, p: Seq<int>) -> bool {
        all_fit(sub_seq(p, self@.0)) && all_fit(turned(-self@.1, sub_seq(p, self@.0))) && fits(-self@.1)
    }

    open spec fn from_local_fits(&self, c: Seq<int>) -> bool {
        all_fit(turned(self@.1, c)) && all_fit(add_seq(self@.0, turned(self@.1, c)))
    }

    proof fn lemma_round_trip(&self, c: Seq<int>, p: Seq<int>) {
        let (t, k) = (self@.0, self@.1);
        let d = sub_seq(p, t);
        lemma_turned_linear(k, c, c);
        assert(sub_seq(add_seq(t, turned(k, c)), t) =~= turned(k, c));
        <SpecialOrthogonalGroup2D as GroupAction<Vector<2>>>::lemma_action(-k, k, c);
        <SpecialOrthogonalGroup2D as GroupAction<Vector<2>>>::lemma_action(k, -k, d);
        <SpecialOrthogonalGroup2D as GroupAction<Vector<2>>>::lemma_action(0, 0, d);
        assert(add_seq(t, d) =~= p);
    }

    fn to_local(&self, point: &Vector<2>) -> (r: [i64; 2]) {
        let d = self.translation.difference(point);
        self.rotation.inverse().act_on(&d).raw
    }

    fn from_local(&self, components: &[i64; 2]) -> (r: Vector<2>) {
        let v = self.rotation.act_on(&Vector { raw: *components });
        self.translation.add(&v)
    }
}

/// A motion of space read as a chart: the point with coordinates `c` is
/// `t + R c`.
impl Chart<Point, 3> for SpecialEuclideanGroup3D {
    open spec fn chart_valid(&self) -> bool {
        SpecialEuclideanGroup3D::element(self@)
    }

    open spec fn in_domain(&self, p: Seq<int>) -> bool {
        p.len() == 3
    }

    open spec fn local(&self, p: Seq<int>) -> Seq<int> {
        mat_vec(transpose(self@.1), sub_seq(p, self@.0))
    }

    open spec fn global(&self, c: Seq<int>) -> Seq<int> {
        add_seq(self@.0, mat_vec(self@.1, c))
    }

    open spec fn to_local_fits(&self, p: Seq<int>) -> bool {
        all_fit(sub_seq(p, self@.0)) && mat_vec_fits(transpose(self@.1), sub_seq(p, self@.0))
    }

    open spec fn from_local_fits(&self, c: Seq<int>) -> bool {
        mat_vec_fits(self@.1, c) && all_fit(add_seq(self@.0, mat_vec(self@.1, c)))
    }

    proof fn lemma_round_trip(&self, c: Seq<int>, p: Seq<int>) {
        let (t, r) = (self@.0, self@.1);
        let d = sub_seq(p, t);
        assert(sub_seq(add_seq(t, mat_vec(r, c)), t) =~= mat_vec(r, c));
        lemma_mat_vec_assoc(transpose(r), r, c);
        lemma_mat_vec_identity(c);
        lemma_mat_vec_assoc(r, transpose(r), d);
        lemma_mat_vec_identity(d);
        assert(add_seq(t, d) =~= p);
    }

    fn to_local(&self, point: &Point) -> (r: [i64; 3]) {
        let d = self.translation.difference(&point.from_origin);
        self.rotation.matrix.transpose().mul_vec(&d.raw)
    }

    fn from_local(&self, components: &[i64; 3]) -> (r: Point) {
        let v = Vector { raw: self.rotation.matrix.mul_vec(components) };
        Torsor { from_origin: self.translation.add(&v) }
    }
}

} // verus!
