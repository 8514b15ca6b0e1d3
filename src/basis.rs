use vstd::prelude::*;
use crate::general::{
    adjugate_and_det, integer_inverse, inversion_error, is_small_mat, lemma_integer_inverse, small_mat,
    GeneralLinearGroup, LinearError,
};
use crate::lie::{between, moved, GroupAction, LieGroup, Torsor};
use crate::manifold::Chart;
use crate::matrix::{
    adjugate, det, lemma_adjugate, lemma_entries, scale_mat,
    identity_mat, is_mat, lemma_dot3, lemma_mul_identity, lemma_mat_vec_assoc, lemma_mat_vec_identity,
    lemma_view_is_mat, mat_mul, mat_vec, mat_vec_fits, transpose, Mat, Matrix3,
};
use crate::space::{add_seq, all_fit, dot, ints, sub_seq, zeros, Covector, Vector};

verus! {

/// The matrix whose columns are the given vectors.
pub open spec fn columns_matrix(vectors: Seq<Seq<int>>) -> Mat {
    transpose(vectors)
}

/// `1` on the diagonal, `0` elsewhere.
pub open spec fn kronecker(i: int, j: int) -> int {
    if i == j {
        1
    } else {
        0
    }
}

pub open spec fn vector_models(v: [Vector<3>; 3]) -> Seq<Seq<int>> {
    Seq::new(3, |i: int| v[i]@)
}

pub open spec fn covector_models(d: [Covector<3>; 3]) -> Seq<Seq<int>> {
    Seq::new(3, |i: int| d[i]@)
}

/// The dual basis of a basis, over a common denominator: the covector
/// `covectors[i] / denominator` pairs to `1` with the basis vector of index
/// `i` and to `0` with the others.
#[derive(Clone, Copy, Debug, PartialEq, Eq)]
pub struct DualBasis {
    pub covectors: [Covector<3>; 3],
    pub denominator: i128,
}

/// The dual basis of the vectors, as the rows of the adjugate of the matrix
/// whose columns are the vectors over its determinant (the inverse of that
/// matrix, read by rows). Fails exactly on singular bases, and on bases with
/// an entry outside `[-COORD_LIMIT, COORD_LIMIT]`.
pub fn dual_basis(basis: &[Vector<3>; 3]) -> (r: Result<DualBasis, LinearError>)
    ensures
        match r {
            Ok(d) => small_mat(columns_matrix(vector_models(*basis))) && det(
                columns_matrix(vector_models(*basis)),
            ) != 0 && covector_models(d.covectors) == adjugate(columns_matrix(vector_models(*basis)))
                && d.denominator == det(columns_matrix(vector_models(*basis))),
            Err(e) => (e == LinearError::OutOfRange && !small_mat(columns_matrix(vector_models(*basis))))
                || (e == LinearError::Singular && small_mat(columns_matrix(vector_models(*basis)))
                && det(columns_matrix(vector_models(*basis))) == 0),
        },
{
    let m = Matrix3::from_columns(&[basis[0].raw, basis[1].raw, basis[2].raw]);
    assert(Seq::new(3, |i: int| ints([basis[0].raw, basis[1].raw, basis[2].raw][i]))
        =~= vector_models(*basis));
    if !is_small_mat(&m) {
        return Err(LinearError::OutOfRange);
    }
    let (adj, d) = adjugate_and_det(&m);
    if d == 0 {
        return Err(LinearError::Singular);
    }
    let covectors = [
        Covector { raw: adj.rows[0] },
        Covector { raw: adj.rows[1] },
        Covector { raw: adj.rows[2] },
    ];
    assert(covector_models(covectors) =~= adj@);
    Ok(DualBasis { covectors, denominator: d })
}

/// The dual basis with integer coordinates of a basis of determinant `1` or
/// `-1`: the rows of the inverse of the matrix of the basis.
fn unimodular_dual(basis: &[Vector<3>; 3]) -> (r: Result<[Covector<3>; 3], LinearError>)
    ensures
        match r {
            Ok(d) => inversion_error(columns_matrix(vector_models(*basis))) is None
                && covector_models(d) == integer_inverse(columns_matrix(vector_models(*basis))),
            Err(e) => inversion_error(columns_matrix(vector_models(*basis))) == Some(e),
        },
{
    let m = Matrix3::from_columns(&[basis[0].raw, basis[1].raw, basis[2].raw]);
    assert(Seq::new(3, |i: int| ints([basis[0].raw, basis[1].raw, basis[2].raw][i]))
        =~= vector_models(*basis));
    let g = GeneralLinearGroup::from_matrix(m)?;
    let n = g.inverse_matrix();
    let d = [Covector { raw: n.rows[0] }, Covector { raw: n.rows[1] }, Covector { raw: n.rows[2] }];
    assert(covector_models(d) =~= n@);
    Ok(d)
}

/// The dual basis that `dual_basis` computes pairs, over its denominator, to
/// `1` with the basis vector of the same index and to `0` with the others:
/// the numerators pair to the determinant times the Kronecker delta.
pub proof fn dual_basis_orthogonality(basis: Seq<Seq<int>>, dual: Seq<Seq<int>>)
    requires
        basis.len() == 3,
        forall|i: int| 0 <= i < 3 ==> (#[trigger] basis[i]).len() == 3,
        dual == adjugate(columns_matrix(basis)),
    ensures
        forall|i: int, j: int|
            0 <= i < 3 && 0 <= j < 3 ==> dot(#[trigger] dual[i], #[trigger] basis[j]) == det(
                columns_matrix(basis),
            ) * kronecker(i, j),
{
    let b = columns_matrix(basis);
    assert(is_mat(b));
    lemma_adjugate(b);
    lemma_entries(
        b[1][1] * b[2][2] - b[1][2] * b[2][1],
        b[0][2] * b[2][1] - b[0][1] * b[2][2],
        b[0][1] * b[1][2] - b[0][2] * b[1][1],
        b[1][2] * b[2][0] - b[1][0] * b[2][2],
        b[0][0] * b[2][2] - b[0][2] * b[2][0],
        b[0][2] * b[1][0] - b[0][0] * b[1][2],
        b[1][0] * b[2][1] - b[1][1] * b[2][0],
        b[0][1] * b[2][0] - b[0][0] * b[2][1],
        b[0][0] * b[1][1] - b[0][1] * b[1][0],
    );
    let e = identity_mat();
    let s = crate::matrix::scale_mat(e, det(b));
    assert(mat_mul(dual, b) == s);
    assert forall|i: int, j: int| 0 <= i < 3 && 0 <= j < 3 implies dot(
        #[trigger] dual[i],
        #[trigger] basis[j],
    ) == det(b) * kronecker(i, j) by {
        lemma_dot3(dual[i], basis[j]);
        assert(s[i][j] == e[i][j] * det(b));
        assert(mat_mul(dual, b)[i][j] == s[i][j]);
        assert(mat_mul(dual, b)[i][j] == dual[i][0] * basis[j][0] + dual[i][1] * basis[j][1] + dual[i][2] * basis[j][2]);
        vstd::arithmetic::mul::lemma_mul_basics(det(b));
        if i == j {
            assert(e[i][j] == 1);
        } else {
            assert(e[i][j] == 0);
        }
    }
}

proof fn lemma_adjugate_is_mat(b: Mat)
    ensures
        is_mat(adjugate(b)),
{
    lemma_entries(
        b[1][1] * b[2][2] - b[1][2] * b[2][1],
        b[0][2] * b[2][1] - b[0][1] * b[2][2],
        b[0][1] * b[1][2] - b[0][2] * b[1][1],
        b[1][2] * b[2][0] - b[1][0] * b[2][2],
        b[0][0] * b[2][2] - b[0][2] * b[2][0],
        b[0][2] * b[1][0] - b[0][0] * b[1][2],
        b[1][0] * b[2][1] - b[1][1] * b[2][0],
        b[0][1] * b[2][0] - b[0][0] * b[2][1],
        b[0][0] * b[1][1] - b[0][1] * b[1][0],
    );
}

/// Multiplying by `d` times the identity scales by `d`, on either side.
proof fn lemma_scalar_matrix(x: Mat, d: int)
    requires
        is_mat(x),
    ensures
        mat_mul(x, scale_mat(identity_mat(), d)) == scale_mat(x, d),
        mat_mul(scale_mat(identity_mat(), d), x) == scale_mat(x, d),
        transpose(scale_mat(identity_mat(), d)) == scale_mat(identity_mat(), d),
        is_mat(scale_mat(identity_mat(), d)),
{
    let e = identity_mat();
    let s = scale_mat(e, d);
    vstd::arithmetic::mul::lemma_mul_basics(d);
    assert(s[0][0] == d && s[0][1] == 0 && s[0][2] == 0);
    assert(s[1][0] == 0 && s[1][1] == d && s[1][2] == 0);
    assert(s[2][0] == 0 && s[2][1] == 0 && s[2][2] == d);
    assert forall|i: int, j: int| 0 <= i < 3 && 0 <= j < 3 implies mat_mul(x, s)[i][j] == x[i][j] * d
        && mat_mul(s, x)[i][j] == x[i][j] * d by {
        vstd::arithmetic::mul::lemma_mul_basics(x[i][0]);
        vstd::arithmetic::mul::lemma_mul_basics(x[i][1]);
        vstd::arithmetic::mul::lemma_mul_basics(x[i][2]);
        vstd::arithmetic::mul::lemma_mul_basics(x[0][j]);
        vstd::arithmetic::mul::lemma_mul_basics(x[1][j]);
        vstd::arithmetic::mul::lemma_mul_basics(x[2][j]);
        vstd::arithmetic::mul::lemma_mul_is_commutative(d, x[i][j]);
    }
    assert(mat_mul(x, s) =~~= scale_mat(x, d));
    assert(mat_mul(s, x) =~~= scale_mat(x, d));
    assert(transpose(s) =~~= s);
}

/// The dual of the dual basis is the basis: the covectors `n[i] / d` that
/// `dual_basis` gives, taken as a basis themselves, have as their dual basis
/// over the common denominator `det(m)` the vectors `basis[i] / d`, that is
/// `d * adjugate(m)[i] == det(m) * basis[i]`, and `det(m)` is not zero.
pub proof fn dual_of_dual(basis: Seq<Seq<int>>)
    requires
        basis.len() == 3,
        forall|i: int| 0 <= i < 3 ==> (#[trigger] basis[i]).len() == 3,
        det(columns_matrix(basis)) != 0,
    ensures
        ({
            let b = columns_matrix(basis);
            let m = columns_matrix(adjugate(b));
            &&& det(m) != 0
            &&& forall|i: int, k: int|
                0 <= i < 3 && 0 <= k < 3 ==> det(b) * #[trigger] adjugate(m)[i][k] == det(m) * basis[i][k]
        }),
{
    let b = columns_matrix(basis);
    let d = det(b);
    let a = adjugate(b);
    let t = transpose(a);
    let bt = transpose(b);
    let e = identity_mat();
    let s = scale_mat(e, d);
    assert(is_mat(b));
    lemma_adjugate_is_mat(b);
    lemma_adjugate_is_mat(t);
    crate::matrix::lemma_transpose_mul(b, a);
    crate::matrix::lemma_transpose_mul(a, b);
    lemma_adjugate(b);
    lemma_adjugate(t);
    lemma_scalar_matrix(adjugate(t), d);
    lemma_scalar_matrix(bt, det(t));
    lemma_scalar_matrix(e, d);
    assert(bt =~~= basis);
    // (adj t) t bt = det(t) bt, and t bt = (b a)^T = d I.
    crate::matrix::lemma_mul_assoc(adjugate(t), t, bt);
    assert(mat_mul(t, bt) == s);
    let l = scale_mat(adjugate(t), d);
    let r = scale_mat(bt, det(t));
    assert(l == r);
    assert forall|i: int, k: int| 0 <= i < 3 && 0 <= k < 3 implies d * #[trigger] adjugate(t)[i][k]
        == det(t) * basis[i][k] by {
        assert(l[i][k] == r[i][k]);
        vstd::arithmetic::mul::lemma_mul_is_commutative(d, adjugate(t)[i][k]);
        vstd::arithmetic::mul::lemma_mul_is_commutative(det(t), basis[i][k]);
    }
    // det(t) det(bt) = det(t bt) = det(d I) = d^3, which is not zero.
    crate::matrix::lemma_det_mul(t, bt);
    lemma_entries(d, 0, 0, 0, d, 0, 0, 0, d);
    assert(s =~~= crate::matrix::mat(d, 0, 0, 0, d, 0, 0, 0, d));
    vstd::arithmetic::mul::lemma_mul_basics(d);
    assert(det(s) == d * (d * d));
    vstd::arithmetic::mul::lemma_mul_nonzero(d, d);
    vstd::arithmetic::mul::lemma_mul_nonzero(d, d * d);
    vstd::arithmetic::mul::lemma_mul_basics(det(bt));
}

/// A basis of the three-dimensional lattice together with its dual basis.
#[derive(Clone, Copy, Debug, PartialEq, Eq)]
pub struct Basis {
    pub vectors: [Vector<3>; 3],
    pub dual: [Covector<3>; 3],
}

pub struct BasisModel {
    pub vectors: Seq<Seq<int>>,
    pub dual: Seq<Seq<int>>,
}

impl View for Basis {
    type V = BasisModel;

    open spec fn view(&self) -> BasisModel {
        BasisModel { vectors: vector_models(self.vectors), dual: covector_models(self.dual) }
    }
}

impl BasisModel {
    /// The matrix with the basis vectors as columns.
    pub open spec fn matrix(self) -> Mat {
        columns_matrix(self.vectors)
    }

    /// The dual basis is the inverse of the basis.
    pub open spec fn wf(self) -> bool {
        &&& is_mat(self.matrix())
        &&& is_mat(self.dual)
        &&& mat_mul(self.dual, self.matrix()) == identity_mat()
        &&& mat_mul(self.matrix(), self.dual) == identity_mat()
    }
}

impl Basis {
    /// The basis made of the given vectors; fails as `dual_basis` fails.
    pub fn new(vectors: [Vector<3>; 3]) -> (r: Result<Basis, LinearError>)
        ensures
            match r {
                Ok(b) => b.vectors == vectors && b@.wf() && b@.dual == integer_inverse(
                    columns_matrix(vector_models(vectors)),
                ),
                Err(e) => inversion_error(columns_matrix(vector_models(vectors))) == Some(e),
            },
    {
        let dual = unimodular_dual(&vectors)?;
        let r = Basis { vectors, dual };
        proof {
            assert(r@.vectors =~= vector_models(vectors));
            assert(is_mat(r@.matrix()));
            lemma_integer_inverse(r@.matrix());
        }
        Ok(r)
    }

    /// The standard basis.
    pub fn standard() -> (r: Basis)
        ensures
            r@.wf(),
            r@.matrix() == identity_mat(),
    {
        let vectors = [
            Vector { raw: [1, 0, 0] },
            Vector { raw: [0, 1, 0] },
            Vector { raw: [0, 0, 1] },
        ];
        let m = Matrix3::identity();
        let inv = Matrix3::identity();
        let r = Basis {
            vectors,
            dual: [Covector { raw: [1, 0, 0] }, Covector { raw: [0, 1, 0] }, Covector { raw: [0, 0, 1] }],
        };
        assert(r@.matrix() =~~= identity_mat());
        assert(r@.dual =~~= identity_mat());
        proof {
            lemma_mul_identity(identity_mat());
        }
        r
    }
}

proof fn lemma_basis_round_trip(b: BasisModel, c: Seq<int>)
    requires
        b.wf(),
        c.len() == 3,
    ensures
        mat_vec(b.dual, mat_vec(b.matrix(), c)) == c,
        mat_vec(b.matrix(), mat_vec(b.dual, c)) == c,
{
    lemma_mat_vec_assoc(b.dual, b.matrix(), c);
    lemma_mat_vec_assoc(b.matrix(), b.dual, c);
    lemma_mat_vec_identity(c);
}

impl Chart<Vector<3>, 3> for Basis {
    open spec fn chart_valid(&self) -> bool {
        self@.wf()
    }

    open spec fn in_domain(&self, p: Seq<int>) -> bool {
        p.len() == 3
    }

    /// The pairings of the dual basis with the vector.
    open spec fn local(&self, p: Seq<int>) -> Seq<int> {
        mat_vec(self@.dual, p)
    }

    /// The combination of the basis vectors with the coordinates as weights.
    open spec fn global(&self, c: Seq<int>) -> Seq<int> {
        mat_vec(self@.matrix(), c)
    }

    open spec fn to_local_fits(&self, p: Seq<int>) -> bool {
        mat_vec_fits(self@.dual, p)
    }

    open spec fn from_local_fits(&self, c: Seq<int>) -> bool {
        mat_vec_fits(self@.matrix(), c)
    }

    proof fn lemma_round_trip(&self, c: Seq<int>, p: Seq<int>) {
        lemma_basis_round_trip(self@, c);
        lemma_basis_round_trip(self@, p);
    }

    fn to_local(&self, point: &Vector<3>) -> (r: [i64; 3]) {
        let d = Matrix3 { rows: [self.dual[0].raw, self.dual[1].raw, self.dual[2].raw] };
        assert(d@ =~~= self@.dual);
        d.mul_vec(&point.raw)
    }

    fn from_local(&self, components: &[i64; 3]) -> (r: Vector<3>) {
        let m = Matrix3::from_columns(&[self.vectors[0].raw, self.vectors[1].raw, self.vectors[2].raw]);
        assert(m@ =~~= self@.matrix());
        Vector { raw: m.mul_vec(components) }
    }
}

/// Both round trips through a chart built on an invertible basis are the identity.
pub proof fn basis_chart_round_trip(basis: Basis, c: Seq<int>, p: Seq<int>)
    requires
        basis@.wf(),
        c.len() == 3,
        p.len() == 3,
    ensures
        basis.local(basis.global(c)) == c,
        basis.global(basis.local(p)) == p,
{
    basis.lemma_round_trip(c, p);
}

/// The coordinates of a vector in a basis are the pairings of the dual
/// basis with the vector.
pub proof fn basis_coordinates_are_pairings(basis: Basis, p: Seq<int>)
    requires
        p.len() == 3,
    ensures
        forall|i: int| 0 <= i < 3 ==> #[trigger] basis.local(p)[i] == dot(basis@.dual[i], p),
{
    assert forall|i: int| 0 <= i < 3 implies #[trigger] basis.local(p)[i] == dot(basis@.dual[i], p) by {
        lemma_dot3(basis@.dual[i], p);
    }
}

/// The chart of a linear basis given as the group element that carries a
/// vector to its coordinates.
pub type LinearBasis = Torsor<GeneralLinearGroup>;

impl Chart<Vector<3>, 3> for Torsor<GeneralLinearGroup> {
    open spec fn chart_valid(&self) -> bool {
        GeneralLinearGroup::element(self@)
    }

    open spec fn in_domain(&self, p: Seq<int>) -> bool {
        p.len() == 3
    }

    open spec fn local(&self, p: Seq<int>) -> Seq<int> {
        mat_vec(self@.0, p)
    }

    open spec fn global(&self, c: Seq<int>) -> Seq<int> {
        mat_vec(self@.1, c)
    }

    open spec fn to_local_fits(&self, p: Seq<int>) -> bool {
        mat_vec_fits(self@.0, p)
    }

    open spec fn from_local_fits(&self, c: Seq<int>) -> bool {
        mat_vec_fits(self@.1, c)
    }

    proof fn lemma_round_trip(&self, c: Seq<int>, p: Seq<int>) {
        let g = self@;
        lemma_mat_vec_assoc(g.0, g.1, c);
        lemma_mat_vec_assoc(g.1, g.0, p);
        lemma_mat_vec_identity(c);
        lemma_mat_vec_identity(p);
    }

    fn to_local(&self, point: &Vector<3>) -> (r: [i64; 3]) {
        self.from_origin.act_on(point).raw
    }

    fn from_local(&self, components: &[i64; 3]) -> (r: Vector<3>) {
        self.from_origin.inverse().act_on(&Vector { raw: *components })
    }
}

/// A point of the three-dimensional Euclidean space.
pub type Point = Torsor<Vector<3>>;

/// An origin with a basis: the chart of an affine space.
#[derive(Clone, Copy, Debug, PartialEq, Eq)]
pub struct AffineFrame {
    pub origin: Point,
    pub basis: Basis,
}

impl AffineFrame {
    /// The origin `0` with the standard basis.
    pub fn reference() -> (r: AffineFrame)
        ensures
            r.origin@ == zeros(3),
            r.basis@.wf(),
            r.basis@.matrix() == identity_mat(),
    {
        let r = AffineFrame { origin: Torsor { from_origin: Vector::zero() }, basis: Basis::standard() };
        r
    }

    /// The basis of the tangent space at `point` that the chart induces. The
    /// space is flat, so it is the frame's own basis at every point.
    pub fn induced_basis(&self, _point: &Point) -> (r: [Vector<3>; 3])
        ensures
            r == self.basis.vectors,
    {
        self.basis.vectors
    }
}

impl Chart<Point, 3> for AffineFrame {
    open spec fn chart_valid(&self) -> bool {
        self.basis@.wf() && self.origin@.len() == 3
    }

    open spec fn in_domain(&self, p: Seq<int>) -> bool {
        p.len() == 3
    }

    /// The coordinates, in the basis, of the vector from the origin to the point.
    open spec fn local(&self, p: Seq<int>) -> Seq<int> {
        self.basis.local(between::<Vector<3>>(self.origin@, p))
    }

    /// The origin moved by the vector with the given coordinates.
    open spec fn global(&self, c: Seq<int>) -> Seq<int> {
        moved::<Vector<3>>(self.origin@, self.basis.global(c))
    }

    open spec fn to_local_fits(&self, p: Seq<int>) -> bool {
        &&& all_fit(crate::space::neg_seq(self.origin@))
        &&& all_fit(between::<Vector<3>>(self.origin@, p))
        &&& self.basis.to_local_fits(between::<Vector<3>>(self.origin@, p))
    }

    open spec fn from_local_fits(&self, c: Seq<int>) -> bool {
        &&& self.basis.from_local_fits(c)
        &&& all_fit(moved::<Vector<3>>(self.origin@, self.basis.global(c)))
    }

    proof fn lemma_round_trip(&self, c: Seq<int>, p: Seq<int>) {
        let o = self.origin@;
        let g = self.basis.global(c);
        self.basis.lemma_round_trip(c, between::<Vector<3>>(o, p));
        crate::lie::torsor_round_trip::<Vector<3>>(o, p);
        assert(between::<Vector<3>>(o, moved::<Vector<3>>(o, g)) =~= g);
    }

    fn to_local(&self, point: &Point) -> (r: [i64; 3]) {
        let v = self.origin.difference(point);
        self.basis.to_local(&v)
    }

    fn from_local(&self, components: &[i64; 3]) -> (r: Point) {
        let v = self.basis.from_local(components);
        self.origin.act(&v)
    }
}

/// A chart whose basis is orthonormal: its coordinates are lengths.
pub trait OrthonormalBasis {
    spec fn is_orthonormal(&self) -> bool;

    fn check_orthonormal(&self) -> (r: bool)
        ensures
            r == self.is_orthonormal(),
    ;
}

impl OrthonormalBasis for Basis {
    /// The dual basis has the coordinates of the basis: the basis vectors
    /// are pairwise orthogonal and of length one.
    open spec fn is_orthonormal(&self) -> bool {
        self@.dual == transpose(self@.matrix())
    }

    fn check_orthonormal(&self) -> (r: bool) {
        let mut i: usize = 0;
        while i < 3
            invariant
                i <= 3,
                forall|p: int, q: int| 0 <= p < i && 0 <= q < 3 ==> #[trigger] self@.dual[p][q]
                    == self@.vectors[p][q],
            decreases 3 - i,
        {
            let (d, v) = (self.dual[i].raw, self.vectors[i].raw);
            if d[0] != v[0] || d[1] != v[1] || d[2] != v[2] {
                let ghost t = transpose(self@.matrix());
                assert(t[i as int][0] == self@.vectors[i as int][0]);
                assert(t[i as int][1] == self@.vectors[i as int][1]);
                assert(t[i as int][2] == self@.vectors[i as int][2]);
                assert(self@.dual[i as int][0] != t[i as int][0] || self@.dual[i as int][1] != t[i
                    as int][1] || self@.dual[i as int][2] != t[i as int][2]);
                assert(self@.dual[i as int] != t[i as int]);
                return false;
            }
            i += 1;
        }
        assert(self@.dual =~~= transpose(self@.matrix()));
        true
    }
}

impl OrthonormalBasis for AffineFrame {
    open spec fn is_orthonormal(&self) -> bool {
        self.basis.is_orthonormal()
    }

    fn check_orthonormal(&self) -> (r: bool) {
        self.basis.check_orthonormal()
    }
}

/// A frame of an affine space, with the vector space of its basis.
pub trait Frame {
    type VectorSpace;
}

impl Frame for AffineFrame {
    type VectorSpace = Vector<3>;
}

/// An affine space: points acted on by the translations of a vector space.
pub trait AffineSpace {
    type V;
}

impl<const N: usize> AffineSpace for Torsor<Vector<N>> {
    type V = Vector<N>;
}

/// The Euclidean space of dimension `N`.
pub type EuclideanSpace<const N: usize> = Torsor<Vector<N>>;

} // verus!
