use vstd::prelude::*;
use crate::algebra::{det9, lemma_negated_factors, lemma_product_bound};
use crate::lie::{GroupAction, LieGroup};
use crate::matrix::{
    adjugate, det, identity_mat, is_mat, lemma_adjugate, lemma_entries, lemma_mat_vec_assoc,
    lemma_adjoint, lemma_mat_vec_identity, lemma_mul_assoc, lemma_transpose_mul, transpose, lemma_mul_identity, lemma_view_is_mat, mat,
    mat_mul, mat_vec, mat_vec_fits, mul_fits, scale_mat, Mat, Matrix3,
};
use crate::space::{dot, ints, Covector, Vector};
use crate::manifold::Manifold;

verus! {

/// Why a matrix has no inverse with integer entries.
#[derive(Clone, Copy, Debug, PartialEq, Eq, Structural)]
pub enum LinearError {
    /// Its determinant is zero.
    Singular,
    /// Its determinant is neither `1` nor `-1`, so its inverse is not integral.
    NotInvertible,
    /// An entry lies outside `[-COORD_LIMIT, COORD_LIMIT]`, where the
    /// determinant is not computed.
    OutOfRange,
}

/// The largest magnitude of an entry whose matrix can be inverted.
pub const COORD_LIMIT: i64 = 2147483647;

pub open spec fn small(x: int) -> bool {
    -COORD_LIMIT <= x <= COORD_LIMIT
}

pub open spec fn small_mat(m: Mat) -> bool {
    forall|i: int, j: int| 0 <= i < 3 && 0 <= j < 3 ==> small(#[trigger] m[i][j])
}

/// Why `m` cannot be inverted over the integers, if it cannot.
pub open spec fn inversion_error(m: Mat) -> Option<LinearError> {
    if !small_mat(m) {
        Some(LinearError::OutOfRange)
    } else if det(m) == 0 {
        Some(LinearError::Singular)
    } else if det(m) != 1 && det(m) != -1 {
        Some(LinearError::NotInvertible)
    } else {
        None
    }
}

/// The inverse of a matrix of determinant `1` or `-1`.
pub open spec fn integer_inverse(m: Mat) -> Mat {
    if det(m) == 1 {
        adjugate(m)
    } else {
        scale_mat(adjugate(m), -1)
    }
}

pub proof fn lemma_integer_inverse(m: Mat)
    requires
        is_mat(m),
        det(m) == 1 || det(m) == -1,
    ensures
        is_mat(integer_inverse(m)),
        mat_mul(m, integer_inverse(m)) == identity_mat(),
        mat_mul(integer_inverse(m), m) == identity_mat(),
{
    lemma_adjugate(m);
    let a = adjugate(m);
    lemma_entries(
        m[1][1] * m[2][2] - m[1][2] * m[2][1],
        m[0][2] * m[2][1] - m[0][1] * m[2][2],
        m[0][1] * m[1][2] - m[0][2] * m[1][1],
        m[1][2] * m[2][0] - m[1][0] * m[2][2],
        m[0][0] * m[2][2] - m[0][2] * m[2][0],
        m[0][2] * m[1][0] - m[0][0] * m[1][2],
        m[1][0] * m[2][1] - m[1][1] * m[2][0],
        m[0][1] * m[2][0] - m[0][0] * m[2][1],
        m[0][0] * m[1][1] - m[0][1] * m[1][0],
    );
    if det(m) == 1 {
        assert(scale_mat(identity_mat(), 1) =~~= identity_mat());
    } else {
        let n = scale_mat(a, -1);
        assert(scale_mat(identity_mat(), det(m)) == scale_mat(identity_mat(), -1));
        let l = mat_mul(m, n);
        let r = mat_mul(n, m);
        assert forall|i: int, j: int| 0 <= i < 3 && 0 <= j < 3 implies l[i][j] == identity_mat()[i][j]
            && r[i][j] == identity_mat()[i][j] by {
            lemma_negated_factors(m[i][0], m[i][1], m[i][2], a[0][j], a[1][j], a[2][j]);
            lemma_negated_factors(a[i][0], a[i][1], a[i][2], m[0][j], m[1][j], m[2][j]);
            assert(mat_mul(m, a)[i][j] == identity_mat()[i][j] * -1);
            assert(mat_mul(a, m)[i][j] == identity_mat()[i][j] * -1);
            assert(n[0][j] == a[0][j] * -1 && n[1][j] == a[1][j] * -1 && n[2][j] == a[2][j] * -1);
            assert(n[i][0] == a[i][0] * -1 && n[i][1] == a[i][1] * -1 && n[i][2] == a[i][2] * -1);
        }
        assert(l =~~= identity_mat());
        assert(r =~~= identity_mat());
    }
}

fn is_small(x: i64) -> (r: bool)
    ensures
        r == small(x as int),
{
    -COORD_LIMIT <= x && x <= COORD_LIMIT
}

pub(crate) fn is_small_mat(m: &Matrix3) -> (r: bool)
    ensures
        r == small_mat(m@),
{
    let mut i: usize = 0;
    while i < 3
        invariant
            i <= 3,
            forall|p: int, q: int| 0 <= p < i && 0 <= q < 3 ==> small(#[trigger] m@[p][q]),
        decreases 3 - i,
    {
        if !(is_small(m.rows[i][0]) && is_small(m.rows[i][1]) && is_small(m.rows[i][2])) {
            assert(!small(m@[i as int][0]) || !small(m@[i as int][1]) || !small(m@[i as int][2]));
            return false;
        }
        assert(forall|q: int| 0 <= q < 3 ==> m@[i as int][q] == m.rows[i as int][q]);
        i += 1;
    }
    true
}

/// `x * y - z * w` for entries of magnitude at most `COORD_LIMIT`.
fn minor(x: i64, y: i64, z: i64, w: i64) -> (r: i64)
    requires
        small(x as int),
        small(y as int),
        small(z as int),
        small(w as int),
    ensures
        r == x * y - z * w,
        -2 * COORD_LIMIT * COORD_LIMIT <= r <= 2 * COORD_LIMIT * COORD_LIMIT,
{
    proof {
        lemma_product_bound(x as int, y as int, COORD_LIMIT as int, COORD_LIMIT as int);
        lemma_product_bound(z as int, w as int, COORD_LIMIT as int, COORD_LIMIT as int);
    }
    (x as i128 * y as i128 - z as i128 * w as i128) as i64
}

/// The adjugate and the determinant of a matrix with small entries.
pub(crate) fn adjugate_and_det(m: &Matrix3) -> (r: (Matrix3, i128))
    requires
        small_mat(m@),
    ensures
        r.0@ == adjugate(m@),
        r.1 == det(m@),
        forall|i: int, j: int| 0 <= i < 3 && 0 <= j < 3 ==> i64::MIN < #[trigger] r.0@[i][j],
{
    let a = m.rows;
    assert(small(m@[0][0]) && small(m@[0][1]) && small(m@[0][2]));
    assert(small(m@[1][0]) && small(m@[1][1]) && small(m@[1][2]));
    assert(small(m@[2][0]) && small(m@[2][1]) && small(m@[2][2]));
    let c00 = minor(a[1][1], a[2][2], a[1][2], a[2][1]);
    let c01 = minor(a[0][2], a[2][1], a[0][1], a[2][2]);
    let c02 = minor(a[0][1], a[1][2], a[0][2], a[1][1]);
    let c10 = minor(a[1][2], a[2][0], a[1][0], a[2][2]);
    let c11 = minor(a[0][0], a[2][2], a[0][2], a[2][0]);
    let c12 = minor(a[0][2], a[1][0], a[0][0], a[1][2]);
    let c20 = minor(a[1][0], a[2][1], a[1][1], a[2][0]);
    let c21 = minor(a[0][1], a[2][0], a[0][0], a[2][1]);
    let c22 = minor(a[0][0], a[1][1], a[0][1], a[1][0]);
    let adj = Matrix3 { rows: [[c00, c01, c02], [c10, c11, c12], [c20, c21, c22]] };
    proof {
        lemma_entries(
            c00 as int, c01 as int, c02 as int,
            c10 as int, c11 as int, c12 as int,
            c20 as int, c21 as int, c22 as int,
        );
        assert(adj@ =~~= adjugate(m@));
        let b = 2 * COORD_LIMIT * COORD_LIMIT;
        lemma_product_bound(a[0][0] as int, c00 as int, COORD_LIMIT as int, b);
        lemma_product_bound(a[0][1] as int, c10 as int, COORD_LIMIT as int, b);
        lemma_product_bound(a[0][2] as int, c20 as int, COORD_LIMIT as int, b);
    }
    let d = a[0][0] as i128 * c00 as i128 + a[0][1] as i128 * c10 as i128 + a[0][2] as i128
        * c20 as i128;
    (adj, d)
}

fn negated(m: &Matrix3) -> (r: Matrix3)
    requires
        forall|i: int, j: int| 0 <= i < 3 && 0 <= j < 3 ==> i64::MIN < #[trigger] m@[i][j],
    ensures
        r@ == scale_mat(m@, -1),
{
    let mut rows = m.rows;
    let mut i: usize = 0;
    while i < 3
        invariant
            i <= 3,
            forall|p: int, q: int| 0 <= p < 3 && 0 <= q < 3 ==> i64::MIN < #[trigger] m@[p][q],
            forall|p: int, q: int| 0 <= p < i && 0 <= q < 3 ==> rows[p][q] == -m.rows[p][q],
            forall|p: int| i <= p < 3 ==> rows[p] == m.rows[p],
        decreases 3 - i,
    {
        assert(i64::MIN < m@[i as int][0] && i64::MIN < m@[i as int][1] && i64::MIN < m@[i as int][2]);
        rows[i] = [-m.rows[i][0], -m.rows[i][1], -m.rows[i][2]];
        i += 1;
    }
    let r = Matrix3 { rows };
    assert(r@ =~~= scale_mat(m@, -1));
    r
}

/// The general linear group of the integer lattice of rank three: matrices
/// with an integral inverse. Each element carries its inverse along.
#[derive(Clone, Copy, Debug, PartialEq, Eq)]
pub struct GeneralLinearGroup {
    pub matrix: Matrix3,
    pub inverse: Matrix3,
}

impl View for GeneralLinearGroup {
    type V = (Mat, Mat);

    open spec fn view(&self) -> (Mat, Mat) {
        (self.matrix@, self.inverse@)
    }
}

pub open spec fn gl_element(g: (Mat, Mat)) -> bool {
    &&& is_mat(g.0)
    &&& is_mat(g.1)
    &&& mat_mul(g.0, g.1) == identity_mat()
    &&& mat_mul(g.1, g.0) == identity_mat()
}

impl GeneralLinearGroup {
    /// The matrix as an element of the group, if its inverse is integral.
    pub fn from_matrix(m: Matrix3) -> (r: Result<Self, LinearError>)
        ensures
            match r {
                Ok(g) => inversion_error(m@) is None && g@ == (m@, integer_inverse(m@)),
                Err(e) => inversion_error(m@) == Some(e),
            },
    {
        if !is_small_mat(&m) {
            return Err(LinearError::OutOfRange);
        }
        let (adj, d) = adjugate_and_det(&m);
        if d == 0 {
            return Err(LinearError::Singular);
        }
        if d != 1 && d != -1 {
            return Err(LinearError::NotInvertible);
        }
        proof {
            lemma_view_is_mat(m);
            lemma_integer_inverse(m@);
        }
        if d == 1 {
            Ok(GeneralLinearGroup { matrix: m, inverse: adj })
        } else {
            let n = negated(&adj);
            Ok(GeneralLinearGroup { matrix: m, inverse: n })
        }
    }

    pub fn matrix(&self) -> (r: Matrix3)
        ensures
            r@ == self@.0,
    {
        self.matrix
    }

    /// The matrix of the inverse element.
    pub fn inverse_matrix(&self) -> (r: Matrix3)
        ensures
            r@ == self@.1,
    {
        self.inverse
    }

    /// The image of a vector.
    pub fn apply(&self, vector: &Vector<3>) -> (r: Vector<3>)
        requires
            mat_vec_fits(self@.0, vector@),
        ensures
            r@ == mat_vec(self@.0, vector@),
    {
        Vector { raw: self.matrix.mul_vec(&vector.raw) }
    }
}

impl Manifold for GeneralLinearGroup {
    open spec fn dim() -> nat {
        9
    }

    fn dimension() -> (r: usize) {
        3 * 3
    }
}

impl LieGroup for GeneralLinearGroup {
    open spec fn element(g: (Mat, Mat)) -> bool {
        gl_element(g)
    }

    open spec fn unit() -> (Mat, Mat) {
        (identity_mat(), identity_mat())
    }

    open spec fn op(a: (Mat, Mat), b: (Mat, Mat)) -> (Mat, Mat) {
        (mat_mul(a.0, b.0), mat_mul(b.1, a.1))
    }

    open spec fn inv(a: (Mat, Mat)) -> (Mat, Mat) {
        (a.1, a.0)
    }

    open spec fn op_fits(a: (Mat, Mat), b: (Mat, Mat)) -> bool {
        mul_fits(a.0, b.0) && mul_fits(b.1, a.1)
    }

    open spec fn inv_fits(a: (Mat, Mat)) -> bool {
        true
    }

    proof fn lemma_closed(a: (Mat, Mat), b: (Mat, Mat)) {
        let i = identity_mat();
        assert(is_mat(i));
        lemma_mul_identity(i);
        let (m1, n1, m2, n2) = (a.0, a.1, b.0, b.1);
        lemma_mul_assoc(m1, m2, mat_mul(n2, n1));
        lemma_mul_assoc(m2, n2, n1);
        lemma_mul_identity(n1);
        lemma_mul_assoc(n2, n1, mat_mul(m1, m2));
        lemma_mul_assoc(n1, m1, m2);
        lemma_mul_identity(m2);
    }

    proof fn lemma_associative(a: (Mat, Mat), b: (Mat, Mat), c: (Mat, Mat)) {
        lemma_mul_assoc(a.0, b.0, c.0);
        lemma_mul_assoc(c.1, b.1, a.1);
    }

    proof fn lemma_identity(a: (Mat, Mat)) {
        lemma_mul_identity(a.0);
        lemma_mul_identity(a.1);
    }

    proof fn lemma_inverse(a: (Mat, Mat)) {
    }

    fn identity() -> (r: Self) {
        GeneralLinearGroup { matrix: Matrix3::identity(), inverse: Matrix3::identity() }
    }

    fn multiply(&self, other: &Self) -> (r: Self) {
        GeneralLinearGroup {
            matrix: self.matrix.mul(&other.matrix),
            inverse: other.inverse.mul(&self.inverse),
        }
    }

    fn inverse(&self) -> (r: Self) {
        GeneralLinearGroup { matrix: self.inverse, inverse: self.matrix }
    }
}

impl GroupAction<Vector<3>> for GeneralLinearGroup {
    open spec fn on_space(x: Seq<int>) -> bool {
        x.len() == 3
    }

    open spec fn action(g: (Mat, Mat), x: Seq<int>) -> Seq<int> {
        mat_vec(g.0, x)
    }

    open spec fn action_fits(g: (Mat, Mat), x: Seq<int>) -> bool {
        mat_vec_fits(g.0, x)
    }

    proof fn lemma_action(g: (Mat, Mat), h: (Mat, Mat), x: Seq<int>) {
        lemma_mat_vec_identity(x);
        lemma_mat_vec_assoc(g.0, h.0, x);
    }

    fn act_on(&self, point: &Vector<3>) -> (r: Vector<3>) {
        self.apply(point)
    }
}

/// Covectors are carried by the inverse transpose, so that pairings are kept.
impl GroupAction<Covector<3>> for GeneralLinearGroup {
    open spec fn on_space(x: Seq<int>) -> bool {
        x.len() == 3
    }

    open spec fn action(g: (Mat, Mat), x: Seq<int>) -> Seq<int> {
        mat_vec(transpose(g.1), x)
    }

    open spec fn action_fits(g: (Mat, Mat), x: Seq<int>) -> bool {
        mat_vec_fits(transpose(g.1), x)
    }

    proof fn lemma_action(g: (Mat, Mat), h: (Mat, Mat), x: Seq<int>) {
        let i = identity_mat();
        assert(transpose(i) =~~= i);
        lemma_mat_vec_identity(x);
        lemma_transpose_mul(h.1, g.1);
        lemma_mat_vec_assoc(transpose(g.1), transpose(h.1), x);
    }

    fn act_on(&self, point: &Covector<3>) -> (r: Covector<3>) {
        Covector { raw: self.inverse.transpose().mul_vec(&point.raw) }
    }
}

/// Carrying a vector by `g` and a covector by the inverse transpose of `g`
/// keeps their pairing.
pub proof fn pairing_invariance(g: (Mat, Mat), w: Seq<int>, v: Seq<int>)
    requires
        gl_element(g),
        w.len() == 3,
        v.len() == 3,
    ensures
        dot(
            <GeneralLinearGroup as GroupAction<Covector<3>>>::action(g, w),
            <GeneralLinearGroup as GroupAction<Vector<3>>>::action(g, v),
        ) == dot(w, v),
{
    lemma_adjoint(g.1, w, mat_vec(g.0, v));
    lemma_mat_vec_assoc(g.1, g.0, v);
    lemma_mat_vec_identity(v);
}

/// The inverse of a matrix over a common denominator: the inverse is
/// `numerators / denominator`.
#[derive(Clone, Copy, Debug, PartialEq, Eq)]
pub struct ScaledInverse {
    pub numerators: Matrix3,
    pub denominator: i128,
}

/// The inverse of any nonsingular matrix, exactly, as its adjugate over its
/// determinant. Fails exactly on singular matrices, and on matrices with an
/// entry outside `[-COORD_LIMIT, COORD_LIMIT]`.
pub fn inverse_of(m: &Matrix3) -> (r: Result<ScaledInverse, LinearError>)
    ensures
        match r {
            Ok(inv) => small_mat(m@) && det(m@) != 0 && inv.numerators@ == adjugate(m@)
                && inv.denominator == det(m@) && mat_mul(m@, inv.numerators@) == scale_mat(
                identity_mat(),
                det(m@),
            ) && mat_mul(inv.numerators@, m@) == scale_mat(identity_mat(), det(m@)),
            Err(e) => (e == LinearError::OutOfRange && !small_mat(m@)) || (e == LinearError::Singular
                && small_mat(m@) && det(m@) == 0),
        },
{
    if !is_small_mat(m) {
        return Err(LinearError::OutOfRange);
    }
    let (adj, d) = adjugate_and_det(m);
    if d == 0 {
        return Err(LinearError::Singular);
    }
    proof {
        lemma_view_is_mat(*m);
        lemma_adjugate(m@);
    }
    Ok(ScaledInverse { numerators: adj, denominator: d })
}

} // verus!
