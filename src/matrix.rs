use vstd::prelude::*;
use crate::manifold::fits;
use crate::algebra::{det9, lemma_adjoint_row, lemma_linear_row, lemma_negated_row, lemma_cofactors, lemma_det_product, lemma_regroup, lemma_swapped_factors, lemma_transposed};
use crate::space::{add_seq, neg_seq, zeros, dot, dot_fits, dot_upto, ints};

verus! {

/// A square matrix of order three, by rows.
pub type Mat = Seq<Seq<int>>;

pub open spec fn is_mat(m: Mat) -> bool {
    m.len() == 3 && forall|i: int| 0 <= i < 3 ==> (#[trigger] m[i]).len() == 3
}

pub open spec fn mat(
    a00: int, a01: int, a02: int,
    a10: int, a11: int, a12: int,
    a20: int, a21: int, a22: int,
) -> Mat {
    seq![seq![a00, a01, a02], seq![a10, a11, a12], seq![a20, a21, a22]]
}

pub proof fn lemma_entries(
    a00: int, a01: int, a02: int,
    a10: int, a11: int, a12: int,
    a20: int, a21: int, a22: int,
)
    ensures
        ({
            let m = mat(a00, a01, a02, a10, a11, a12, a20, a21, a22);
            &&& is_mat(m)
            &&& m[0][0] == a00 && m[0][1] == a01 && m[0][2] == a02
            &&& m[1][0] == a10 && m[1][1] == a11 && m[1][2] == a12
            &&& m[2][0] == a20 && m[2][1] == a21 && m[2][2] == a22
        }),
{
    let m = mat(a00, a01, a02, a10, a11, a12, a20, a21, a22);
    assert(m[0] == seq![a00, a01, a02]);
    assert(m[1] == seq![a10, a11, a12]);
    assert(m[2] == seq![a20, a21, a22]);
}

pub open spec fn identity_mat() -> Mat {
    Seq::new(3, |i: int| Seq::new(3, |j: int| if i == j { 1int } else { 0int }))
}

pub open spec fn mat_mul(a: Mat, b: Mat) -> Mat {
    Seq::new(
        3,
        |i: int|
            Seq::new(3, |j: int| a[i][0] * b[0][j] + a[i][1] * b[1][j] + a[i][2] * b[2][j]),
    )
}

pub open spec fn mat_vec(a: Mat, v: Seq<int>) -> Seq<int> {
    Seq::new(3, |i: int| a[i][0] * v[0] + a[i][1] * v[1] + a[i][2] * v[2])
}

pub open spec fn transpose(m: Mat) -> Mat {
    Seq::new(3, |i: int| Seq::new(3, |j: int| m[j][i]))
}

pub open spec fn det(m: Mat) -> int {
    det9(m[0][0], m[0][1], m[0][2], m[1][0], m[1][1], m[1][2], m[2][0], m[2][1], m[2][2])
}

/// The transpose of the cofactor matrix.
pub open spec fn adjugate(m: Mat) -> Mat {
    mat(
        m[1][1] * m[2][2] - m[1][2] * m[2][1],
        m[0][2] * m[2][1] - m[0][1] * m[2][2],
        m[0][1] * m[1][2] - m[0][2] * m[1][1],
        m[1][2] * m[2][0] - m[1][0] * m[2][2],
        m[0][0] * m[2][2] - m[0][2] * m[2][0],
        m[0][2] * m[1][0] - m[0][0] * m[1][2],
        m[1][0] * m[2][1] - m[1][1] * m[2][0],
        m[0][1] * m[2][0] - m[0][0] * m[2][1],
        m[0][0] * m[1][1] - m[0][1] * m[1][0],
    )
}

pub open spec fn scale_mat(m: Mat, s: int) -> Mat {
    Seq::new(3, |i: int| Seq::new(3, |j: int| m[i][j] * s))
}

pub open spec fn column(m: Mat, j: int) -> Seq<int> {
    seq![m[0][j], m[1][j], m[2][j]]
}

/// Every entry of the product can be summed in any order within the scalar range.
pub open spec fn mul_fits(a: Mat, b: Mat) -> bool {
    forall|i: int, j: int|
        0 <= i < 3 && 0 <= j < 3 ==> #[trigger] dot_fits(a[i], column(b, j))
}

pub open spec fn mat_vec_fits(a: Mat, v: Seq<int>) -> bool {
    forall|i: int| 0 <= i < 3 ==> dot_fits(#[trigger] a[i], v)
}

pub open spec fn mat_fits(m: Mat) -> bool {
    forall|i: int, j: int| 0 <= i < 3 && 0 <= j < 3 ==> fits(#[trigger] m[i][j])
}

pub proof fn lemma_dot3(a: Seq<int>, b: Seq<int>)
    requires
        a.len() == 3,
    ensures
        dot(a, b) == a[0] * b[0] + a[1] * b[1] + a[2] * b[2],
{
    reveal_with_fuel(dot_upto, 4);
}

pub proof fn lemma_mul_assoc(a: Mat, b: Mat, c: Mat)
    requires
        is_mat(a),
        is_mat(b),
        is_mat(c),
    ensures
        mat_mul(mat_mul(a, b), c) == mat_mul(a, mat_mul(b, c)),
{
    let l = mat_mul(mat_mul(a, b), c);
    let r = mat_mul(a, mat_mul(b, c));
    assert forall|i: int| 0 <= i < 3 implies #[trigger] l[i] =~= r[i] by {
        assert forall|j: int| 0 <= j < 3 implies l[i][j] == r[i][j] by {
            let (x0, x1, x2) = (a[i][0], a[i][1], a[i][2]);
            let (b00, b01, b02, b10, b11, b12, b20, b21, b22) = (
                b[0][0], b[0][1], b[0][2], b[1][0], b[1][1], b[1][2], b[2][0], b[2][1], b[2][2],
            );
            let (c0, c1, c2) = (c[0][j], c[1][j], c[2][j]);
            lemma_regroup(x0, x1, x2, b00, b01, b02, b10, b11, b12, b20, b21, b22, c0, c1, c2);
        }
    }
    assert(l =~= r);
}

pub proof fn lemma_mul_identity(a: Mat)
    requires
        is_mat(a),
    ensures
        mat_mul(a, identity_mat()) == a,
        mat_mul(identity_mat(), a) == a,
{
    let l = mat_mul(a, identity_mat());
    let r = mat_mul(identity_mat(), a);
    assert forall|i: int, j: int| 0 <= i < 3 && 0 <= j < 3 implies l[i][j] == a[i][j] && r[i][j]
        == a[i][j] by {
        let e = identity_mat();
        assert(e[0][0] == 1 && e[0][1] == 0 && e[0][2] == 0);
        assert(e[1][0] == 0 && e[1][1] == 1 && e[1][2] == 0);
        assert(e[2][0] == 0 && e[2][1] == 0 && e[2][2] == 1);
        if j == 0 {
        } else if j == 1 {
        } else {
        }
        if i == 0 {
        } else if i == 1 {
        } else {
        }
    }
    assert(l =~~= a);
    assert(r =~~= a);
}

pub proof fn lemma_mat_vec_assoc(a: Mat, b: Mat, v: Seq<int>)
    requires
        is_mat(a),
        is_mat(b),
        v.len() == 3,
    ensures
        mat_vec(a, mat_vec(b, v)) == mat_vec(mat_mul(a, b), v),
{
    let l = mat_vec(a, mat_vec(b, v));
    let r = mat_vec(mat_mul(a, b), v);
    assert forall|i: int| 0 <= i < 3 implies l[i] == r[i] by {
        let (x0, x1, x2) = (a[i][0], a[i][1], a[i][2]);
        let (b00, b01, b02, b10, b11, b12, b20, b21, b22) = (
            b[0][0], b[0][1], b[0][2], b[1][0], b[1][1], b[1][2], b[2][0], b[2][1], b[2][2],
        );
        let (v0, v1, v2) = (v[0], v[1], v[2]);
        lemma_regroup(x0, x1, x2, b00, b01, b02, b10, b11, b12, b20, b21, b22, v0, v1, v2);
    }
    assert(l =~= r);
}

pub proof fn lemma_mat_vec_identity(v: Seq<int>)
    requires
        v.len() == 3,
    ensures
        mat_vec(identity_mat(), v) == v,
{
    assert(mat_vec(identity_mat(), v) =~= v);
}

/// A matrix times its adjugate, on either side, is its determinant times the identity.
pub proof fn lemma_adjugate(m: Mat)
    requires
        is_mat(m),
    ensures
        mat_mul(m, adjugate(m)) == scale_mat(identity_mat(), det(m)),
        mat_mul(adjugate(m), m) == scale_mat(identity_mat(), det(m)),
{
    let (a, b, c, d, e, f, g, h, k) = (
        m[0][0], m[0][1], m[0][2], m[1][0], m[1][1], m[1][2], m[2][0], m[2][1], m[2][2],
    );
    let dt = det(m);
    let l = mat_mul(m, adjugate(m));
    let r = mat_mul(adjugate(m), m);
    let s = scale_mat(identity_mat(), dt);
    lemma_cofactors(a, b, c, d, e, f, g, h, k);
    lemma_entries(
        m[1][1] * m[2][2] - m[1][2] * m[2][1],
        m[0][2] * m[2][1] - m[0][1] * m[2][2],
        m[0][1] * m[1][2] - m[0][2] * m[1][1],
        m[1][2] * m[2][0] - m[1][0] * m[2][2],
        m[0][0] * m[2][2] - m[0][2] * m[2][0],
        m[0][2] * m[1][0] - m[0][0] * m[1][2],
        m[1][0] * m[2][1] - m[1][1] * m[2][0],
        m[0][1] * m[2][0] - m[0][0] * m[2][1],
        m[0][0] * m[1][1] - m[0][1] * m[1][0],
    );
    assert(l =~~= s);
    assert(r =~~= s);
}

pub proof fn lemma_transpose_mul(a: Mat, b: Mat)
    requires
        is_mat(a),
        is_mat(b),
    ensures
        transpose(mat_mul(a, b)) == mat_mul(transpose(b), transpose(a)),
        transpose(transpose(a)) == a,
        is_mat(transpose(a)),
{
    let l = transpose(mat_mul(a, b));
    let r = mat_mul(transpose(b), transpose(a));
    assert forall|i: int, j: int| 0 <= i < 3 && 0 <= j < 3 implies l[i][j] == r[i][j] by {
        lemma_swapped_factors(a[j][0], a[j][1], a[j][2], b[0][i], b[1][i], b[2][i]);
    }
    assert(l =~~= r);
    assert(transpose(transpose(a)) =~~= a);
}

pub proof fn lemma_det_mul(a: Mat, b: Mat)
    requires
        is_mat(a),
        is_mat(b),
    ensures
        det(mat_mul(a, b)) == det(a) * det(b),
        det(transpose(a)) == det(a),
{
    lemma_det_product(
        a[0][0], a[0][1], a[0][2], a[1][0], a[1][1], a[1][2], a[2][0], a[2][1], a[2][2],
        b[0][0], b[0][1], b[0][2], b[1][0], b[1][1], b[1][2], b[2][0], b[2][1], b[2][2],
    );
    lemma_transposed(a[0][0], a[0][1], a[0][2], a[1][0], a[1][1], a[1][2], a[2][0], a[2][1], a[2][2]);
}

/// Multiplying by a matrix is linear.
pub proof fn lemma_mat_vec_linear(a: Mat, u: Seq<int>, v: Seq<int>)
    requires
        is_mat(a),
        u.len() == 3,
        v.len() == 3,
    ensures
        mat_vec(a, add_seq(u, v)) == add_seq(mat_vec(a, u), mat_vec(a, v)),
        mat_vec(a, neg_seq(u)) == neg_seq(mat_vec(a, u)),
        mat_vec(a, zeros(3)) == zeros(3),
{
    let w = add_seq(u, v);
    let n = neg_seq(u);
    assert(w[0] == u[0] + v[0] && w[1] == u[1] + v[1] && w[2] == u[2] + v[2]);
    assert(n[0] == -u[0] && n[1] == -u[1] && n[2] == -u[2]);
    assert forall|i: int| 0 <= i < 3 implies #[trigger] mat_vec(a, w)[i] == add_seq(
        mat_vec(a, u),
        mat_vec(a, v),
    )[i] by {
        lemma_linear_row(a[i][0], a[i][1], a[i][2], u[0], u[1], u[2], v[0], v[1], v[2]);
    }
    assert forall|i: int| 0 <= i < 3 implies #[trigger] mat_vec(a, n)[i] == neg_seq(
        mat_vec(a, u),
    )[i] by {
        lemma_negated_row(a[i][0], a[i][1], a[i][2], u[0], u[1], u[2]);
    }
    assert(mat_vec(a, add_seq(u, v)) =~= add_seq(mat_vec(a, u), mat_vec(a, v)));
    assert(mat_vec(a, neg_seq(u)) =~= neg_seq(mat_vec(a, u)));
    let z = zeros(3);
    assert(z[0] == 0 && z[1] == 0 && z[2] == 0);
    assert forall|i: int| 0 <= i < 3 implies mat_vec(a, z)[i] == 0 by {
        assert(a[i][0] * z[0] == 0 && a[i][1] * z[1] == 0 && a[i][2] * z[2] == 0);
    }
    assert(mat_vec(a, z) =~= z);
}

/// `dot(A^T w, v) == dot(w, A v)`.
pub proof fn lemma_adjoint(a: Mat, w: Seq<int>, v: Seq<int>)
    requires
        is_mat(a),
        w.len() == 3,
        v.len() == 3,
    ensures
        dot(mat_vec(transpose(a), w), v) == dot(w, mat_vec(a, v)),
{
    lemma_dot3(mat_vec(transpose(a), w), v);
    lemma_dot3(w, mat_vec(a, v));
    lemma_adjoint_row(
        a[0][0], a[0][1], a[0][2], a[1][0], a[1][1], a[1][2], a[2][0], a[2][1], a[2][2],
        w[0], w[1], w[2], v[0], v[1], v[2],
    );
}

/// A square matrix of order three with entries in the scalar range, by rows.
#[derive(Clone, Copy, Debug, PartialEq, Eq)]
pub struct Matrix3 {
    pub rows: [[i64; 3]; 3],
}

impl View for Matrix3 {
    type V = Mat;

    open spec fn view(&self) -> Mat {
        rows_model(self.rows)
    }
}

pub proof fn lemma_view_is_mat(m: Matrix3)
    ensures
        is_mat(m@),
        mat_fits(m@),
{
}

impl Matrix3 {
    pub fn new(rows: [[i64; 3]; 3]) -> (r: Self)
        ensures
            r.rows == rows,
            is_mat(r@),
    {
        Matrix3 { rows }
    }

    pub fn identity() -> (r: Self)
        ensures
            r@ == identity_mat(),
    {
        let r = Matrix3 { rows: [[1, 0, 0], [0, 1, 0], [0, 0, 1]] };
        assert(r@ =~~= identity_mat());
        r
    }

    /// The matrix whose columns are the given coordinate arrays.
    pub fn from_columns(c: &[[i64; 3]; 3]) -> (r: Self)
        ensures
            r@ == transpose(Seq::new(3, |i: int| ints(c[i]))),
    {
        let r = Matrix3 {
            rows: [[c[0][0], c[1][0], c[2][0]], [c[0][1], c[1][1], c[2][1]], [
                c[0][2],
                c[1][2],
                c[2][2],
            ]],
        };
        assert(r@ =~~= transpose(Seq::new(3, |i: int| ints(c[i]))));
        r
    }

    pub fn column(&self, j: usize) -> (r: [i64; 3])
        requires
            j < 3,
        ensures
            ints(r) == column(self@, j as int),
    {
        let r = [self.rows[0][j], self.rows[1][j], self.rows[2][j]];
        assert(ints(r) =~= column(self@, j as int));
        r
    }

    pub fn transpose(&self) -> (r: Self)
        ensures
            r@ == transpose(self@),
    {
        Matrix3 { rows: raw_transpose(&self.rows) }
    }

    /// The product with a coordinate array.
    pub fn mul_vec(&self, v: &[i64; 3]) -> (r: [i64; 3])
        requires
            mat_vec_fits(self@, ints(*v)),
        ensures
            ints(r) == mat_vec(self@, ints(*v)),
    {
        raw_mat_vec(&self.rows, v)
    }

    pub fn mul(&self, other: &Self) -> (r: Self)
        requires
            mul_fits(self@, other@),
        ensures
            r@ == mat_mul(self@, other@),
    {
        Matrix3 { rows: raw_mat_mul(&self.rows, &other.rows) }
    }
}

/// A matrix given by rows, as integers.
pub open spec fn rows_model(rows: [[i64; 3]; 3]) -> Mat {
    Seq::new(3, |i: int| ints(rows[i]))
}

/// Relies on nalgebra's `Matrix::transpose`; the arrays of rows become the
/// columns of nalgebra's matrices and back.
#[verifier::external_body]
fn raw_transpose(a: &[[i64; 3]; 3]) -> (r: [[i64; 3]; 3])
    ensures
        rows_model(r) == transpose(rows_model(*a)),
{
    nalgebra::Matrix3::from(*a).transpose().into()
}

/// Relies on nalgebra's product of a matrix by a vector (`Matrix * Vector`),
/// which sums products with the `i64` operations of std; the bound on the
/// absolute products keeps every partial sum in range.
#[verifier::external_body]
fn raw_mat_vec(a: &[[i64; 3]; 3], v: &[i64; 3]) -> (r: [i64; 3])
    requires
        mat_vec_fits(rows_model(*a), ints(*v)),
    ensures
        ints(r) == mat_vec(rows_model(*a), ints(*v)),
{
    (nalgebra::Matrix3::from(*a).transpose() * nalgebra::Vector3::from(*v)).into()
}

/// Relies on nalgebra's matrix product (`Matrix * Matrix`), which sums
/// products with the `i64` operations of std; the bound on the absolute
/// products keeps every partial sum in range.
#[verifier::external_body]
fn raw_mat_mul(a: &[[i64; 3]; 3], b: &[[i64; 3]; 3]) -> (r: [[i64; 3]; 3])
    requires
        mul_fits(rows_model(*a), rows_model(*b)),
    ensures
        rows_model(r) == mat_mul(rows_model(*a), rows_model(*b)),
{
    let p = nalgebra::Matrix3::from(*a).transpose() * nalgebra::Matrix3::from(*b).transpose();
    p.transpose().into()
}

} // verus!
