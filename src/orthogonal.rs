use vstd::prelude::*;
use crate::lie::{GroupAction, LieGroup, Torsor};
use crate::manifold::Chart;
use crate::manifold::{fits, Manifold};
use crate::matrix::{
    det, lemma_entries, mat, identity_mat, is_mat, lemma_det_mul, lemma_mat_vec_assoc, lemma_mat_vec_identity, lemma_mat_vec_linear,
    lemma_mul_assoc, lemma_mul_identity, lemma_transpose_mul, lemma_view_is_mat, mat_mul,
    mat_vec, mat_vec_fits, mul_fits, transpose, Mat, Matrix3,
};
use crate::space::{dot, add_seq, all_fit, ints, neg_seq, scale_seq, zeros, Covector, Vector};

verus! {

/// The plane.
#[derive(Clone, Copy, Debug, PartialEq, Eq)]
pub struct U2;

/// Space.
#[derive(Clone, Copy, Debug, PartialEq, Eq)]
pub struct U3;

/// The dimension of the rotation group of a space of dimension `n`:
/// `n * (n - 1) / 2`.
pub trait DimOfSO {
    spec fn rotation_dim() -> nat;

    fn dimension_of_rotations() -> (r: usize)
        ensures
            r == Self::rotation_dim(),
    ;
}

/// How the rotations of a dimension are represented.
pub trait SORepr: DimOfSO {
    type Repr: LieGroup + Copy;
}

/// A rotation of the plane by a whole number of quarter turns,
/// counterclockwise for positive numbers; the number is kept as given.
#[derive(Clone, Copy, Debug, PartialEq, Eq)]
pub struct SpecialOrthogonalGroup2D {
    pub quarter_turns: i64,
}

impl View for SpecialOrthogonalGroup2D {
    type V = int;

    open spec fn view(&self) -> int {
        self.quarter_turns as int
    }
}

/// The vector `v` of the plane turned by `k` quarter turns.
pub open spec fn turned(k: int, v: Seq<int>) -> Seq<int> {
    let q = k % 4;
    if q == 0 {
        seq![v[0], v[1]]
    } else if q == 1 {
        seq![-v[1], v[0]]
    } else if q == 2 {
        seq![-v[0], -v[1]]
    } else {
        seq![v[1], -v[0]]
    }
}

impl LieGroup for SpecialOrthogonalGroup2D {
    open spec fn element(g: int) -> bool {
        true
    }

    open spec fn unit() -> int {
        0
    }

    open spec fn op(a: int, b: int) -> int {
        a + b
    }

    open spec fn inv(a: int) -> int {
        -a
    }

    open spec fn op_fits(a: int, b: int) -> bool {
        fits(a + b)
    }

    open spec fn inv_fits(a: int) -> bool {
        fits(-a)
    }

    proof fn lemma_closed(a: int, b: int) {
    }

    proof fn lemma_associative(a: int, b: int, c: int) {
    }

    proof fn lemma_identity(a: int) {
    }

    proof fn lemma_inverse(a: int) {
    }

    fn identity() -> (r: Self) {
        SpecialOrthogonalGroup2D { quarter_turns: 0 }
    }

    fn multiply(&self, other: &Self) -> (r: Self) {
        SpecialOrthogonalGroup2D { quarter_turns: self.quarter_turns + other.quarter_turns }
    }

    fn inverse(&self) -> (r: Self) {
        SpecialOrthogonalGroup2D { quarter_turns: -self.quarter_turns }
    }
}

impl SpecialOrthogonalGroup2D {
    /// The number of quarter turns reduced to `0..4`.
    pub fn reduced(&self) -> (r: i64)
        ensures
            r == self@ % 4,
    {
        if self.quarter_turns >= 0 {
            self.quarter_turns % 4
        } else {
            let m = -(self.quarter_turns + 1);
            assert(self@ % 4 == 3 - m % 4) by {
                vstd::arithmetic::div_mod::lemma_fundamental_div_mod(m as int, 4);
                vstd::arithmetic::div_mod::lemma_fundamental_div_mod(self@, 4);
            }
            3 - m % 4
        }
    }
}

impl GroupAction<Vector<2>> for SpecialOrthogonalGroup2D {
    open spec fn on_space(x: Seq<int>) -> bool {
        x.len() == 2
    }

    open spec fn action(g: int, x: Seq<int>) -> Seq<int> {
        turned(g, x)
    }

    open spec fn action_fits(g: int, x: Seq<int>) -> bool {
        all_fit(turned(g, x))
    }

    proof fn lemma_action(g: int, h: int, x: Seq<int>) {
        vstd::arithmetic::div_mod::lemma_add_mod_noop(g, h, 4);
        let y = turned(h, x);
        assert(turned(0, x) =~= x);
        assert(turned(g + h, x) =~= turned(g, y));
    }

    fn act_on(&self, point: &Vector<2>) -> (r: Vector<2>) {
        let q = self.reduced();
        let (x, y) = (point.raw[0], point.raw[1]);
        let ghost t = turned(self@, point@);
        let raw = if q == 0 {
            [x, y]
        } else if q == 1 {
            assert(fits(t[0]));
            [-y, x]
        } else if q == 2 {
            assert(fits(t[0]) && fits(t[1]));
            [-x, -y]
        } else {
            assert(fits(t[1]));
            [y, -x]
        };
        let r = Vector { raw };
        assert(r@ =~= turned(self@, point@));
        r
    }
}

/// `r` is a rotation matrix: orthogonal with determinant one.
pub open spec fn is_rotation(r: Mat) -> bool {
    &&& is_mat(r)
    &&& mat_mul(transpose(r), r) == identity_mat()
    &&& mat_mul(r, transpose(r)) == identity_mat()
    &&& det(r) == 1
}

/// A rotation of space, by its matrix.
#[derive(Clone, Copy, Debug, PartialEq, Eq)]
pub struct SpecialOrthogonalGroup3D {
    pub matrix: Matrix3,
}

impl View for SpecialOrthogonalGroup3D {
    type V = Mat;

    open spec fn view(&self) -> Mat {
        self.matrix@
    }
}

pub proof fn lemma_identity_rotation()
    ensures
        is_rotation(identity_mat()),
        transpose(identity_mat()) == identity_mat(),
{
    let i = identity_mat();
    assert(transpose(i) =~~= i);
    lemma_mul_identity(i);
    assert(i[0][0] == 1 && i[0][1] == 0 && i[0][2] == 0);
    assert(i[1][0] == 0 && i[1][1] == 1 && i[1][2] == 0);
    assert(i[2][0] == 0 && i[2][1] == 0 && i[2][2] == 1);
    assert(det(i) == 1);
}

/// The transpose of a rotation is a rotation.
proof fn lemma_rotation_transpose(a: Mat)
    requires
        is_rotation(a),
    ensures
        is_rotation(transpose(a)),
{
    assert(is_mat(a));
    lemma_transpose_mul(a, a);
    lemma_det_mul(a, a);
}

/// The product of two rotations is a rotation.
proof fn lemma_rotation_product(a: Mat, b: Mat)
    requires
        is_rotation(a),
        is_rotation(b),
    ensures
        is_rotation(mat_mul(a, b)),
{
    assert(is_mat(a) && is_mat(b));
    let ab = mat_mul(a, b);
    let (at, bt) = (transpose(a), transpose(b));
    lemma_transpose_mul(a, b);
    lemma_transpose_mul(a, a);
    lemma_transpose_mul(b, b);
    assert(is_mat(at) && is_mat(bt));
    // (ab)^T (ab) = b^T (a^T a) b = b^T b
    lemma_mul_assoc(bt, at, ab);
    lemma_mul_assoc(at, a, b);
    lemma_mul_identity(b);
    // (ab) (ab)^T = a (b b^T) a^T = a a^T
    lemma_mul_assoc(a, b, mat_mul(bt, at));
    lemma_mul_assoc(b, bt, at);
    lemma_mul_identity(at);
    lemma_det_mul(a, b);
}

impl LieGroup for SpecialOrthogonalGroup3D {
    open spec fn element(g: Mat) -> bool {
        is_rotation(g)
    }

    open spec fn unit() -> Mat {
        identity_mat()
    }

    open spec fn op(a: Mat, b: Mat) -> Mat {
        mat_mul(a, b)
    }

    open spec fn inv(a: Mat) -> Mat {
        transpose(a)
    }

    open spec fn op_fits(a: Mat, b: Mat) -> bool {
        mul_fits(a, b)
    }

    open spec fn inv_fits(a: Mat) -> bool {
        true
    }

    proof fn lemma_closed(a: Mat, b: Mat) {
        assert(Self::element(a) == is_rotation(a));
        assert(is_rotation(a) && is_rotation(b));
        lemma_identity_rotation();
        lemma_rotation_product(a, b);
        lemma_rotation_transpose(a);
        assert(Self::op(a, b) == mat_mul(a, b));
        assert(Self::inv(a) == transpose(a));
        assert(Self::unit() == identity_mat());
        assert(Self::element(mat_mul(a, b)) == is_rotation(mat_mul(a, b)));
        assert(Self::element(transpose(a)) == is_rotation(transpose(a)));
        assert(Self::element(identity_mat()) == is_rotation(identity_mat()));
    }

    proof fn lemma_associative(a: Mat, b: Mat, c: Mat) {
        lemma_mul_assoc(a, b, c);
    }

    proof fn lemma_identity(a: Mat) {
        lemma_mul_identity(a);
    }

    proof fn lemma_inverse(a: Mat) {
    }

    fn identity() -> (r: Self) {
        SpecialOrthogonalGroup3D { matrix: Matrix3::identity() }
    }

    fn multiply(&self, other: &Self) -> (r: Self) {
        SpecialOrthogonalGroup3D { matrix: self.matrix.mul(&other.matrix) }
    }

    fn inverse(&self) -> (r: Self) {
        SpecialOrthogonalGroup3D { matrix: self.matrix.transpose() }
    }
}

impl GroupAction<Vector<3>> for SpecialOrthogonalGroup3D {
    open spec fn on_space(x: Seq<int>) -> bool {
        x.len() == 3
    }

    open spec fn action(g: Mat, x: Seq<int>) -> Seq<int> {
        mat_vec(g, x)
    }

    open spec fn action_fits(g: Mat, x: Seq<int>) -> bool {
        mat_vec_fits(g, x)
    }

    proof fn lemma_action(g: Mat, h: Mat, x: Seq<int>) {
        lemma_mat_vec_identity(x);
        lemma_mat_vec_assoc(g, h, x);
    }

    fn act_on(&self, point: &Vector<3>) -> (r: Vector<3>) {
        Vector { raw: self.matrix.mul_vec(&point.raw) }
    }
}

impl SORepr for U2 {
    type Repr = SpecialOrthogonalGroup2D;
}

impl DimOfSO for U2 {
    open spec fn rotation_dim() -> nat {
        1
    }

    fn dimension_of_rotations() -> (r: usize) {
        2 * (2 - 1) / 2
    }
}

impl SORepr for U3 {
    type Repr = SpecialOrthogonalGroup3D;
}

impl DimOfSO for U3 {
    open spec fn rotation_dim() -> nat {
        3
    }

    fn dimension_of_rotations() -> (r: usize) {
        3 * (3 - 1) / 2
    }
}

/// The special orthogonal group: the rotations of the plane (`U2`) or of
/// space (`U3`).
#[derive(Clone, Copy)]
pub struct SpecialOrthogonalGroup<D: SORepr> {
    pub repr: D::Repr,
}

pub type SO<D> = SpecialOrthogonalGroup<D>;

pub type Rotation2D = SpecialOrthogonalGroup<U2>;

pub type Rotation3D = SpecialOrthogonalGroup<U3>;

impl<D: SORepr> View for SpecialOrthogonalGroup<D> {
    type V = <D::Repr as View>::V;

    open spec fn view(&self) -> Self::V {
        self.repr@
    }
}

impl<D: SORepr> Manifold for SpecialOrthogonalGroup<D> {
    open spec fn dim() -> nat {
        D::rotation_dim()
    }

    fn dimension() -> (r: usize) {
        D::dimension_of_rotations()
    }
}

impl<D: SORepr> LieGroup for SpecialOrthogonalGroup<D> {
    open spec fn element(g: Self::V) -> bool {
        D::Repr::element(g)
    }

    open spec fn unit() -> Self::V {
        D::Repr::unit()
    }

    open spec fn op(a: Self::V, b: Self::V) -> Self::V {
        D::Repr::op(a, b)
    }

    open spec fn inv(a: Self::V) -> Self::V {
        D::Repr::inv(a)
    }

    open spec fn op_fits(a: Self::V, b: Self::V) -> bool {
        D::Repr::op_fits(a, b)
    }

    open spec fn inv_fits(a: Self::V) -> bool {
        D::Repr::inv_fits(a)
    }

    proof fn lemma_closed(a: Self::V, b: Self::V) {
        D::Repr::lemma_closed(a, b);
    }

    proof fn lemma_associative(a: Self::V, b: Self::V, c: Self::V) {
        D::Repr::lemma_associative(a, b, c);
    }

    proof fn lemma_identity(a: Self::V) {
        D::Repr::lemma_identity(a);
    }

    proof fn lemma_inverse(a: Self::V) {
        D::Repr::lemma_inverse(a);
    }

    fn identity() -> (r: Self) {
        SpecialOrthogonalGroup { repr: D::Repr::identity() }
    }

    fn multiply(&self, other: &Self) -> (r: Self) {
        SpecialOrthogonalGroup { repr: self.repr.multiply(&other.repr) }
    }

    fn inverse(&self) -> (r: Self) {
        SpecialOrthogonalGroup { repr: self.repr.inverse() }
    }
}

impl GroupAction<Vector<2>> for SpecialOrthogonalGroup<U2> {
    open spec fn on_space(x: Seq<int>) -> bool {
        x.len() == 2
    }

    open spec fn action(g: int, x: Seq<int>) -> Seq<int> {
        turned(g, x)
    }

    open spec fn action_fits(g: int, x: Seq<int>) -> bool {
        all_fit(turned(g, x))
    }

    proof fn lemma_action(g: int, h: int, x: Seq<int>) {
        <SpecialOrthogonalGroup2D as GroupAction<Vector<2>>>::lemma_action(g, h, x);
    }

    fn act_on(&self, point: &Vector<2>) -> (r: Vector<2>) {
        self.repr.act_on(point)
    }
}

impl GroupAction<Vector<3>> for SpecialOrthogonalGroup<U3> {
    open spec fn on_space(x: Seq<int>) -> bool {
        x.len() == 3
    }

    open spec fn action(g: Mat, x: Seq<int>) -> Seq<int> {
        mat_vec(g, x)
    }

    open spec fn action_fits(g: Mat, x: Seq<int>) -> bool {
        mat_vec_fits(g, x)
    }

    proof fn lemma_action(g: Mat, h: Mat, x: Seq<int>) {
        <SpecialOrthogonalGroup3D as GroupAction<Vector<3>>>::lemma_action(g, h, x);
    }

    fn act_on(&self, point: &Vector<3>) -> (r: Vector<3>) {
        self.repr.act_on(point)
    }
}

impl SpecialOrthogonalGroup<U2> {
    /// The rotation by `angle` quarter turns.
    pub fn from_angle(angle: i64) -> (r: Self)
        ensures
            r@ == angle as int,
    {
        SpecialOrthogonalGroup { repr: SpecialOrthogonalGroup2D { quarter_turns: angle } }
    }

    /// The angle, in quarter turns, as it was built.
    pub fn angle(&self) -> (r: i64)
        ensures
            r == self@,
    {
        self.repr.quarter_turns
    }
}

/// The cosine of `q` quarter turns, for `q` in `0..4`.
pub open spec fn cos_q(q: int) -> int {
    if q == 0 {
        1
    } else if q == 2 {
        -1
    } else {
        0
    }
}

/// The sine of `q` quarter turns, for `q` in `0..4`.
pub open spec fn sin_q(q: int) -> int {
    if q == 1 {
        1
    } else if q == 3 {
        -1
    } else {
        0
    }
}

/// The rotation by `k` quarter turns about the coordinate axis `i`, in the
/// sense of the right hand.
pub open spec fn axis_rotation(i: int, k: int) -> Mat {
    let c = cos_q(k % 4);
    let s = sin_q(k % 4);
    if i == 0 {
        mat(1, 0, 0, 0, c, -s, 0, s, c)
    } else if i == 1 {
        mat(c, 0, s, 0, 1, 0, -s, 0, c)
    } else {
        mat(c, -s, 0, s, c, 0, 0, 0, 1)
    }
}

/// The coordinate axis that a vector lies along, and whether it points
/// against that axis.
pub open spec fn axis_of(a: Seq<int>) -> Option<(int, bool)> {
    if a[0] != 0 && a[1] == 0 && a[2] == 0 {
        Some((0, a[0] < 0))
    } else if a[0] == 0 && a[1] != 0 && a[2] == 0 {
        Some((1, a[1] < 0))
    } else if a[0] == 0 && a[1] == 0 && a[2] != 0 {
        Some((2, a[2] < 0))
    } else {
        None
    }
}

proof fn lemma_rotation_entries(
    a00: int, a01: int, a02: int,
    a10: int, a11: int, a12: int,
    a20: int, a21: int, a22: int,
)
    requires
        a00 * a00 + a10 * a10 + a20 * a20 == 1,
        a01 * a01 + a11 * a11 + a21 * a21 == 1,
        a02 * a02 + a12 * a12 + a22 * a22 == 1,
        a00 * a01 + a10 * a11 + a20 * a21 == 0,
        a00 * a02 + a10 * a12 + a20 * a22 == 0,
        a01 * a02 + a11 * a12 + a21 * a22 == 0,
        a00 * a00 + a01 * a01 + a02 * a02 == 1,
        a10 * a10 + a11 * a11 + a12 * a12 == 1,
        a20 * a20 + a21 * a21 + a22 * a22 == 1,
        a00 * a10 + a01 * a11 + a02 * a12 == 0,
        a00 * a20 + a01 * a21 + a02 * a22 == 0,
        a10 * a20 + a11 * a21 + a12 * a22 == 0,
        crate::algebra::det9(a00, a01, a02, a10, a11, a12, a20, a21, a22) == 1,
    ensures
        is_rotation(mat(a00, a01, a02, a10, a11, a12, a20, a21, a22)),
{
    let m = mat(a00, a01, a02, a10, a11, a12, a20, a21, a22);
    lemma_entries(a00, a01, a02, a10, a11, a12, a20, a21, a22);
    let t = transpose(m);
    let e = identity_mat();
    assert forall|i: int, j: int| 0 <= i < 3 && 0 <= j < 3 implies mat_mul(t, m)[i][j] == e[i][j]
        && mat_mul(m, t)[i][j] == e[i][j] by {
        crate::algebra::lemma_swapped_factors(t[i][0], t[i][1], t[i][2], m[0][j], m[1][j], m[2][j]);
        crate::algebra::lemma_swapped_factors(m[i][0], m[i][1], m[i][2], t[0][j], t[1][j], t[2][j]);
        if i == 0 {
        } else if i == 1 {
        } else {
        }
        if j == 0 {
        } else if j == 1 {
        } else {
        }
    }
    assert(mat_mul(t, m) =~~= e);
    assert(mat_mul(m, t) =~~= e);
}

pub proof fn lemma_axis_rotation(i: int, k: int)
    requires
        0 <= i < 3,
    ensures
        is_rotation(axis_rotation(i, k)),
{
    let q = k % 4;
    if i == 0 {
        if q == 0 {
            lemma_rotation_entries(1, 0, 0, 0, 1, 0, 0, 0, 1);
        } else if q == 1 {
            lemma_rotation_entries(1, 0, 0, 0, 0, -1, 0, 1, 0);
        } else if q == 2 {
            lemma_rotation_entries(1, 0, 0, 0, -1, 0, 0, 0, -1);
        } else {
            lemma_rotation_entries(1, 0, 0, 0, 0, 1, 0, -1, 0);
        }
    } else if i == 1 {
        if q == 0 {
            lemma_rotation_entries(1, 0, 0, 0, 1, 0, 0, 0, 1);
        } else if q == 1 {
            lemma_rotation_entries(0, 0, 1, 0, 1, 0, -1, 0, 0);
        } else if q == 2 {
            lemma_rotation_entries(-1, 0, 0, 0, 1, 0, 0, 0, -1);
        } else {
            lemma_rotation_entries(0, 0, -1, 0, 1, 0, 1, 0, 0);
        }
    } else {
        if q == 0 {
            lemma_rotation_entries(1, 0, 0, 0, 1, 0, 0, 0, 1);
        } else if q == 1 {
            lemma_rotation_entries(0, -1, 0, 1, 0, 0, 0, 0, 1);
        } else if q == 2 {
            lemma_rotation_entries(-1, 0, 0, 0, -1, 0, 0, 0, 1);
        } else {
            lemma_rotation_entries(0, 1, 0, -1, 0, 0, 0, 0, 1);
        }
    }
}

impl SpecialOrthogonalGroup<U3> {
    /// The rotation by `quarter_turns` quarter turns about a vector along a
    /// coordinate axis, in the sense of the right hand.
    fn coordinate_axis_rotation(axis: &Vector<3>, quarter_turns: i64) -> (r: Option<Self>)
        ensures
            match axis_of(axis@) {
                Some((i, against)) => r is Some && r->Some_0@ == axis_rotation(
                    i,
                    if against {
                        -(quarter_turns as int)
                    } else {
                        quarter_turns as int
                    },
                ),
                None => r is None,
            },
            r is Some ==> is_rotation(r->Some_0@),
    {
        let (x, y, z) = (axis.raw[0], axis.raw[1], axis.raw[2]);
        let (i, against): (usize, bool) = if x != 0 && y == 0 && z == 0 {
            (0, x < 0)
        } else if x == 0 && y != 0 && z == 0 {
            (1, y < 0)
        } else if x == 0 && y == 0 && z != 0 {
            (2, z < 0)
        } else {
            return None;
        };
        let k = SpecialOrthogonalGroup2D { quarter_turns }.reduced();
        let q = if against {
            (4 - k) % 4
        } else {
            k
        };
        let ghost turns: int = if against {
            -(quarter_turns as int)
        } else {
            quarter_turns as int
        };
        assert(q == turns % 4) by {
            vstd::arithmetic::div_mod::lemma_fundamental_div_mod(quarter_turns as int, 4);
            vstd::arithmetic::div_mod::lemma_fundamental_div_mod(turns, 4);
        }
        let c: i64 = if q == 0 {
            1
        } else if q == 2 {
            -1
        } else {
            0
        };
        let s: i64 = if q == 1 {
            1
        } else if q == 3 {
            -1
        } else {
            0
        };
        let rows = if i == 0 {
            [[1, 0, 0], [0, c, -s], [0, s, c]]
        } else if i == 1 {
            [[c, 0, s], [0, 1, 0], [-s, 0, c]]
        } else {
            [[c, -s, 0], [s, c, 0], [0, 0, 1]]
        };
        let r = SpecialOrthogonalGroup { repr: SpecialOrthogonalGroup3D { matrix: Matrix3 { rows } } };
        proof {
            let e = axis_rotation(i as int, turns);
            if i == 0 {
                lemma_entries(1, 0, 0, 0, c as int, -s, 0, s as int, c as int);
            } else if i == 1 {
                lemma_entries(c as int, 0, s as int, 0, 1, 0, -s, 0, c as int);
            } else {
                lemma_entries(c as int, -s, 0, s as int, c as int, 0, 0, 0, 1);
            }
            assert(r@ =~~= e);
            lemma_axis_rotation(i as int, turns);
        }
        Some(r)
    }
}

/// The entries of a rotation matrix lie in `[-1, 1]`.
pub proof fn lemma_rotation_entries_bounded(r: Mat)
    requires
        is_rotation(r),
    ensures
        forall|i: int, j: int| 0 <= i < 3 && 0 <= j < 3 ==> -1 <= #[trigger] r[i][j] <= 1,
{
    assert forall|i: int, j: int| 0 <= i < 3 && 0 <= j < 3 implies -1 <= #[trigger] r[i][j] <= 1 by {
        let (x0, x1, x2) = (r[i][0], r[i][1], r[i][2]);
        assert(mat_mul(r, transpose(r))[i][i] == identity_mat()[i][i]);
        assert(x0 * x0 + x1 * x1 + x2 * x2 == 1);
        crate::algebra::lemma_square_nonnegative(x0);
        crate::algebra::lemma_square_nonnegative(x1);
        crate::algebra::lemma_square_nonnegative(x2);
        if j == 0 {
            crate::algebra::lemma_unit_square(x0, x1 * x1 + x2 * x2);
        } else if j == 1 {
            crate::algebra::lemma_unit_square(x1, x0 * x0 + x2 * x2);
        } else {
            crate::algebra::lemma_unit_square(x2, x0 * x0 + x1 * x1);
        }
    }
}

/// Twice the sine of the angle times the unit axis: the vector of the
/// antisymmetric part of `r`.
pub open spec fn skew_axis(r: Mat) -> Seq<int> {
    seq![r[2][1] - r[1][2], r[0][2] - r[2][0], r[1][0] - r[0][1]]
}

/// Some coordinate is `1` or `-1`, so no integer larger than one divides
/// them all.
pub open spec fn has_unit_entry(v: Seq<int>) -> bool {
    v[0] == 1 || v[0] == -1 || v[1] == 1 || v[1] == -1 || v[2] == 1 || v[2] == -1
}

/// The first nonzero coordinate is positive.
pub open spec fn leading_positive(v: Seq<int>) -> bool {
    if v[0] != 0 {
        v[0] > 0
    } else if v[1] != 0 {
        v[1] > 0
    } else {
        v[2] > 0
    }
}

/// The adjugate of a rotation is its transpose.
proof fn lemma_rotation_adjugate(r: Mat)
    requires
        is_rotation(r),
    ensures
        crate::matrix::adjugate(r) == transpose(r),
{
    let a = crate::matrix::adjugate(r);
    crate::matrix::lemma_adjugate(r);
    lemma_entries(
        r[1][1] * r[2][2] - r[1][2] * r[2][1],
        r[0][2] * r[2][1] - r[0][1] * r[2][2],
        r[0][1] * r[1][2] - r[0][2] * r[1][1],
        r[1][2] * r[2][0] - r[1][0] * r[2][2],
        r[0][0] * r[2][2] - r[0][2] * r[2][0],
        r[0][2] * r[1][0] - r[0][0] * r[1][2],
        r[1][0] * r[2][1] - r[1][1] * r[2][0],
        r[0][1] * r[2][0] - r[0][0] * r[2][1],
        r[0][0] * r[1][1] - r[0][1] * r[1][0],
    );
    assert(crate::matrix::scale_mat(identity_mat(), det(r)) =~~= identity_mat());
    let t = transpose(r);
    lemma_transpose_mul(r, r);
    lemma_mul_assoc(t, r, a);
    lemma_mul_identity(a);
    lemma_mul_identity(t);
}

proof fn lemma_skew_row0(r00: int, r01: int, r02: int, r10: int, r12: int, r20: int, r21: int)
    ensures
        r00 * (r21 - r12) + r01 * (r02 - r20) + r02 * (r10 - r01) == (r02 * r10 - r00 * r12) - (r01
            * r20 - r00 * r21),
{
    broadcast use vstd::arithmetic::mul::group_mul_properties;

}

proof fn lemma_skew_row1(r01: int, r02: int, r10: int, r11: int, r12: int, r20: int, r21: int)
    ensures
        r10 * (r21 - r12) + r11 * (r02 - r20) + r12 * (r10 - r01) == (r10 * r21 - r11 * r20) - (r01
            * r12 - r02 * r11),
{
    broadcast use vstd::arithmetic::mul::group_mul_properties;

}

proof fn lemma_skew_row2(r01: int, r02: int, r10: int, r12: int, r20: int, r21: int, r22: int)
    ensures
        r20 * (r21 - r12) + r21 * (r02 - r20) + r22 * (r10 - r01) == (r02 * r21 - r01 * r22) - (r12
            * r20 - r10 * r22),
{
    broadcast use vstd::arithmetic::mul::group_mul_properties;

}

/// A rotation keeps the vector of its antisymmetric part.
proof fn lemma_skew_axis_fixed(r: Mat)
    requires
        is_rotation(r),
    ensures
        mat_vec(r, skew_axis(r)) == skew_axis(r),
{
    lemma_rotation_adjugate(r);
    let a = crate::matrix::adjugate(r);
    lemma_entries(
        r[1][1] * r[2][2] - r[1][2] * r[2][1],
        r[0][2] * r[2][1] - r[0][1] * r[2][2],
        r[0][1] * r[1][2] - r[0][2] * r[1][1],
        r[1][2] * r[2][0] - r[1][0] * r[2][2],
        r[0][0] * r[2][2] - r[0][2] * r[2][0],
        r[0][2] * r[1][0] - r[0][0] * r[1][2],
        r[1][0] * r[2][1] - r[1][1] * r[2][0],
        r[0][1] * r[2][0] - r[0][0] * r[2][1],
        r[0][0] * r[1][1] - r[0][1] * r[1][0],
    );
    assert(a[1][2] == r[2][1] && a[2][1] == r[1][2] && a[2][0] == r[0][2]);
    assert(a[0][2] == r[2][0] && a[0][1] == r[1][0] && a[1][0] == r[0][1]);
    lemma_skew_row0(r[0][0], r[0][1], r[0][2], r[1][0], r[1][2], r[2][0], r[2][1]);
    lemma_skew_row1(r[0][1], r[0][2], r[1][0], r[1][1], r[1][2], r[2][0], r[2][1]);
    lemma_skew_row2(r[0][1], r[0][2], r[1][0], r[1][2], r[2][0], r[2][1], r[2][2]);
    assert(mat_vec(r, skew_axis(r)) =~= skew_axis(r));
}

/// A column of `r + I` for a rotation `r` of half a turn.
pub open spec fn half_turn_axis(r: Mat, j: int) -> Seq<int> {
    add_seq(crate::matrix::column(r, j), crate::matrix::column(identity_mat(), j))
}

/// A symmetric rotation keeps every column of `r + I`, and `r + I` has a
/// nonzero column.
proof fn lemma_half_turn(r: Mat)
    requires
        is_rotation(r),
        skew_axis(r) == zeros(3),
    ensures
        forall|j: int| 0 <= j < 3 ==> mat_vec(r, #[trigger] half_turn_axis(r, j)) == half_turn_axis(r, j),
        half_turn_axis(r, 0) != zeros(3) || half_turn_axis(r, 1) != zeros(3) || half_turn_axis(r, 2)
            != zeros(3),
{
    let z = zeros(3);
    assert(z[0] == 0 && z[1] == 0 && z[2] == 0);
    assert(skew_axis(r)[0] == 0 && skew_axis(r)[1] == 0 && skew_axis(r)[2] == 0);
    assert(transpose(r) =~~= r);
    let e = identity_mat();
    assert(e[0][0] == 1 && e[0][1] == 0 && e[0][2] == 0);
    assert(e[1][0] == 0 && e[1][1] == 1 && e[1][2] == 0);
    assert(e[2][0] == 0 && e[2][1] == 0 && e[2][2] == 1);
    assert forall|j: int| 0 <= j < 3 implies mat_vec(r, #[trigger] half_turn_axis(r, j))
        == half_turn_axis(r, j) by {
        let c = crate::matrix::column(r, j);
        let u = crate::matrix::column(e, j);
        lemma_mat_vec_linear(r, c, u);
        assert(mat_vec(r, c) =~= crate::matrix::column(mat_mul(r, r), j));
        assert(mat_mul(r, r) == e);
        assert(mat_vec(r, u) =~= c);
        assert(crate::matrix::column(e, j) == u);
        assert(add_seq(u, c) =~= add_seq(c, u));
    }
    if half_turn_axis(r, 0) == z && half_turn_axis(r, 1) == z && half_turn_axis(r, 2) == z {
        assert(half_turn_axis(r, 0)[0] == 0 && half_turn_axis(r, 0)[1] == 0 && half_turn_axis(r, 0)[2] == 0);
        assert(half_turn_axis(r, 1)[0] == 0 && half_turn_axis(r, 1)[1] == 0 && half_turn_axis(r, 1)[2] == 0);
        assert(half_turn_axis(r, 2)[0] == 0 && half_turn_axis(r, 2)[1] == 0 && half_turn_axis(r, 2)[2] == 0);
        assert(r[0][0] == -1 && r[1][1] == -1 && r[2][2] == -1);
        assert(r[0][1] == 0 && r[0][2] == 0 && r[1][0] == 0 && r[1][2] == 0 && r[2][0] == 0 && r[2][1] == 0);
        lemma_entries(-1, 0, 0, 0, -1, 0, 0, 0, -1);
        let m = mat(-1, 0, 0, 0, -1, 0, 0, 0, -1);
        assert(r =~~= m);
        assert(det(m) == -1);
    }
}

/// The signs of a vector along a diagonal of a face of the cube: one zero
/// coordinate and two others of equal size.
pub open spec fn face_signs(a: Seq<int>) -> Option<Seq<int>> {
    let sg = |x: int| if x > 0 { 1int } else if x < 0 { -1int } else { 0int };
    if a[0] == 0 && a[1] != 0 && a[2] != 0 && (a[1] == a[2] || a[1] == -a[2]) {
        Some(seq![0int, sg(a[1]), sg(a[2])])
    } else if a[1] == 0 && a[0] != 0 && a[2] != 0 && (a[0] == a[2] || a[0] == -a[2]) {
        Some(seq![sg(a[0]), 0int, sg(a[2])])
    } else if a[2] == 0 && a[0] != 0 && a[1] != 0 && (a[0] == a[1] || a[0] == -a[1]) {
        Some(seq![sg(a[0]), sg(a[1]), 0int])
    } else {
        None
    }
}

/// The half turn about the face diagonal with signs `s`: `s s^T - I`.
pub open spec fn half_turn_about(s: Seq<int>) -> Mat {
    Seq::new(3, |i: int| Seq::new(3, |j: int| sign_product(s[i], s[j]) - if i == j { 1int } else { 0int }))
}

/// The product of two signs in `{-1, 0, 1}`.
pub open spec fn sign_product(a: int, b: int) -> int {
    if a == 0 || b == 0 {
        0
    } else if a == b {
        1
    } else {
        -1
    }
}

fn exec_sign_product(a: i64, b: i64) -> (r: i64)
    ensures
        r == sign_product(a as int, b as int),
{
    if a == 0 || b == 0 {
        0
    } else if a == b {
        1
    } else {
        -1
    }
}

/// The rotation by `k` quarter turns about `a`, when its matrix has integer
/// entries: about a coordinate axis, a whole number of turns about any
/// axis, or a half turn about a diagonal of a face of the cube. Any other
/// rotation moves some lattice point off the lattice.
pub open spec fn lattice_rotation(a: Seq<int>, k: int) -> Option<Mat> {
    match axis_of(a) {
        Some((i, against)) => Some(axis_rotation(i, if against { -k } else { k })),
        None => if a == zeros(3) {
            None
        } else if k % 4 == 0 {
            Some(identity_mat())
        } else if k % 4 == 2 && face_signs(a) is Some {
            Some(half_turn_about(face_signs(a)->Some_0))
        } else {
            None
        },
    }
}

proof fn lemma_half_turn_about(s: Seq<int>)
    requires
        s.len() == 3,
        (s[0] == 0 && (s[1] == 1 || s[1] == -1) && (s[2] == 1 || s[2] == -1)) || (s[1] == 0 && (s[0] == 1
            || s[0] == -1) && (s[2] == 1 || s[2] == -1)) || (s[2] == 0 && (s[0] == 1 || s[0] == -1) && (
        s[1] == 1 || s[1] == -1)),
    ensures
        is_rotation(half_turn_about(s)),
{
    if s[0] == 0 && s[1] == 1 && s[2] == 1 {
        lemma_entries(-1, 0, 0, 0, 0, 1, 0, 1, 0);
        assert(half_turn_about(s) =~~= mat(-1, 0, 0, 0, 0, 1, 0, 1, 0));
        lemma_rotation_entries(-1, 0, 0, 0, 0, 1, 0, 1, 0);
    } else if s[0] == 0 && s[1] == 1 && s[2] == -1 {
        lemma_entries(-1, 0, 0, 0, 0, -1, 0, -1, 0);
        assert(half_turn_about(s) =~~= mat(-1, 0, 0, 0, 0, -1, 0, -1, 0));
        lemma_rotation_entries(-1, 0, 0, 0, 0, -1, 0, -1, 0);
    } else if s[0] == 0 && s[1] == -1 && s[2] == 1 {
        lemma_entries(-1, 0, 0, 0, 0, -1, 0, -1, 0);
        assert(half_turn_about(s) =~~= mat(-1, 0, 0, 0, 0, -1, 0, -1, 0));
        lemma_rotation_entries(-1, 0, 0, 0, 0, -1, 0, -1, 0);
    } else if s[0] == 0 && s[1] == -1 && s[2] == -1 {
        lemma_entries(-1, 0, 0, 0, 0, 1, 0, 1, 0);
        assert(half_turn_about(s) =~~= mat(-1, 0, 0, 0, 0, 1, 0, 1, 0));
        lemma_rotation_entries(-1, 0, 0, 0, 0, 1, 0, 1, 0);
    } else if s[0] == 1 && s[1] == 0 && s[2] == 1 {
        lemma_entries(0, 0, 1, 0, -1, 0, 1, 0, 0);
        assert(half_turn_about(s) =~~= mat(0, 0, 1, 0, -1, 0, 1, 0, 0));
        lemma_rotation_entries(0, 0, 1, 0, -1, 0, 1, 0, 0);
    } else if s[0] == 1 && s[1] == 0 && s[2] == -1 {
        lemma_entries(0, 0, -1, 0, -1, 0, -1, 0, 0);
        assert(half_turn_about(s) =~~= mat(0, 0, -1, 0, -1, 0, -1, 0, 0));
        lemma_rotation_entries(0, 0, -1, 0, -1, 0, -1, 0, 0);
    } else if s[0] == -1 && s[1] == 0 && s[2] == 1 {
        lemma_entries(0, 0, -1, 0, -1, 0, -1, 0, 0);
        assert(half_turn_about(s) =~~= mat(0, 0, -1, 0, -1, 0, -1, 0, 0));
        lemma_rotation_entries(0, 0, -1, 0, -1, 0, -1, 0, 0);
    } else if s[0] == -1 && s[1] == 0 && s[2] == -1 {
        lemma_entries(0, 0, 1, 0, -1, 0, 1, 0, 0);
        assert(half_turn_about(s) =~~= mat(0, 0, 1, 0, -1, 0, 1, 0, 0));
        lemma_rotation_entries(0, 0, 1, 0, -1, 0, 1, 0, 0);
    } else if s[0] == 1 && s[1] == 1 && s[2] == 0 {
        lemma_entries(0, 1, 0, 1, 0, 0, 0, 0, -1);
        assert(half_turn_about(s) =~~= mat(0, 1, 0, 1, 0, 0, 0, 0, -1));
        lemma_rotation_entries(0, 1, 0, 1, 0, 0, 0, 0, -1);
    } else if s[0] == 1 && s[1] == -1 && s[2] == 0 {
        lemma_entries(0, -1, 0, -1, 0, 0, 0, 0, -1);
        assert(half_turn_about(s) =~~= mat(0, -1, 0, -1, 0, 0, 0, 0, -1));
        lemma_rotation_entries(0, -1, 0, -1, 0, 0, 0, 0, -1);
    } else if s[0] == -1 && s[1] == 1 && s[2] == 0 {
        lemma_entries(0, -1, 0, -1, 0, 0, 0, 0, -1);
        assert(half_turn_about(s) =~~= mat(0, -1, 0, -1, 0, 0, 0, 0, -1));
        lemma_rotation_entries(0, -1, 0, -1, 0, 0, 0, 0, -1);
    } else if s[0] == -1 && s[1] == -1 && s[2] == 0 {
        lemma_entries(0, 1, 0, 1, 0, 0, 0, 0, -1);
        assert(half_turn_about(s) =~~= mat(0, 1, 0, 1, 0, 0, 0, 0, -1));
        lemma_rotation_entries(0, 1, 0, 1, 0, 0, 0, 0, -1);
    }
}

impl SpecialOrthogonalGroup<U3> {
    /// The rotation by `quarter_turns` quarter turns about `axis`, in the
    /// sense of the right hand, when it keeps the integer lattice; `None` for
    /// the zero axis and for rotations that would leave the lattice.
    pub fn from_axis_angle(axis: &Vector<3>, quarter_turns: i64) -> (r: Option<Self>)
        ensures
            match lattice_rotation(axis@, quarter_turns as int) {
                Some(m) => r is Some && r->Some_0@ == m,
                None => r is None,
            },
            r is Some ==> is_rotation(r->Some_0@),
    {
        let (x, y, z) = (axis.raw[0], axis.raw[1], axis.raw[2]);
        if (x != 0 && y == 0 && z == 0) || (x == 0 && y != 0 && z == 0) || (x == 0 && y == 0 && z != 0) {
            return Self::coordinate_axis_rotation(axis, quarter_turns);
        }
        if x == 0 && y == 0 && z == 0 {
            assert(axis@ =~= zeros(3));
            return None;
        }
        assert(axis@ != zeros(3)) by {
            if axis@ == zeros(3) {
                assert(zeros(3)[0] == 0 && zeros(3)[1] == 0 && zeros(3)[2] == 0);
            }
        }
        let q = SpecialOrthogonalGroup2D { quarter_turns }.reduced();
        if q == 0 {
            proof {
                lemma_identity_rotation();
            }
            return Some(SpecialOrthogonalGroup { repr: SpecialOrthogonalGroup3D { matrix: Matrix3::identity() } });
        }
        if q != 2 {
            return None;
        }
        let sg0: i64 = if x > 0 { 1 } else if x < 0 { -1 } else { 0 };
        let sg1: i64 = if y > 0 { 1 } else if y < 0 { -1 } else { 0 };
        let sg2: i64 = if z > 0 { 1 } else if z < 0 { -1 } else { 0 };
        let face = (x == 0 && (y as i128 == z as i128 || y as i128 == -(z as i128)))
            || (y == 0 && (x as i128 == z as i128 || x as i128 == -(z as i128)))
            || (z == 0 && (x as i128 == y as i128 || x as i128 == -(y as i128)));
        if !face {
            return None;
        }
        let s = [sg0, sg1, sg2];
        assert(face_signs(axis@) is Some);
        assert(ints(s) =~= face_signs(axis@)->Some_0);
        let rows = [
            [exec_sign_product(sg0, sg0) - 1, exec_sign_product(sg0, sg1), exec_sign_product(sg0, sg2)],
            [exec_sign_product(sg1, sg0), exec_sign_product(sg1, sg1) - 1, exec_sign_product(sg1, sg2)],
            [exec_sign_product(sg2, sg0), exec_sign_product(sg2, sg1), exec_sign_product(sg2, sg2) - 1],
        ];
        let r = SpecialOrthogonalGroup { repr: SpecialOrthogonalGroup3D { matrix: Matrix3 { rows } } };
        proof {
            assert(r@ =~~= half_turn_about(ints(s)));
            lemma_half_turn_about(ints(s));
        }
        Some(r)
    }

    /// The angle of the rotation in degrees, in `[0, 180]`; the rotations of
    /// the lattice turn by `0`, `90`, `120` or `180` degrees, read off the
    /// trace `1 + 2 cos(angle)`.
    pub fn angle(&self) -> (d: i64)
        requires
            is_rotation(self@),
        ensures
            d == angle_degrees(self@),
    {
        let r = self.repr.matrix.rows;
        proof {
            lemma_rows_bounded(self.repr.matrix);
        }
        assert(self@[0][0] == r[0][0] && self@[1][1] == r[1][1] && self@[2][2] == r[2][2]);
        let t = r[0][0] + r[1][1] + r[2][2];
        if t == 3 {
            0
        } else if t == 1 {
            90
        } else if t == 0 {
            120
        } else {
            180
        }
    }
}

/// The angle in degrees of a rotation of the lattice, from its trace.
pub open spec fn angle_degrees(r: Mat) -> int {
    let t = r[0][0] + r[1][1] + r[2][2];
    if t == 3 {
        0
    } else if t == 1 {
        90
    } else if t == 0 {
        120
    } else {
        180
    }
}

/// The rotation by `k` quarter turns about the coordinate axis `i` turns by
/// `90` degrees for an odd `k` and by `180` for `k` twice an odd number, and
/// the vector of its antisymmetric part is `2 sin(angle)` times that axis.
pub proof fn coordinate_axis_angle(i: int, k: int)
    requires
        0 <= i < 3,
    ensures
        angle_degrees(axis_rotation(i, k)) == (if k % 4 == 0 {
            0int
        } else if k % 4 == 2 {
            180int
        } else {
            90int
        }),
        skew_axis(axis_rotation(i, k)) == Seq::new(3, |j: int| if j == i { 2 * sin_q(k % 4) } else { 0 }),
{
    let q = k % 4;
    let c = cos_q(q);
    let sn = sin_q(q);
    let m = axis_rotation(i, k);
    if i == 0 {
        lemma_entries(1, 0, 0, 0, c, -sn, 0, sn, c);
    } else if i == 1 {
        lemma_entries(c, 0, sn, 0, 1, 0, -sn, 0, c);
    } else {
        lemma_entries(c, -sn, 0, sn, c, 0, 0, 0, 1);
    }
    assert(skew_axis(m) =~= Seq::new(3, |j: int| if j == i { 2 * sin_q(k % 4) } else { 0 }));
}

/// The signs of a vector along a diagonal of the cube: three coordinates of
/// equal size.
pub open spec fn body_signs(a: Seq<int>) -> Option<Seq<int>> {
    let sg = |x: int| if x > 0 { 1int } else { -1int };
    if a[0] != 0 && (a[1] == a[0] || a[1] == -a[0]) && (a[2] == a[0] || a[2] == -a[0]) {
        Some(seq![sg(a[0]), sg(a[1]), sg(a[2])])
    } else {
        None
    }
}

/// The entry `(i, j)` of the cross-product matrix of `s`.
pub open spec fn cross_entry(s: Seq<int>, i: int, j: int) -> int {
    if i == 0 && j == 1 {
        -s[2]
    } else if i == 0 && j == 2 {
        s[1]
    } else if i == 1 && j == 0 {
        s[2]
    } else if i == 1 && j == 2 {
        -s[0]
    } else if i == 2 && j == 0 {
        -s[1]
    } else if i == 2 && j == 1 {
        s[0]
    } else {
        0
    }
}

/// The rotation by `t` thirds of a turn about the diagonal with signs `s`:
/// `(s s^T - I + (+/-)[s]x) / 2` for `t` one or two.
pub open spec fn third_turn_about(s: Seq<int>, t: int) -> Mat {
    Seq::new(
        3,
        |i: int|
            Seq::new(
                3,
                |j: int|
                    if i == j {
                        0int
                    } else {
                        (sign_product(s[i], s[j]) + if t == 1 {
                            cross_entry(s, i, j)
                        } else {
                            -cross_entry(s, i, j)
                        }) / 2
                    },
            ),
    )
}

/// The rotation by `degrees` about `a`, when its matrix has integer entries:
/// whole quarter turns as `lattice_rotation` gives them, and thirds of a
/// turn about a diagonal of the cube.
pub open spec fn lattice_rotation_degrees(a: Seq<int>, degrees: int) -> Option<Mat> {
    if degrees % 90 == 0 {
        lattice_rotation(a, degrees / 90)
    } else if degrees % 120 == 0 && body_signs(a) is Some {
        Some(third_turn_about(body_signs(a)->Some_0, (degrees / 120) % 3))
    } else {
        None
    }
}

proof fn lemma_third_turn_about(s: Seq<int>, t: int)
    requires
        s.len() == 3,
        s[0] == 1 || s[0] == -1,
        s[1] == 1 || s[1] == -1,
        s[2] == 1 || s[2] == -1,
        t == 1 || t == 2,
    ensures
        is_rotation(third_turn_about(s, t)),
{
    if t == 1 && s[0] == 1 && s[1] == 1 && s[2] == 1 {
        lemma_entries(0, 0, 1, 1, 0, 0, 0, 1, 0);
        assert(third_turn_about(s, t) =~~= mat(0, 0, 1, 1, 0, 0, 0, 1, 0));
        lemma_rotation_entries(0, 0, 1, 1, 0, 0, 0, 1, 0);
    } else if t == 1 && s[0] == 1 && s[1] == 1 && s[2] == -1 {
        lemma_entries(0, 1, 0, 0, 0, -1, -1, 0, 0);
        assert(third_turn_about(s, t) =~~= mat(0, 1, 0, 0, 0, -1, -1, 0, 0));
        lemma_rotation_entries(0, 1, 0, 0, 0, -1, -1, 0, 0);
    } else if t == 1 && s[0] == 1 && s[1] == -1 && s[2] == 1 {
        lemma_entries(0, -1, 0, 0, 0, -1, 1, 0, 0);
        assert(third_turn_about(s, t) =~~= mat(0, -1, 0, 0, 0, -1, 1, 0, 0));
        lemma_rotation_entries(0, -1, 0, 0, 0, -1, 1, 0, 0);
    } else if t == 1 && s[0] == 1 && s[1] == -1 && s[2] == -1 {
        lemma_entries(0, 0, -1, -1, 0, 0, 0, 1, 0);
        assert(third_turn_about(s, t) =~~= mat(0, 0, -1, -1, 0, 0, 0, 1, 0));
        lemma_rotation_entries(0, 0, -1, -1, 0, 0, 0, 1, 0);
    } else if t == 1 && s[0] == -1 && s[1] == 1 && s[2] == 1 {
        lemma_entries(0, -1, 0, 0, 0, 1, -1, 0, 0);
        assert(third_turn_about(s, t) =~~= mat(0, -1, 0, 0, 0, 1, -1, 0, 0));
        lemma_rotation_entries(0, -1, 0, 0, 0, 1, -1, 0, 0);
    } else if t == 1 && s[0] == -1 && s[1] == 1 && s[2] == -1 {
        lemma_entries(0, 0, 1, -1, 0, 0, 0, -1, 0);
        assert(third_turn_about(s, t) =~~= mat(0, 0, 1, -1, 0, 0, 0, -1, 0));
        lemma_rotation_entries(0, 0, 1, -1, 0, 0, 0, -1, 0);
    } else if t == 1 && s[0] == -1 && s[1] == -1 && s[2] == 1 {
        lemma_entries(0, 0, -1, 1, 0, 0, 0, -1, 0);
        assert(third_turn_about(s, t) =~~= mat(0, 0, -1, 1, 0, 0, 0, -1, 0));
        lemma_rotation_entries(0, 0, -1, 1, 0, 0, 0, -1, 0);
    } else if t == 1 && s[0] == -1 && s[1] == -1 && s[2] == -1 {
        lemma_entries(0, 1, 0, 0, 0, 1, 1, 0, 0);
        assert(third_turn_about(s, t) =~~= mat(0, 1, 0, 0, 0, 1, 1, 0, 0));
        lemma_rotation_entries(0, 1, 0, 0, 0, 1, 1, 0, 0);
    } else if t == 2 && s[0] == 1 && s[1] == 1 && s[2] == 1 {
        lemma_entries(0, 1, 0, 0, 0, 1, 1, 0, 0);
        assert(third_turn_about(s, t) =~~= mat(0, 1, 0, 0, 0, 1, 1, 0, 0));
        lemma_rotation_entries(0, 1, 0, 0, 0, 1, 1, 0, 0);
    } else if t == 2 && s[0] == 1 && s[1] == 1 && s[2] == -1 {
        lemma_entries(0, 0, -1, 1, 0, 0, 0, -1, 0);
        assert(third_turn_about(s, t) =~~= mat(0, 0, -1, 1, 0, 0, 0, -1, 0));
        lemma_rotation_entries(0, 0, -1, 1, 0, 0, 0, -1, 0);
    } else if t == 2 && s[0] == 1 && s[1] == -1 && s[2] == 1 {
        lemma_entries(0, 0, 1, -1, 0, 0, 0, -1, 0);
        assert(third_turn_about(s, t) =~~= mat(0, 0, 1, -1, 0, 0, 0, -1, 0));
        lemma_rotation_entries(0, 0, 1, -1, 0, 0, 0, -1, 0);
    } else if t == 2 && s[0] == 1 && s[1] == -1 && s[2] == -1 {
        lemma_entries(0, -1, 0, 0, 0, 1, -1, 0, 0);
        assert(third_turn_about(s, t) =~~= mat(0, -1, 0, 0, 0, 1, -1, 0, 0));
        lemma_rotation_entries(0, -1, 0, 0, 0, 1, -1, 0, 0);
    } else if t == 2 && s[0] == -1 && s[1] == 1 && s[2] == 1 {
        lemma_entries(0, 0, -1, -1, 0, 0, 0, 1, 0);
        assert(third_turn_about(s, t) =~~= mat(0, 0, -1, -1, 0, 0, 0, 1, 0));
        lemma_rotation_entries(0, 0, -1, -1, 0, 0, 0, 1, 0);
    } else if t == 2 && s[0] == -1 && s[1] == 1 && s[2] == -1 {
        lemma_entries(0, -1, 0, 0, 0, -1, 1, 0, 0);
        assert(third_turn_about(s, t) =~~= mat(0, -1, 0, 0, 0, -1, 1, 0, 0));
        lemma_rotation_entries(0, -1, 0, 0, 0, -1, 1, 0, 0);
    } else if t == 2 && s[0] == -1 && s[1] == -1 && s[2] == 1 {
        lemma_entries(0, 1, 0, 0, 0, -1, -1, 0, 0);
        assert(third_turn_about(s, t) =~~= mat(0, 1, 0, 0, 0, -1, -1, 0, 0));
        lemma_rotation_entries(0, 1, 0, 0, 0, -1, -1, 0, 0);
    } else if t == 2 && s[0] == -1 && s[1] == -1 && s[2] == -1 {
        lemma_entries(0, 0, 1, 1, 0, 0, 0, 1, 0);
        assert(third_turn_about(s, t) =~~= mat(0, 0, 1, 1, 0, 0, 0, 1, 0));
        lemma_rotation_entries(0, 0, 1, 1, 0, 0, 0, 1, 0);
    }
}

fn half_of_small(v: i64) -> (r: i64)
    requires
        v == -2 || v == 0 || v == 2,
    ensures
        r == v / 2,
{
    if v == 2 {
        1
    } else if v == -2 {
        -1
    } else {
        0
    }
}

impl SpecialOrthogonalGroup<U3> {
    /// The rotation by `degrees` about `axis`, in the sense of the right
    /// hand, when it keeps the integer lattice; it takes the angle as `angle`
    /// gives it. `None` otherwise.
    pub fn from_axis_angle_degrees(axis: &Vector<3>, degrees: i64) -> (r: Option<Self>)
        ensures
            match lattice_rotation_degrees(axis@, degrees as int) {
                Some(m) => r is Some && r->Some_0@ == m,
                None => r is None,
            },
            r is Some ==> is_rotation(r->Some_0@),
    {
        if degrees % 90 == 0 {
            return Self::from_axis_angle(axis, degrees / 90);
        }
        if degrees % 120 != 0 {
            return None;
        }
        let (x, y, z) = (axis.raw[0] as i128, axis.raw[1] as i128, axis.raw[2] as i128);
        if !(x != 0 && (y == x || y == -x) && (z == x || z == -x)) {
            return None;
        }
        let k = degrees / 120;
        assert(k as int == degrees as int / 120) by {
            vstd::arithmetic::div_mod::lemma_fundamental_div_mod(degrees as int, 120);
        }
        let t = if k >= 0 {
            k % 3
        } else {
            let m = -(k + 1);
            assert(k as int % 3 == 2 - m % 3) by {
                vstd::arithmetic::div_mod::lemma_fundamental_div_mod(m as int, 3);
                vstd::arithmetic::div_mod::lemma_fundamental_div_mod(k as int, 3);
            }
            2 - m % 3
        };
        let s0: i64 = if x > 0 { 1 } else { -1 };
        let s1: i64 = if y > 0 { 1 } else { -1 };
        let s2: i64 = if z > 0 { 1 } else { -1 };
        let ghost s = seq![s0 as int, s1 as int, s2 as int];
        assert(body_signs(axis@) == Some(s));
        assert(t == 1 || t == 2) by {
            vstd::arithmetic::div_mod::lemma_fundamental_div_mod(degrees as int, 90);
            vstd::arithmetic::div_mod::lemma_fundamental_div_mod(k as int, 3);
            if t == 0 {
                assert(degrees as int == 360 * (k as int / 3));
            }
        }
        let c: i64 = if t == 1 { 1 } else { -1 };
        let e01 = half_of_small(exec_sign_product(s0, s1) + c * (-s2));
        let e02 = half_of_small(exec_sign_product(s0, s2) + c * s1);
        let e10 = half_of_small(exec_sign_product(s1, s0) + c * s2);
        let e12 = half_of_small(exec_sign_product(s1, s2) + c * (-s0));
        let e20 = half_of_small(exec_sign_product(s2, s0) + c * (-s1));
        let e21 = half_of_small(exec_sign_product(s2, s1) + c * s0);
        let rows = [[0, e01, e02], [e10, 0, e12], [e20, e21, 0]];
        let r = SpecialOrthogonalGroup { repr: SpecialOrthogonalGroup3D { matrix: Matrix3 { rows } } };
        proof {
            assert(r@ =~~= third_turn_about(s, t as int));
            lemma_third_turn_about(s, t as int);
        }
        Some(r)
    }
}

/// `v` with its coordinates halved when they are all even.
fn normalized(v: [i64; 3]) -> (r: [i64; 3])
    requires
        forall|k: int| 0 <= k < 3 ==> -2 <= #[trigger] v[k] <= 2,
        ints(v) != zeros(3),
    ensures
        has_unit_entry(ints(r)),
        ints(r) == ints(v) || scale_seq(ints(r), 2) == ints(v),
        forall|k: int| 0 <= k < 3 ==> -2 <= #[trigger] r[k] <= 2,
{
    assert(ints(v)[0] == v[0] && ints(v)[1] == v[1] && ints(v)[2] == v[2]);
    assert(v[0] != 0 || v[1] != 0 || v[2] != 0) by {
        if v[0] == 0 && v[1] == 0 && v[2] == 0 {
            assert(ints(v) =~= zeros(3));
        }
    }
    let even = v[0] % 2 == 0 && v[1] % 2 == 0 && v[2] % 2 == 0;
    if even {
        let h = [
            if v[0] == 2 { 1 } else if v[0] == -2 { -1 } else { 0 },
            if v[1] == 2 { 1 } else if v[1] == -2 { -1 } else { 0 },
            if v[2] == 2 { 1 } else if v[2] == -2 { -1 } else { 0 },
        ];
        assert(scale_seq(ints(h), 2) =~= ints(v));
        h
    } else {
        v
    }
}

proof fn lemma_scaled_fixed(r: Mat, v: Seq<int>)
    requires
        is_mat(r),
        v.len() == 3,
        mat_vec(r, scale_seq(v, 2)) == scale_seq(v, 2),
    ensures
        mat_vec(r, v) == v,
        mat_vec(r, neg_seq(v)) == neg_seq(v),
{
    lemma_mat_vec_linear(r, v, v);
    assert(add_seq(v, v) =~= scale_seq(v, 2));
    let m = mat_vec(r, v);
    assert(mat_vec(r, v) =~= v) by {
        assert forall|k: int| 0 <= k < 3 implies m[k] == v[k] by {
            assert(add_seq(m, m)[k] == scale_seq(v, 2)[k]);
        }
    }
    lemma_mat_vec_linear(r, v, v);
}

/// The bounds of a rotation's entries, read on its rows.
proof fn lemma_rows_bounded(m: Matrix3)
    requires
        is_rotation(m@),
    ensures
        forall|i: int, j: int| 0 <= i < 3 && 0 <= j < 3 ==> -1 <= #[trigger] m.rows[i][j] <= 1,
{
    lemma_rotation_entries_bounded(m@);
    assert forall|i: int, j: int| 0 <= i < 3 && 0 <= j < 3 implies -1 <= #[trigger] m.rows[i][j] <= 1 by {
        assert(m@[i][j] == m.rows[i][j]);
    }
}

/// The normalized vector of the antisymmetric part of a rotation that is
/// not a half turn.
fn turn_axis(m: &Matrix3) -> (v: [i64; 3])
    requires
        is_rotation(m@),
        skew_axis(m@) != zeros(3),
    ensures
        ints(v) != zeros(3),
        mat_vec(m@, ints(v)) == ints(v),
        has_unit_entry(ints(v)),
        scale_seq(ints(v), 1) == skew_axis(m@) || scale_seq(ints(v), 2) == skew_axis(m@),
{
    let r = m.rows;
    proof {
        lemma_rows_bounded(*m);
        lemma_skew_axis_fixed(m@);
    }
    let w = [r[2][1] - r[1][2], r[0][2] - r[2][0], r[1][0] - r[0][1]];
    assert(ints(w) =~= skew_axis(m@));
    let n = normalized(w);
    proof {
        assert(scale_seq(ints(n), 1) =~= ints(n));
        if ints(n) != ints(w) {
            lemma_scaled_fixed(m@, ints(n));
        }
        if ints(n) == zeros(3) {
            assert(ints(n)[0] == 0 && ints(n)[1] == 0 && ints(n)[2] == 0);
        }
    }
    n
}

/// A nonzero column of `r + I` for a rotation `r` by half a turn.
#[verifier::rlimit(80)]
fn half_turn_column(m: &Matrix3) -> (c: [i64; 3])
    requires
        is_rotation(m@),
        skew_axis(m@) == zeros(3),
    ensures
        ints(c) != zeros(3),
        mat_vec(m@, ints(c)) == ints(c),
        forall|k: int| 0 <= k < 3 ==> -2 <= #[trigger] c[k] <= 2,
{
    let r = m.rows;
    proof {
        lemma_rows_bounded(*m);
        lemma_half_turn(m@);
    }
    let c0 = [r[0][0] + 1, r[1][0], r[2][0]];
    let c1 = [r[0][1], r[1][1] + 1, r[2][1]];
    let c2 = [r[0][2], r[1][2], r[2][2] + 1];
    let ghost e = identity_mat();
    assert(e[0][0] == 1 && e[0][1] == 0 && e[0][2] == 0);
    assert(e[1][0] == 0 && e[1][1] == 1 && e[1][2] == 0);
    assert(e[2][0] == 0 && e[2][1] == 0 && e[2][2] == 1);
    assert(ints(c0) =~= half_turn_axis(m@, 0));
    assert(ints(c1) =~= half_turn_axis(m@, 1));
    assert(ints(c2) =~= half_turn_axis(m@, 2));
    if c0[0] != 0 || c0[1] != 0 || c0[2] != 0 {
        assert(ints(c0) != zeros(3)) by {
            if ints(c0) == zeros(3) {
                assert(ints(c0)[0] == 0 && ints(c0)[1] == 0 && ints(c0)[2] == 0);
            }
        }
        c0
    } else if c1[0] != 0 || c1[1] != 0 || c1[2] != 0 {
        assert(ints(c1) != zeros(3)) by {
            if ints(c1) == zeros(3) {
                assert(ints(c1)[0] == 0 && ints(c1)[1] == 0 && ints(c1)[2] == 0);
            }
        }
        c1
    } else {
        assert(ints(c0) =~= zeros(3));
        assert(ints(c1) =~= zeros(3));
        c2
    }
}

/// `v` or its opposite, whichever has a positive first nonzero coordinate.
fn oriented(v: [i64; 3]) -> (r: [i64; 3])
    requires
        forall|k: int| 0 <= k < 3 ==> -2 <= #[trigger] v[k] <= 2,
    ensures
        ints(r) == ints(v) || ints(r) == neg_seq(ints(v)),
        ints(v) != zeros(3) ==> leading_positive(ints(r)),
{
    let negative = if v[0] != 0 {
        v[0] < 0
    } else if v[1] != 0 {
        v[1] < 0
    } else {
        v[2] < 0
    };
    if negative {
        let m = [-v[0], -v[1], -v[2]];
        assert(ints(m) =~= neg_seq(ints(v)));
        m
    } else {
        proof {
            if ints(v) != zeros(3) && v[0] == 0 && v[1] == 0 && v[2] == 0 {
                assert(ints(v) =~= zeros(3));
            }
        }
        v
    }
}

/// The oriented primitive axis of a rotation by half a turn.
fn half_turn_axis_vector(m: &Matrix3) -> (o: [i64; 3])
    requires
        is_rotation(m@),
        skew_axis(m@) == zeros(3),
    ensures
        ints(o) != zeros(3),
        mat_vec(m@, ints(o)) == ints(o),
        has_unit_entry(ints(o)),
        leading_positive(ints(o)),
{
    let c = half_turn_column(m);
    let n = normalized(c);
    proof {
        if ints(n) != ints(c) {
            lemma_scaled_fixed(m@, ints(n));
        }
        if ints(n) == zeros(3) {
            assert(ints(n)[0] == 0 && ints(n)[1] == 0 && ints(n)[2] == 0);
            assert(ints(c) =~= zeros(3));
        }
    }
    let o = oriented(n);
    proof {
        if ints(o) != ints(n) {
            lemma_mat_vec_linear(m@, ints(n), ints(n));
            assert(ints(o)[0] == -ints(n)[0] && ints(o)[1] == -ints(n)[1] && ints(o)[2] == -ints(n)[2]);
        }
        if ints(o) == zeros(3) {
            assert(ints(o)[0] == 0 && ints(o)[1] == 0 && ints(o)[2] == 0);
            assert(ints(n)[0] == 0 && ints(n)[1] == 0 && ints(n)[2] == 0);
            assert(ints(n) =~= zeros(3));
        }
    }
    o
}

/// The identity has no antisymmetric part.
proof fn lemma_identity_skew()
    ensures
        skew_axis(identity_mat()) == zeros(3),
{
    let e = identity_mat();
    assert(e[2][1] == 0 && e[1][2] == 0 && e[0][2] == 0 && e[2][0] == 0 && e[1][0] == 0 && e[0][1] == 0);
    assert(skew_axis(e) =~= zeros(3));
}

fn has_skew_part(m: &Matrix3) -> (b: bool)
    requires
        is_rotation(m@),
    ensures
        b == (skew_axis(m@) != zeros(3)),
{
    let r = m.rows;
    proof {
        lemma_rows_bounded(*m);
    }
    let w = [r[2][1] - r[1][2], r[0][2] - r[2][0], r[1][0] - r[0][1]];
    assert(ints(w) =~= skew_axis(m@));
    if w[0] != 0 || w[1] != 0 || w[2] != 0 {
        assert(ints(w)[0] != 0 || ints(w)[1] != 0 || ints(w)[2] != 0);
        assert(zeros(3)[0] == 0 && zeros(3)[1] == 0 && zeros(3)[2] == 0);
        true
    } else {
        assert(ints(w) =~= zeros(3));
        false
    }
}

fn is_identity(m: &Matrix3) -> (b: bool)
    ensures
        b == (m@ == identity_mat()),
{
    let r = m.rows;
    let ghost e = identity_mat();
    assert(e[0][0] == 1 && e[0][1] == 0 && e[0][2] == 0);
    assert(e[1][0] == 0 && e[1][1] == 1 && e[1][2] == 0);
    assert(e[2][0] == 0 && e[2][1] == 0 && e[2][2] == 1);
    if r[0][0] == 1 && r[1][1] == 1 && r[2][2] == 1 && r[0][1] == 0 && r[0][2] == 0 && r[1][0] == 0
        && r[1][2] == 0 && r[2][0] == 0 && r[2][1] == 0 {
        assert(m@ =~~= e);
        true
    } else {
        assert(m@ != e) by {
            if m@ == e {
                assert(m@[0][0] == r[0][0] && m@[1][1] == r[1][1] && m@[2][2] == r[2][2]);
                assert(m@[0][1] == r[0][1] && m@[0][2] == r[0][2] && m@[1][0] == r[1][0]);
                assert(m@[1][2] == r[1][2] && m@[2][0] == r[2][0] && m@[2][1] == r[2][1]);
            }
        }
        false
    }
}

impl SpecialOrthogonalGroup<U3> {
    /// The axis of the rotation as the primitive integer vector along it,
    /// oriented so that the rotation turns by less than half a turn in the
    /// sense of the right hand (for half a turn, with its first nonzero
    /// coordinate positive); `None` exactly for the identity.
    pub fn axis(&self) -> (a: Option<Vector<3>>)
        requires
            is_rotation(self@),
        ensures
            a is None <==> self@ == identity_mat(),
            a is Some ==> ({
                let v = a->Some_0@;
                &&& v != zeros(3)
                &&& mat_vec(self@, v) == v
                &&& has_unit_entry(v)
                &&& skew_axis(self@) != zeros(3) ==> (scale_seq(v, 1) == skew_axis(self@)
                    || scale_seq(v, 2) == skew_axis(self@))
                &&& skew_axis(self@) == zeros(3) ==> leading_positive(v)
            }),
    {
        let m = self.repr.matrix;
        if has_skew_part(&m) {
            proof {
                lemma_identity_rotation();
                if self@ == identity_mat() {
                    lemma_identity_skew();
                }
            }
            return Some(Vector { raw: turn_axis(&m) });
        }
        if is_identity(&m) {
            return None;
        }
        Some(Vector { raw: half_turn_axis_vector(&m) })
    }
}

/// The chart of an orthonormal basis given as the rotation that carries a
/// vector to its coordinates.
pub type OrthonormalLinearBasis = Torsor<SpecialOrthogonalGroup<U3>>;

impl Chart<Vector<3>, 3> for Torsor<SpecialOrthogonalGroup<U3>> {
    open spec fn chart_valid(&self) -> bool {
        is_rotation(self@)
    }

    open spec fn in_domain(&self, p: Seq<int>) -> bool {
        p.len() == 3
    }

    open spec fn local(&self, p: Seq<int>) -> Seq<int> {
        mat_vec(self@, p)
    }

    /// The inverse of a rotation is its transpose.
    open spec fn global(&self, c: Seq<int>) -> Seq<int> {
        mat_vec(transpose(self@), c)
    }

    open spec fn to_local_fits(&self, p: Seq<int>) -> bool {
        mat_vec_fits(self@, p)
    }

    open spec fn from_local_fits(&self, c: Seq<int>) -> bool {
        mat_vec_fits(transpose(self@), c)
    }

    proof fn lemma_round_trip(&self, c: Seq<int>, p: Seq<int>) {
        let r = self@;
        lemma_mat_vec_assoc(r, transpose(r), c);
        lemma_mat_vec_assoc(transpose(r), r, p);
        lemma_mat_vec_identity(c);
        lemma_mat_vec_identity(p);
    }

    fn to_local(&self, point: &Vector<3>) -> (r: [i64; 3]) {
        self.from_origin.repr.matrix.mul_vec(&point.raw)
    }

    fn from_local(&self, components: &[i64; 3]) -> (r: Vector<3>) {
        Vector { raw: self.from_origin.repr.matrix.transpose().mul_vec(components) }
    }
}

/// Covectors are carried by the inverse transpose of the rotation, which for
/// a rotation is the rotation itself.
impl GroupAction<Covector<3>> for SpecialOrthogonalGroup<U3> {
    open spec fn on_space(x: Seq<int>) -> bool {
        x.len() == 3
    }

    open spec fn action(g: Mat, x: Seq<int>) -> Seq<int> {
        mat_vec(transpose(transpose(g)), x)
    }

    open spec fn action_fits(g: Mat, x: Seq<int>) -> bool {
        mat_vec_fits(g, x)
    }

    proof fn lemma_action(g: Mat, h: Mat, x: Seq<int>) {
        lemma_transpose_mul(g, h);
        lemma_transpose_mul(identity_mat(), identity_mat());
        lemma_mul_identity(identity_mat());
        <SpecialOrthogonalGroup3D as GroupAction<Vector<3>>>::lemma_action(g, h, x);
        crate::matrix::lemma_mat_vec_identity(x);
        SpecialOrthogonalGroup3D::lemma_closed(g, h);
        lemma_transpose_mul(mat_mul(g, h), mat_mul(g, h));
    }

    fn act_on(&self, point: &Covector<3>) -> (r: Covector<3>) {
        proof {
            lemma_transpose_mul(self@, self@);
        }
        Covector { raw: self.repr.matrix.mul_vec(&point.raw) }
    }
}

/// The chart of the plane given as the rotation that carries a vector to its
/// coordinates.
impl Chart<Vector<2>, 2> for Torsor<SpecialOrthogonalGroup<U2>> {
    open spec fn chart_valid(&self) -> bool {
        true
    }

    open spec fn in_domain(&self, p: Seq<int>) -> bool {
        p.len() == 2
    }

    open spec fn local(&self, p: Seq<int>) -> Seq<int> {
        turned(self@, p)
    }

    open spec fn global(&self, c: Seq<int>) -> Seq<int> {
        turned(-self@, c)
    }

    open spec fn to_local_fits(&self, p: Seq<int>) -> bool {
        all_fit(turned(self@, p))
    }

    open spec fn from_local_fits(&self, c: Seq<int>) -> bool {
        all_fit(turned(-self@, c)) && fits(-self@)
    }

    proof fn lemma_round_trip(&self, c: Seq<int>, p: Seq<int>) {
        let k = self@;
        <SpecialOrthogonalGroup2D as GroupAction<Vector<2>>>::lemma_action(k, -k, c);
        <SpecialOrthogonalGroup2D as GroupAction<Vector<2>>>::lemma_action(-k, k, p);
        <SpecialOrthogonalGroup2D as GroupAction<Vector<2>>>::lemma_action(0, 0, c);
    }

    fn to_local(&self, point: &Vector<2>) -> (r: [i64; 2]) {
        self.from_origin.act_on(point).raw
    }

    fn from_local(&self, components: &[i64; 2]) -> (r: Vector<2>) {
        self.from_origin.inverse().act_on(&Vector { raw: *components })
    }
}

/// Turning a vector by a rotation and a covector by the inverse transpose of
/// the rotation, which is the rotation itself, keeps their pairing.
pub proof fn rotation_pairing_invariance(r: Mat, w: Seq<int>, v: Seq<int>)
    requires
        is_rotation(r),
        w.len() == 3,
        v.len() == 3,
    ensures
        dot(
            <SpecialOrthogonalGroup<U3> as GroupAction<Covector<3>>>::action(r, w),
            <SpecialOrthogonalGroup<U3> as GroupAction<Vector<3>>>::action(r, v),
        ) == dot(w, v),
{
    let t = transpose(r);
    lemma_transpose_mul(r, r);
    crate::matrix::lemma_adjoint(t, w, mat_vec(r, v));
    lemma_mat_vec_assoc(t, r, v);
    lemma_mat_vec_identity(v);
}

} // verus!
