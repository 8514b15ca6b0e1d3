use vstd::prelude::*;
use crate::general::{small, LinearError, COORD_LIMIT};
use crate::manifold::Chart;
use crate::lie::{between, moved, Torsor};
use crate::space::{add_seq, all_fit, dot, dot_fits, ints, scale_seq, Covector, Vector};

verus! {

/// `x0 y0 + x1 y1`.
pub open spec fn dot2(x: Seq<int>, y: Seq<int>) -> int {
    x[0] * y[0] + x[1] * y[1]
}

/// The determinant of the basis `b0`, `b1` of the plane (the columns).
pub open spec fn det2(b0: Seq<int>, b1: Seq<int>) -> int {
    b0[0] * b1[1] - b1[0] * b0[1]
}

/// The numerators of the dual basis over `det2(b0, b1)`: the rows of the
/// adjugate of the matrix with columns `b0`, `b1`.
pub open spec fn adjugate_rows2(b0: Seq<int>, b1: Seq<int>) -> (Seq<int>, Seq<int>) {
    (seq![b1[1], -b1[0]], seq![-b0[1], b0[0]])
}

/// The dual basis of a basis of the plane, over a common denominator: the
/// covector `covectors[i] / denominator` pairs to `1` with the basis vector
/// of index `i` and to `0` with the other.
#[derive(Clone, Copy, Debug, PartialEq, Eq)]
pub struct DualBasis2D {
    pub covectors: [Covector<2>; 2],
    pub denominator: i128,
}

/// Products of two factors commute, and negating a factor negates them.
proof fn lemma_neg_mul(x: int, y: int)
    ensures
        (-x) * y == -(x * y),
        x * (-y) == -(x * y),
        x * y == y * x,
{
    vstd::arithmetic::mul::lemma_mul_unary_negation(x, y);
    vstd::arithmetic::mul::lemma_mul_is_commutative(x, y);
}

/// The facts about products of the four entries of a matrix of order two
/// that its adjugate and determinant rest on.
proof fn lemma_entry_products(a: int, b: int, c: int, d: int)
    ensures
        (-a) * b == -(a * b) && a * (-b) == -(a * b) && a * b == b * a,
        (-a) * c == -(a * c) && a * (-c) == -(a * c) && a * c == c * a,
        (-a) * d == -(a * d) && a * (-d) == -(a * d) && a * d == d * a,
        (-b) * c == -(b * c) && b * (-c) == -(b * c) && b * c == c * b,
        (-b) * d == -(b * d) && b * (-d) == -(b * d) && b * d == d * b,
        (-c) * d == -(c * d) && c * (-d) == -(c * d) && c * d == d * c,
        (-b) * a == -(b * a) && (-c) * a == -(c * a) && (-d) * a == -(d * a),
        (-c) * b == -(c * b) && (-d) * b == -(d * b) && (-d) * c == -(d * c),
        b * (-a) == -(b * a) && c * (-a) == -(c * a) && d * (-a) == -(d * a),
        c * (-b) == -(c * b) && d * (-b) == -(d * b) && d * (-c) == -(d * c),
{
    lemma_neg_mul(a, b);
    lemma_neg_mul(a, c);
    lemma_neg_mul(a, d);
    lemma_neg_mul(b, c);
    lemma_neg_mul(b, d);
    lemma_neg_mul(c, d);
    lemma_neg_mul(b, a);
    lemma_neg_mul(c, a);
    lemma_neg_mul(d, a);
    lemma_neg_mul(c, b);
    lemma_neg_mul(d, b);
    lemma_neg_mul(d, c);
}

/// The dual basis of two vectors of the plane, as the rows of the adjugate
/// of the matrix whose columns are the vectors over its determinant. Fails
/// exactly on singular bases, and on bases with an entry outside
/// `[-COORD_LIMIT, COORD_LIMIT]`.
pub fn dual_basis_2d(basis: &[Vector<2>; 2]) -> (r: Result<DualBasis2D, LinearError>)
    ensures
        match r {
            Ok(d) => {
                &&& small(basis[0]@[0]) && small(basis[0]@[1]) && small(basis[1]@[0]) && small(basis[1]@[1])
                &&& det2(basis[0]@, basis[1]@) != 0
                &&& d.denominator == det2(basis[0]@, basis[1]@)
                &&& d.covectors[0]@ == adjugate_rows2(basis[0]@, basis[1]@).0
                &&& d.covectors[1]@ == adjugate_rows2(basis[0]@, basis[1]@).1
            },
            Err(e) => {
                ||| e == LinearError::OutOfRange && !(small(basis[0]@[0]) && small(basis[0]@[1]) && small(
                    basis[1]@[0],
                ) && small(basis[1]@[1]))
                ||| e == LinearError::Singular && small(basis[0]@[0]) && small(basis[0]@[1]) && small(
                    basis[1]@[0],
                ) && small(basis[1]@[1]) && det2(basis[0]@, basis[1]@) == 0
            },
        },
{
    let (a, c) = (basis[0].raw[0], basis[0].raw[1]);
    let (b, d) = (basis[1].raw[0], basis[1].raw[1]);
    assert(basis[0]@[0] == a && basis[0]@[1] == c && basis[1]@[0] == b && basis[1]@[1] == d);
    let in_range = -COORD_LIMIT <= a && a <= COORD_LIMIT && -COORD_LIMIT <= b && b <= COORD_LIMIT
        && -COORD_LIMIT <= c && c <= COORD_LIMIT && -COORD_LIMIT <= d && d <= COORD_LIMIT;
    if !in_range {
        return Err(LinearError::OutOfRange);
    }
    proof {
        crate::algebra::lemma_product_bound(a as int, d as int, COORD_LIMIT as int, COORD_LIMIT as int);
        crate::algebra::lemma_product_bound(b as int, c as int, COORD_LIMIT as int, COORD_LIMIT as int);
    }
    let det = a as i128 * d as i128 - b as i128 * c as i128;
    if det == 0 {
        return Err(LinearError::Singular);
    }
    let d0 = Covector { raw: [d, -b] };
    let d1 = Covector { raw: [-c, a] };
    assert(d0@ =~= adjugate_rows2(basis[0]@, basis[1]@).0);
    assert(d1@ =~= adjugate_rows2(basis[0]@, basis[1]@).1);
    Ok(DualBasis2D { covectors: [d0, d1], denominator: det })
}

/// The numerators of the dual basis of a basis of the plane pair to the
/// determinant with the basis vector of the same index and to `0` with the
/// other.
pub proof fn dual_basis_2d_orthogonality(b0: Seq<int>, b1: Seq<int>)
    requires
        b0.len() == 2,
        b1.len() == 2,
    ensures
        ({
            let (d0, d1) = adjugate_rows2(b0, b1);
            &&& dot(d0, b0) == det2(b0, b1)
            &&& dot(d0, b1) == 0
            &&& dot(d1, b0) == 0
            &&& dot(d1, b1) == det2(b0, b1)
        }),
{
    let (d0, d1) = adjugate_rows2(b0, b1);
    reveal_with_fuel(crate::space::dot_upto, 3);
    lemma_entry_products(b0[0], b1[0], b0[1], b1[1]);
    assert(d0[0] == b1[1] && d0[1] == -b1[0] && d1[0] == -b0[1] && d1[1] == b0[0]);
}

/// A basis of the plane lattice with its integer dual basis.
#[derive(Clone, Copy, Debug, PartialEq, Eq)]
pub struct Basis2D {
    pub vectors: [Vector<2>; 2],
    pub dual: [Covector<2>; 2],
}

impl Basis2D {
    /// The dual pairs to the identity with the basis, on both sides.
    pub open spec fn wf(&self) -> bool {
        let (b0, b1, d0, d1) = (self.vectors[0]@, self.vectors[1]@, self.dual[0]@, self.dual[1]@);
        &&& dot2(d0, b0) == 1 && dot2(d0, b1) == 0 && dot2(d1, b0) == 0 && dot2(d1, b1) == 1
        &&& b0[0] * d0[0] + b1[0] * d1[0] == 1 && b0[0] * d0[1] + b1[0] * d1[1] == 0
        &&& b0[1] * d0[0] + b1[1] * d1[0] == 0 && b0[1] * d0[1] + b1[1] * d1[1] == 1
    }

    /// The basis made of the two vectors, when its dual has integer
    /// coordinates: a determinant of `1` or `-1`.
    pub fn new(vectors: [Vector<2>; 2]) -> (r: Result<Basis2D, LinearError>)
        ensures
            match r {
                Ok(b) => b.vectors == vectors && b.wf() && (det2(vectors[0]@, vectors[1]@) == 1 || det2(
                    vectors[0]@,
                    vectors[1]@,
                ) == -1),
                Err(e) => {
                    let (b0, b1) = (vectors[0]@, vectors[1]@);
                    let in_range = small(b0[0]) && small(b0[1]) && small(b1[0]) && small(b1[1]);
                    ||| e == LinearError::OutOfRange && !in_range
                    ||| e == LinearError::Singular && in_range && det2(b0, b1) == 0
                    ||| e == LinearError::NotInvertible && in_range && det2(b0, b1) != 0 && det2(b0, b1)
                        != 1 && det2(b0, b1) != -1
                },
            },
    {
        let d = dual_basis_2d(&vectors)?;
        if d.denominator != 1 && d.denominator != -1 {
            return Err(LinearError::NotInvertible);
        }
        let (a, c) = (vectors[0].raw[0], vectors[0].raw[1]);
        let (b, e) = (vectors[1].raw[0], vectors[1].raw[1]);
        assert(vectors[0]@[0] == a && vectors[0]@[1] == c && vectors[1]@[0] == b && vectors[1]@[1] == e);
        let dual = if d.denominator == 1 {
            [Covector { raw: [e, -b] }, Covector { raw: [-c, a] }]
        } else {
            [Covector { raw: [-e, b] }, Covector { raw: [c, -a] }]
        };
        let r = Basis2D { vectors, dual };
        proof {
            lemma_entry_products(a as int, b as int, c as int, e as int);
        }
        Ok(r)
    }
}

proof fn lemma_two_step(x0: int, x1: int, y0: int, y1: int, z0: int, z1: int, c0: int, c1: int)
    ensures
        x0 * (c0 * y0 + c1 * z0) + x1 * (c0 * y1 + c1 * z1) == c0 * (x0 * y0 + x1 * y1) + c1 * (x0 * z0
            + x1 * z1),
{
    broadcast use vstd::arithmetic::mul::group_mul_properties;

}

impl Chart<Vector<2>, 2> for Basis2D {
    open spec fn chart_valid(&self) -> bool {
        self.wf()
    }

    open spec fn in_domain(&self, p: Seq<int>) -> bool {
        p.len() == 2
    }

    /// The pairings of the dual basis with the vector.
    open spec fn local(&self, p: Seq<int>) -> Seq<int> {
        seq![dot2(self.dual[0]@, p), dot2(self.dual[1]@, p)]
    }

    /// The combination of the basis vectors with the coordinates as weights.
    open spec fn global(&self, c: Seq<int>) -> Seq<int> {
        add_seq(scale_seq(self.vectors[0]@, c[0]), scale_seq(self.vectors[1]@, c[1]))
    }

    open spec fn to_local_fits(&self, p: Seq<int>) -> bool {
        dot_fits(self.dual[0]@, p) && dot_fits(self.dual[1]@, p)
    }

    open spec fn from_local_fits(&self, c: Seq<int>) -> bool {
        &&& all_fit(scale_seq(self.vectors[0]@, c[0]))
        &&& all_fit(scale_seq(self.vectors[1]@, c[1]))
        &&& all_fit(add_seq(scale_seq(self.vectors[0]@, c[0]), scale_seq(self.vectors[1]@, c[1])))
    }

    proof fn lemma_round_trip(&self, c: Seq<int>, p: Seq<int>) {
        let (b0, b1, d0, d1) = (self.vectors[0]@, self.vectors[1]@, self.dual[0]@, self.dual[1]@);
        let g = self.global(c);
        assert(g[0] == b0[0] * c[0] + b1[0] * c[1] && g[1] == b0[1] * c[0] + b1[1] * c[1]);
        lemma_two_step(d0[0], d0[1], b0[0], b0[1], b1[0], b1[1], c[0], c[1]);
        lemma_two_step(d1[0], d1[1], b0[0], b0[1], b1[0], b1[1], c[0], c[1]);
        vstd::arithmetic::mul::lemma_mul_is_commutative(b0[0], c[0]);
        vstd::arithmetic::mul::lemma_mul_is_commutative(b1[0], c[1]);
        vstd::arithmetic::mul::lemma_mul_is_commutative(b0[1], c[0]);
        vstd::arithmetic::mul::lemma_mul_is_commutative(b1[1], c[1]);
        assert(self.local(g) =~= c);
        let l = self.local(p);
        lemma_two_step(b0[0], b1[0], d0[0], d1[0], d0[1], d1[1], p[0], p[1]);
        lemma_two_step(b0[1], b1[1], d0[0], d1[0], d0[1], d1[1], p[0], p[1]);
        lemma_swapped_global(b0[0], b0[1], b1[0], b1[1], d0[0], d0[1], d1[0], d1[1], p[0], p[1]);
        assert(self.global(l) =~= p);
    }

    fn to_local(&self, point: &Vector<2>) -> (r: [i64; 2]) {
        proof {
            reveal_with_fuel(crate::space::dot_upto, 3);
        }
        [self.dual[0].pair_with(point), self.dual[1].pair_with(point)]
    }

    fn from_local(&self, components: &[i64; 2]) -> (r: Vector<2>) {
        let u = self.vectors[0].scale(components[0]);
        let v = self.vectors[1].scale(components[1]);
        u.add(&v)
    }
}

proof fn lemma_swapped_global(
    b00: int, b01: int, b10: int, b11: int,
    d00: int, d01: int, d10: int, d11: int,
    p0: int, p1: int,
)
    ensures
        (d00 * p0 + d01 * p1) * b00 + (d10 * p0 + d11 * p1) * b10 == p0 * (b00 * d00 + b10 * d10) + p1
            * (b00 * d01 + b10 * d11),
        (d00 * p0 + d01 * p1) * b01 + (d10 * p0 + d11 * p1) * b11 == p0 * (b01 * d00 + b11 * d10) + p1
            * (b01 * d01 + b11 * d11),
{
    broadcast use vstd::arithmetic::mul::group_mul_properties;

}


/// A point of the plane.
pub type PlanePoint = Torsor<Vector<2>>;

/// An origin with a basis: the chart of the affine plane.
#[derive(Clone, Copy, Debug, PartialEq, Eq)]
pub struct AffineFrame2D {
    pub origin: PlanePoint,
    pub basis: Basis2D,
}

impl Chart<PlanePoint, 2> for AffineFrame2D {
    open spec fn chart_valid(&self) -> bool {
        self.basis.wf() && self.origin@.len() == 2
    }

    open spec fn in_domain(&self, p: Seq<int>) -> bool {
        p.len() == 2
    }

    /// The coordinates, in the basis, of the vector from the origin to the point.
    open spec fn local(&self, p: Seq<int>) -> Seq<int> {
        self.basis.local(between::<Vector<2>>(self.origin@, p))
    }

    /// The origin moved by the vector with the given coordinates.
    open spec fn global(&self, c: Seq<int>) -> Seq<int> {
        moved::<Vector<2>>(self.origin@, self.basis.global(c))
    }

    open spec fn to_local_fits(&self, p: Seq<int>) -> bool {
        &&& all_fit(crate::space::neg_seq(self.origin@))
        &&& all_fit(between::<Vector<2>>(self.origin@, p))
        &&& self.basis.to_local_fits(between::<Vector<2>>(self.origin@, p))
    }

    open spec fn from_local_fits(&self, c: Seq<int>) -> bool {
        &&& self.basis.from_local_fits(c)
        &&& all_fit(moved::<Vector<2>>(self.origin@, self.basis.global(c)))
    }

    proof fn lemma_round_trip(&self, c: Seq<int>, p: Seq<int>) {
        let o = self.origin@;
        let g = self.basis.global(c);
        self.basis.lemma_round_trip(c, between::<Vector<2>>(o, p));
        crate::lie::torsor_round_trip::<Vector<2>>(o, p);
        assert(between::<Vector<2>>(o, moved::<Vector<2>>(o, g)) =~= g);
    }

    fn to_local(&self, point: &PlanePoint) -> (r: [i64; 2]) {
        let v = self.origin.difference(point);
        self.basis.to_local(&v)
    }

    fn from_local(&self, components: &[i64; 2]) -> (r: PlanePoint) {
        let v = self.basis.from_local(components);
        self.origin.act(&v)
    }
}

} // verus!
