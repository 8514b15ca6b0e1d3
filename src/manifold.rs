use vstd::prelude::*;

verus! {

/// The numbers that coordinates are made of: exact integers.
pub trait Scalar: Copy {
    spec fn value(self) -> int;

    fn zero() -> (r: Self)
        ensures
            r.value() == 0,
    ;

    fn one() -> (r: Self)
        ensures
            r.value() == 1,
    ;
}

impl Scalar for i64 {
    open spec fn value(self) -> int {
        self as int
    }

    fn zero() -> (r: i64) {
        0
    }

    fn one() -> (r: i64) {
        1
    }
}

/// An object with a fixed number of coordinates.
pub trait Manifold {
    spec fn dim() -> nat;

    fn dimension() -> (r: usize)
        ensures
            r == Self::dim(),
    ;
}

/// A bijection between the points of `M` and arrays of `N` coordinates.
pub trait Chart<M: View, const N: usize> {
    /// The chart is well built (its basis is invertible).
    spec fn chart_valid(&self) -> bool;

    /// The points that the chart covers.
    spec fn in_domain(&self, p: M::V) -> bool;

    /// The coordinates of a point.
    spec fn local(&self, p: M::V) -> Seq<int>;

    /// The point with the given coordinates.
    spec fn global(&self, c: Seq<int>) -> M::V;

    /// `to_local` stays within the scalar range on `p`.
    spec fn to_local_fits(&self, p: M::V) -> bool;

    /// `from_local` stays within the scalar range on `c`.
    spec fn from_local_fits(&self, c: Seq<int>) -> bool;

    proof fn lemma_round_trip(&self, c: Seq<int>, p: M::V)
        requires
            self.chart_valid(),
            c.len() == N,
            self.in_domain(p),
        ensures
            self.in_domain(self.global(c)),
            self.local(self.global(c)) == c,
            self.global(self.local(p)) == p,
    ;

    fn to_local(&self, point: &M) -> (r: [i64; N])
        requires
            self.chart_valid(),
            self.in_domain(point@),
            self.to_local_fits(point@),
        ensures
            r@.map_values(|x: i64| x as int) == self.local(point@),
    ;

    fn from_local(&self, components: &[i64; N]) -> (r: M)
        requires
            self.chart_valid(),
            self.from_local_fits(components@.map_values(|x: i64| x as int)),
        ensures
            r@ == self.global(components@.map_values(|x: i64| x as int)),
    ;
}

/// A value fits the scalar type of the coordinates.
pub open spec fn fits(x: int) -> bool {
    i64::MIN <= x <= i64::MAX
}

} // verus!
