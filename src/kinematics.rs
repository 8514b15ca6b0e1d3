use vstd::prelude::*;
use core::marker::PhantomData;
use crate::lie::{LieGroup, Torsor};
use crate::manifold::Manifold;
use crate::space::{dot, dot_fits, zeros};

verus! {

/// A type with a velocity.
pub trait HasVelocity {
    type Velocity;
}

/// A type with an acceleration.
pub trait HasAcceleration {
    type Acceleration;
}

/// An element of the Lie algebra of `G`, the tangent space at the identity,
/// by its coordinates; there are as many as the dimension of `G`.
pub struct LieAlgebra<G> {
    pub raw: Vec<i64>,
    pub group: PhantomData<G>,
}

/// An element of the dual of the Lie algebra of `G`.
pub struct LieAlgebraDual<G> {
    pub raw: Vec<i64>,
    pub group: PhantomData<G>,
}

impl<G> View for LieAlgebra<G> {
    type V = Seq<int>;

    open spec fn view(&self) -> Seq<int> {
        self.raw@.map_values(|x: i64| x as int)
    }
}

impl<G> View for LieAlgebraDual<G> {
    type V = Seq<int>;

    open spec fn view(&self) -> Seq<int> {
        self.raw@.map_values(|x: i64| x as int)
    }
}

fn zero_coordinates(n: usize) -> (r: Vec<i64>)
    ensures
        r@.map_values(|x: i64| x as int) == zeros(n as nat),
{
    let mut r: Vec<i64> = Vec::new();
    let mut i: usize = 0;
    while i < n
        invariant
            i <= n,
            r@.len() == i,
            forall|j: int| 0 <= j < i ==> r@[j] == 0,
        decreases n - i,
    {
        r.push(0);
        i += 1;
    }
    assert(r@.map_values(|x: i64| x as int) =~= zeros(n as nat));
    r
}

impl<G: Manifold> LieAlgebra<G> {
    /// The zero velocity.
    pub fn zero() -> (r: Self)
        ensures
            r@ == zeros(G::dim()),
    {
        LieAlgebra { raw: zero_coordinates(G::dimension()), group: PhantomData }
    }

    /// The value of a dual element on this one.
    pub fn pair_with(&self, dual: &LieAlgebraDual<G>) -> (r: i64)
        requires
            self@.len() == dual@.len(),
            dot_fits(self@, dual@),
        ensures
            r == dot(self@, dual@),
    {
        crate::space::raw_dot(self.raw.as_slice(), dual.raw.as_slice())
    }
}

impl<G: Manifold> LieAlgebraDual<G> {
    pub fn zero() -> (r: Self)
        ensures
            r@ == zeros(G::dim()),
    {
        LieAlgebraDual { raw: zero_coordinates(G::dimension()), group: PhantomData }
    }
}

/// A position in a torsor of `G` with a velocity in the Lie algebra of `G`.
pub struct Kinematics<G> {
    pub point: Torsor<G>,
    pub velocity: LieAlgebra<G>,
}

impl<G> HasVelocity for Kinematics<G> {
    type Velocity = LieAlgebra<G>;
}

impl<G: LieGroup + Manifold> Kinematics<G> {
    pub fn new(point: Torsor<G>, velocity: LieAlgebra<G>) -> (r: Self)
        ensures
            r.point@ == point@,
            r.velocity@ == velocity@,
    {
        Kinematics { point, velocity }
    }

    /// At rest at `point`.
    pub fn stationary(point: Torsor<G>) -> (r: Self)
        ensures
            r.point@ == point@,
            r.velocity@ == zeros(G::dim()),
    {
        Kinematics { point, velocity: LieAlgebra::zero() }
    }
}

} // verus!
