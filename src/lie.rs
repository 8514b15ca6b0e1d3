use vstd::prelude::*;
use crate::manifold::Manifold;
use crate::space::{add_seq, all_fit, neg_seq, sub_seq, zeros, Vector};

verus! {

/// A group whose elements are modelled by their views; `op` is the product,
/// `unit` the identity and `inv` the inverse.
pub trait LieGroup: Sized + View {
    /// The models of the group's elements.
    spec fn element(g: Self::V) -> bool;

    spec fn unit() -> Self::V;

    spec fn op(a: Self::V, b: Self::V) -> Self::V;

    spec fn inv(a: Self::V) -> Self::V;

    /// The product of `a` and `b` can be computed within the scalar range.
    spec fn op_fits(a: Self::V, b: Self::V) -> bool;

    /// The inverse of `a` can be computed within the scalar range.
    spec fn inv_fits(a: Self::V) -> bool;

    proof fn lemma_closed(a: Self::V, b: Self::V)
        requires
            Self::element(a),
            Self::element(b),
        ensures
            Self::element(Self::unit()),
            Self::element(Self::op(a, b)),
            Self::element(Self::inv(a)),
    ;

    proof fn lemma_associative(a: Self::V, b: Self::V, c: Self::V)
        requires
            Self::element(a),
            Self::element(b),
            Self::element(c),
        ensures
            Self::op(Self::op(a, b), c) == Self::op(a, Self::op(b, c)),
    ;

    proof fn lemma_identity(a: Self::V)
        requires
            Self::element(a),
        ensures
            Self::op(a, Self::unit()) == a,
            Self::op(Self::unit(), a) == a,
    ;

    proof fn lemma_inverse(a: Self::V)
        requires
            Self::element(a),
        ensures
            Self::op(a, Self::inv(a)) == Self::unit(),
            Self::op(Self::inv(a), a) == Self::unit(),
    ;

    fn identity() -> (r: Self)
        ensures
            r@ == Self::unit(),
    ;

    fn multiply(&self, other: &Self) -> (r: Self)
        requires
            Self::element(self@),
            Self::element(other@),
            Self::op_fits(self@, other@),
        ensures
            r@ == Self::op(self@, other@),
    ;

    fn inverse(&self) -> (r: Self)
        requires
            Self::element(self@),
            Self::inv_fits(self@),
        ensures
            r@ == Self::inv(self@),
    ;
}

/// The group axioms: the product is associative, `identity` is neutral on
/// both sides and `inverse` gives the identity on both sides; the identity,
/// products and inverses of elements are elements.
pub proof fn group_axioms<G: LieGroup>(a: G::V, b: G::V, c: G::V)
    requires
        G::element(a),
        G::element(b),
        G::element(c),
    ensures
        G::element(G::unit()),
        G::element(G::op(a, b)),
        G::element(G::inv(a)),
        G::op(G::op(a, b), c) == G::op(a, G::op(b, c)),
        G::op(a, G::unit()) == a,
        G::op(G::unit(), a) == a,
        G::op(a, G::inv(a)) == G::unit(),
        G::op(G::inv(a), a) == G::unit(),
{
    G::lemma_closed(a, b);
    G::lemma_associative(a, b, c);
    G::lemma_identity(a);
    G::lemma_inverse(a);
}

/// A group acting on the values of `M` from the left.
pub trait GroupAction<M: View>: LieGroup {
    /// The models of the values acted on.
    spec fn on_space(x: M::V) -> bool;

    spec fn action(g: Self::V, x: M::V) -> M::V;

    /// The action of `g` on `x` can be computed within the scalar range.
    spec fn action_fits(g: Self::V, x: M::V) -> bool;

    proof fn lemma_action(g: Self::V, h: Self::V, x: M::V)
        requires
            Self::element(g),
            Self::element(h),
            Self::on_space(x),
        ensures
            Self::on_space(Self::action(g, x)),
            Self::action(Self::unit(), x) == x,
            Self::action(Self::op(g, h), x) == Self::action(g, Self::action(h, x)),
    ;

    fn act_on(&self, point: &M) -> (r: M)
        requires
            Self::element(self@),
            Self::on_space(point@),
            Self::action_fits(self@, point@),
        ensures
            r@ == Self::action(self@, point@),
    ;
}

/// A space on which `G` acts freely and transitively, each point recorded by
/// the group element that carries a fixed origin onto it.
#[derive(Clone, Copy, Debug, PartialEq, Eq)]
pub struct Torsor<G> {
    pub from_origin: G,
}

impl<G: LieGroup> View for Torsor<G> {
    type V = G::V;

    open spec fn view(&self) -> G::V {
        self.from_origin@
    }
}

/// The point `p` moved by `g`.
pub open spec fn moved<G: LieGroup>(p: G::V, g: G::V) -> G::V {
    G::op(g, p)
}

/// The group element that moves `p` onto `q`.
pub open spec fn between<G: LieGroup>(p: G::V, q: G::V) -> G::V {
    G::op(q, G::inv(p))
}

impl<G: LieGroup> Torsor<G> {
    pub fn new(from_origin: G) -> (r: Self)
        ensures
            r@ == from_origin@,
    {
        Torsor { from_origin }
    }

    /// The point moved by `g`.
    pub fn act(&self, g: &G) -> (r: Self)
        requires
            G::element(self@),
            G::element(g@),
            G::op_fits(g@, self@),
        ensures
            r@ == moved::<G>(self@, g@),
    {
        Torsor { from_origin: g.multiply(&self.from_origin) }
    }

    /// The group element that moves this point onto `other`.
    pub fn difference(&self, other: &Self) -> (r: G)
        requires
            G::element(self@),
            G::element(other@),
            G::inv_fits(self@),
            G::op_fits(other@, G::inv(self@)),
        ensures
            r@ == between::<G>(self@, other@),
    {
        let back = self.from_origin.inverse();
        proof {
            G::lemma_closed(self@, other@);
        }
        other.from_origin.multiply(&back)
    }
}

/// Moving a point by the difference to another point reaches that point, and
/// the identity moves no point.
pub proof fn torsor_round_trip<G: LieGroup>(p: G::V, q: G::V)
    requires
        G::element(p),
        G::element(q),
    ensures
        G::element(between::<G>(p, q)),
        moved::<G>(p, between::<G>(p, q)) == q,
        moved::<G>(p, G::unit()) == p,
{
    G::lemma_closed(p, q);
    G::lemma_closed(q, G::inv(p));
    G::lemma_associative(q, G::inv(p), p);
    G::lemma_inverse(p);
    G::lemma_identity(q);
    G::lemma_identity(p);
}

impl<G: LieGroup> GroupAction<Torsor<G>> for G {
    open spec fn on_space(x: G::V) -> bool {
        G::element(x)
    }

    open spec fn action(g: G::V, x: G::V) -> G::V {
        G::op(g, x)
    }

    open spec fn action_fits(g: G::V, x: G::V) -> bool {
        G::op_fits(g, x)
    }

    proof fn lemma_action(g: G::V, h: G::V, x: G::V) {
        G::lemma_closed(g, x);
        G::lemma_identity(x);
        G::lemma_associative(g, h, x);
    }

    fn act_on(&self, point: &Torsor<G>) -> (r: Torsor<G>) {
        point.act(self)
    }
}

/// Vectors under addition: the translation group.
impl<const N: usize> LieGroup for Vector<N> {
    open spec fn element(g: Seq<int>) -> bool {
        g.len() == N
    }

    open spec fn unit() -> Seq<int> {
        zeros(N as nat)
    }

    open spec fn op(a: Seq<int>, b: Seq<int>) -> Seq<int> {
        add_seq(a, b)
    }

    open spec fn inv(a: Seq<int>) -> Seq<int> {
        neg_seq(a)
    }

    open spec fn op_fits(a: Seq<int>, b: Seq<int>) -> bool {
        all_fit(add_seq(a, b))
    }

    open spec fn inv_fits(a: Seq<int>) -> bool {
        all_fit(neg_seq(a))
    }

    proof fn lemma_closed(a: Seq<int>, b: Seq<int>) {
    }

    proof fn lemma_associative(a: Seq<int>, b: Seq<int>, c: Seq<int>) {
        assert(add_seq(add_seq(a, b), c) =~= add_seq(a, add_seq(b, c)));
    }

    proof fn lemma_identity(a: Seq<int>) {
        assert(add_seq(a, zeros(N as nat)) =~= a);
        assert(add_seq(zeros(N as nat), a) =~= a);
    }

    proof fn lemma_inverse(a: Seq<int>) {
        assert(add_seq(a, neg_seq(a)) =~= zeros(N as nat));
        assert(add_seq(neg_seq(a), a) =~= zeros(N as nat));
    }

    fn identity() -> (r: Self) {
        Vector::zero()
    }

    fn multiply(&self, other: &Self) -> (r: Self) {
        self.add(other)
    }

    fn inverse(&self) -> (r: Self) {
        let z = Vector::<N>::zero();
        assert(sub_seq(z@, self@) =~= neg_seq(self@));
        self.difference(&z)
    }
}

} // verus!
