use vstd::prelude::*;
use crate::manifold::{fits, Manifold};

verus! {

/// Coordinates of an array, as integers.
pub open spec fn ints<const N: usize>(a: [i64; N]) -> Seq<int> {
    seq_ints(a@)
}

/// A sequence of coordinates, as integers.
pub open spec fn seq_ints(s: Seq<i64>) -> Seq<int> {
    s.map_values(|x: i64| x as int)
}

pub open spec fn zeros(n: nat) -> Seq<int> {
    Seq::new(n, |i: int| 0int)
}

pub open spec fn add_seq(a: Seq<int>, b: Seq<int>) -> Seq<int> {
    Seq::new(a.len(), |i: int| a[i] + b[i])
}

pub open spec fn sub_seq(a: Seq<int>, b: Seq<int>) -> Seq<int> {
    Seq::new(a.len(), |i: int| a[i] - b[i])
}

pub open spec fn neg_seq(a: Seq<int>) -> Seq<int> {
    Seq::new(a.len(), |i: int| -a[i])
}

pub open spec fn scale_seq(a: Seq<int>, s: int) -> Seq<int> {
    Seq::new(a.len(), |i: int| a[i] * s)
}

/// The sum of the first `n` products of matching coordinates.
pub open spec fn dot_upto(a: Seq<int>, b: Seq<int>, n: int) -> int
    decreases n,
{
    if n <= 0 {
        0
    } else {
        dot_upto(a, b, n - 1) + a[n - 1] * b[n - 1]
    }
}

/// The inner product of two coordinate sequences.
pub open spec fn dot(a: Seq<int>, b: Seq<int>) -> int {
    dot_upto(a, b, a.len() as int)
}

pub open spec fn abs(x: int) -> int {
    if x < 0 {
        -x
    } else {
        x
    }
}

/// The sum of the first `n` absolute products, which bounds every partial sum.
pub open spec fn abs_dot_upto(a: Seq<int>, b: Seq<int>, n: int) -> int
    decreases n,
{
    if n <= 0 {
        0
    } else {
        abs_dot_upto(a, b, n - 1) + abs(a[n - 1]) * abs(b[n - 1])
    }
}

/// An inner product can be summed in any order without leaving the scalar range.
pub open spec fn dot_fits(a: Seq<int>, b: Seq<int>) -> bool {
    abs_dot_upto(a, b, a.len() as int) <= i64::MAX
}

/// A coordinatewise operation gives values in the scalar range.
pub open spec fn all_fit(a: Seq<int>) -> bool {
    forall|i: int| 0 <= i < a.len() ==> fits(#[trigger] a[i])
}

/// A vector of the `N`-dimensional space, by its coordinates.
#[derive(Clone, Copy, Debug, PartialEq, Eq)]
pub struct Vector<const N: usize> {
    pub raw: [i64; N],
}

/// A covector: a linear form on `Vector<N>`, by its coordinates.
#[derive(Clone, Copy, Debug, PartialEq, Eq)]
pub struct Covector<const N: usize> {
    pub raw: [i64; N],
}

impl<const N: usize> View for Vector<N> {
    type V = Seq<int>;

    open spec fn view(&self) -> Seq<int> {
        ints(self.raw)
    }
}

impl<const N: usize> View for Covector<N> {
    type V = Seq<int>;

    open spec fn view(&self) -> Seq<int> {
        ints(self.raw)
    }
}

/// Relies on nalgebra's `Matrix::dot` on two column views of the slices: the
/// sum of the products of matching coordinates, computed with the `i64`
/// operations of std; a bound on the absolute products keeps every partial
/// sum in range, whatever the order of summation.
#[verifier::external_body]
pub(crate) fn raw_dot(a: &[i64], b: &[i64]) -> (r: i64)
    requires
        a@.len() == b@.len(),
        dot_fits(seq_ints(a@), seq_ints(b@)),
    ensures
        r == dot(seq_ints(a@), seq_ints(b@)),
{
    nalgebra::DVectorView::from_slice(a, a.len()).dot(&nalgebra::DVectorView::from_slice(b, b.len()))
}

/// The inner product of two coordinate arrays.
pub(crate) fn dot_arrays<const N: usize>(a: &[i64; N], b: &[i64; N]) -> (r: i64)
    requires
        dot_fits(ints(*a), ints(*b)),
    ensures
        r == dot(ints(*a), ints(*b)),
{
    raw_dot(vstd::array::array_as_slice(a), vstd::array::array_as_slice(b))
}

fn array_zero<const N: usize>() -> (r: [i64; N])
    ensures
        ints(r) == zeros(N as nat),
{
    let r: [i64; N] = vstd::array::array_fill_for_copy_types(0i64);
    assert(ints(r) =~= zeros(N as nat));
    r
}

fn array_add<const N: usize>(a: &[i64; N], b: &[i64; N]) -> (r: [i64; N])
    requires
        all_fit(add_seq(ints(*a), ints(*b))),
    ensures
        ints(r) == add_seq(ints(*a), ints(*b)),
{
    let mut r = *a;
    let mut i: usize = 0;
    while i < N
        invariant
            i <= N,
            all_fit(add_seq(ints(*a), ints(*b))),
            forall|j: int| 0 <= j < i ==> r@[j] == a@[j] + b@[j],
            forall|j: int| i <= j < N ==> r@[j] == a@[j],
        decreases N - i,
    {
        assert(fits(add_seq(ints(*a), ints(*b))[i as int]));
        r[i] = a[i] + b[i];
        i += 1;
    }
    assert(ints(r) =~= add_seq(ints(*a), ints(*b)));
    r
}

fn array_sub<const N: usize>(a: &[i64; N], b: &[i64; N]) -> (r: [i64; N])
    requires
        all_fit(sub_seq(ints(*a), ints(*b))),
    ensures
        ints(r) == sub_seq(ints(*a), ints(*b)),
{
    let mut r = *a;
    let mut i: usize = 0;
    while i < N
        invariant
            i <= N,
            all_fit(sub_seq(ints(*a), ints(*b))),
            forall|j: int| 0 <= j < i ==> r@[j] == a@[j] - b@[j],
            forall|j: int| i <= j < N ==> r@[j] == a@[j],
        decreases N - i,
    {
        assert(fits(sub_seq(ints(*a), ints(*b))[i as int]));
        r[i] = a[i] - b[i];
        i += 1;
    }
    assert(ints(r) =~= sub_seq(ints(*a), ints(*b)));
    r
}

fn array_scale<const N: usize>(a: &[i64; N], s: i64) -> (r: [i64; N])
    requires
        all_fit(scale_seq(ints(*a), s as int)),
    ensures
        ints(r) == scale_seq(ints(*a), s as int),
{
    let mut r = *a;
    let mut i: usize = 0;
    while i < N
        invariant
            i <= N,
            all_fit(scale_seq(ints(*a), s as int)),
            forall|j: int| 0 <= j < i ==> r@[j] == a@[j] * s,
            forall|j: int| i <= j < N ==> r@[j] == a@[j],
        decreases N - i,
    {
        assert(fits(scale_seq(ints(*a), s as int)[i as int]));
        r[i] = a[i] * s;
        i += 1;
    }
    assert(ints(r) =~= scale_seq(ints(*a), s as int));
    r
}

impl<const N: usize> Manifold for Vector<N> {
    open spec fn dim() -> nat {
        N as nat
    }

    fn dimension() -> (r: usize) {
        N
    }
}

impl<const N: usize> Vector<N> {
    pub fn new(raw: [i64; N]) -> (r: Self)
        ensures
            r@ == ints(raw),
    {
        Vector { raw }
    }

    pub fn zero() -> (r: Self)
        ensures
            r@ == zeros(N as nat),
    {
        Vector { raw: array_zero() }
    }

    pub fn scale(&self, scalar: i64) -> (r: Self)
        requires
            all_fit(scale_seq(self@, scalar as int)),
        ensures
            r@ == scale_seq(self@, scalar as int),
    {
        Vector { raw: array_scale(&self.raw, scalar) }
    }

    pub fn add(&self, other: &Self) -> (r: Self)
        requires
            all_fit(add_seq(self@, other@)),
        ensures
            r@ == add_seq(self@, other@),
    {
        Vector { raw: array_add(&self.raw, &other.raw) }
    }

    /// The vector that carries this one to `other` by addition:
    /// `self.add(&self.difference(other)) == other`.
    pub fn difference(&self, other: &Self) -> (r: Self)
        requires
            all_fit(sub_seq(other@, self@)),
        ensures
            r@ == sub_seq(other@, self@),
    {
        Vector { raw: array_sub(&other.raw, &self.raw) }
    }

    /// The value of a covector on this vector.
    pub fn pair_with(&self, dual: &Covector<N>) -> (r: i64)
        requires
            dot_fits(self@, dual@),
        ensures
            r == dot(self@, dual@),
    {
        dot_arrays(&self.raw, &dual.raw)
    }
}

impl<const N: usize> Covector<N> {
    pub fn new(raw: [i64; N]) -> (r: Self)
        ensures
            r@ == ints(raw),
    {
        Covector { raw }
    }

    pub fn zero() -> (r: Self)
        ensures
            r@ == zeros(N as nat),
    {
        Covector { raw: array_zero() }
    }

    pub fn scale(&self, scalar: i64) -> (r: Self)
        requires
            all_fit(scale_seq(self@, scalar as int)),
        ensures
            r@ == scale_seq(self@, scalar as int),
    {
        Covector { raw: array_scale(&self.raw, scalar) }
    }

    pub fn add(&self, other: &Self) -> (r: Self)
        requires
            all_fit(add_seq(self@, other@)),
        ensures
            r@ == add_seq(self@, other@),
    {
        Covector { raw: array_add(&self.raw, &other.raw) }
    }

    /// The value of this covector on a vector.
    pub fn pair_with(&self, vector: &Vector<N>) -> (r: i64)
        requires
            dot_fits(self@, vector@),
        ensures
            r == dot(self@, vector@),
    {
        dot_arrays(&self.raw, &vector.raw)
    }
}

/// A linear space with an inner product.
pub trait InnerProductSpace: View {
    spec fn inner(a: Self::V, b: Self::V) -> int;

    /// The inner product can be computed within the scalar range.
    spec fn inner_fits(a: Self::V, b: Self::V) -> bool;

    fn dot(&self, other: &Self) -> (r: i64)
        requires
            Self::inner_fits(self@, other@),
        ensures
            r == Self::inner(self@, other@),
    ;
}

impl<const N: usize> InnerProductSpace for Vector<N> {
    open spec fn inner(a: Seq<int>, b: Seq<int>) -> int {
        dot(a, b)
    }

    open spec fn inner_fits(a: Seq<int>, b: Seq<int>) -> bool {
        dot_fits(a, b)
    }

    fn dot(&self, other: &Self) -> (r: i64) {
        dot_arrays(&self.raw, &other.raw)
    }
}

/// A vector space over the integers, by coordinates, with its dual space.
pub trait LinearSpace: View<V = Seq<int>> + Sized {
    type DualSpace: View<V = Seq<int>>;

    /// The number of coordinates.
    spec fn size() -> nat;

    fn zero() -> (r: Self)
        ensures
            r@ == zeros(Self::size()),
    ;

    fn scale(&self, scalar: i64) -> (r: Self)
        requires
            all_fit(scale_seq(self@, scalar as int)),
        ensures
            r@ == scale_seq(self@, scalar as int),
    ;

    fn add(&self, other: &Self) -> (r: Self)
        requires
            all_fit(add_seq(self@, other@)),
        ensures
            r@ == add_seq(self@, other@),
    ;

    fn pair_with(&self, dual: &Self::DualSpace) -> (r: i64)
        requires
            dot_fits(self@, dual@),
        ensures
            r == dot(self@, dual@),
    ;
}

impl<const N: usize> LinearSpace for Vector<N> {
    type DualSpace = Covector<N>;

    open spec fn size() -> nat {
        N as nat
    }

    fn zero() -> (r: Self) {
        Vector::<N>::zero()
    }

    fn scale(&self, scalar: i64) -> (r: Self) {
        Vector::<N>::scale(self, scalar)
    }

    fn add(&self, other: &Self) -> (r: Self) {
        Vector::<N>::add(self, other)
    }

    fn pair_with(&self, dual: &Covector<N>) -> (r: i64) {
        Vector::<N>::pair_with(self, dual)
    }
}

impl<const N: usize> LinearSpace for Covector<N> {
    type DualSpace = Vector<N>;

    open spec fn size() -> nat {
        N as nat
    }

    fn zero() -> (r: Self) {
        Covector::<N>::zero()
    }

    fn scale(&self, scalar: i64) -> (r: Self) {
        Covector::<N>::scale(self, scalar)
    }

    fn add(&self, other: &Self) -> (r: Self) {
        Covector::<N>::add(self, other)
    }

    fn pair_with(&self, vector: &Vector<N>) -> (r: i64) {
        Covector::<N>::pair_with(self, vector)
    }
}

/// Adding the difference of two vectors to the first gives the second: the
/// difference is the translation that carries `p` to `q`.
pub proof fn vector_difference_round_trip(p: Seq<int>, q: Seq<int>)
    requires
        p.len() == q.len(),
    ensures
        add_seq(p, sub_seq(q, p)) == q,
{
    assert(add_seq(p, sub_seq(q, p)) =~= q);
}

} // verus!
