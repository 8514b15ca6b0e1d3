use geometrica::euclidean::Motion3D;
use geometrica::kinematics::{Kinematics, LieAlgebra, LieAlgebraDual};
use geometrica::lie::{LieGroup, Torsor};
use geometrica::space::Vector;
use geometrica::tangent::{with_pair, CotangentBundle, TangentBundle};
use geometrica::basis::Basis;
use geometrica::space::Covector;

#[test]
fn test_particle_motion() {
    let particle = Kinematics::<Vector<3>>::stationary(Torsor::new(Vector::zero()));
    assert_eq!(particle.velocity.raw, vec![0, 0, 0]);
    let frame = Kinematics::<Motion3D>::stationary(Torsor::new(Motion3D::identity()));
    assert_eq!(frame.velocity.raw, vec![0, 0, 0, 0, 0, 0]);
    let moving = Kinematics::new(
        Torsor::new(Vector::new([1, 2, 3])),
        LieAlgebra::<Vector<3>> { raw: vec![4, 5, 6], group: std::marker::PhantomData },
    );
    assert_eq!(moving.point.from_origin.raw, [1, 2, 3]);
    assert_eq!(moving.velocity.raw, vec![4, 5, 6]);
}

#[test]
fn lie_algebra_pairing() {
    let v = LieAlgebra::<Motion3D> { raw: vec![1, 0, 2, 0, 3, 0], group: std::marker::PhantomData };
    let w = LieAlgebraDual::<Motion3D> { raw: vec![5, 9, 1, 9, -1, 9], group: std::marker::PhantomData };
    assert_eq!(v.pair_with(&w), 4);
    assert_eq!(LieAlgebraDual::<Motion3D>::zero().raw.len(), 6);
}

#[test]
fn test() {
    let point = Torsor::new(Vector::new([0, 0, 0]));
    let basis = Basis::standard();
    let t = TangentBundle::from_local(point, &basis, &[1, 2, 3]);
    let u = TangentBundle::from_local(point, &basis, &[4, 5, 6]);
    let sum = t.with_vector(|a| a.add(&a).to_raw());
    assert_eq!(sum.raw, [2, 4, 6]);
    let local = u.with_vector(|b| b.scale(3).local_in(&basis));
    assert_eq!(local, [12, 15, 18]);
    let c = CotangentBundle { point, covector: Covector::new([1, 1, 1]) };
    let value = with_pair(&t, &c, |v, w| w.pair_with(&v));
    assert_eq!(value, 6);
    let doubled = c.with_covector(|w| w.add(&w).to_raw());
    assert_eq!(doubled.raw, [2, 2, 2]);
}

#[test]
fn induced_basis_is_constant() {
    let frame = geometrica::basis::AffineFrame::reference();
    let p = Torsor::new(Vector::new([5, -2, 7]));
    let b = frame.induced_basis(&p);
    assert_eq!(b[0].raw, [1, 0, 0]);
    assert_eq!(b[2].raw, [0, 0, 1]);
}

#[test]
fn earth_fixed_frame_is_unavailable() {
    use_ecef();
}

fn use_ecef() {
    let r = geometrica::astrodynamics::ecef(0);
    assert!(matches!(r, Err(geometrica::astrodynamics::FrameError::Unavailable)));
}
