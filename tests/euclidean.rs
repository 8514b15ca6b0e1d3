use geometrica::affine::GeneralAffineGroup;
use geometrica::basis::{dual_basis, AffineFrame, Basis, OrthonormalBasis};
use geometrica::euclidean::{Motion2D, Motion3D, SpecialEuclideanGroup2D, SpecialEuclideanGroup3D};
use geometrica::general::{inverse_of, GeneralLinearGroup, LinearError};
use geometrica::lie::{GroupAction, LieGroup, Torsor};
use geometrica::manifold::{Chart, Manifold};
use geometrica::matrix::Matrix3;
use geometrica::orthogonal::{Rotation2D, Rotation3D, SpecialOrthogonalGroup2D, SpecialOrthogonalGroup3D};
use geometrica::space::{Covector, Vector};

fn v3(x: i64, y: i64, z: i64) -> Vector<3> {
    Vector::new([x, y, z])
}

fn quarter_about(axis: usize, turns: i64) -> Rotation3D {
    let mut a = [0i64; 3];
    a[axis] = 1;
    Rotation3D::from_axis_angle(&Vector::new(a), turns).unwrap()
}

#[test]
fn test_euclid3() {
    let e = AffineFrame::reference();
    let v = e.from_local(&[1, 2, 3]);
    let r = Rotation3D::from_axis_angle(&e.basis.vectors[0], 1).unwrap();
    let m = Motion3D::from_rotation(&r, &e.origin);
    let b = e.act(&m);
    assert_eq!(e.to_local(&v), [1, 2, 3]);
    assert_eq!(b.to_local(&v), [1, 3, -2]);
}

#[test]
fn rotation_about_first_axis() {
    let r = quarter_about(0, 1);
    assert_eq!(r.act_on(&v3(1, 0, 0)).raw, [1, 0, 0]);
    assert_eq!(r.act_on(&v3(0, 1, 0)).raw, [0, 0, 1]);
    assert_eq!(r.act_on(&v3(0, 0, 1)).raw, [0, -1, 0]);
}

#[test]
fn rotation_about_negative_axis_turns_back() {
    let r = Rotation3D::from_axis_angle(&v3(-5, 0, 0), 1).unwrap();
    assert_eq!(r.act_on(&v3(0, 1, 0)).raw, [0, 0, -1]);
    assert!(Rotation3D::from_axis_angle(&v3(1, 1, 0), 1).is_none());
    assert!(Rotation3D::from_axis_angle(&v3(0, 0, 0), 1).is_none());
}

#[test]
fn rotation_quarter_turns_reduce() {
    let r = quarter_about(2, -7);
    let s = quarter_about(2, 1);
    assert_eq!(r.repr, s.repr);
    assert_eq!(r.act_on(&v3(1, 0, 0)).raw, [0, 1, 0]);
}

#[test]
fn singular_basis_rejected() {
    let r = Basis::new([v3(1, 0, 0), v3(2, 0, 0), v3(0, 1, 0)]);
    assert_eq!(r.unwrap_err(), LinearError::Singular);
}

#[test]
fn non_unimodular_basis_rejected() {
    let r = Basis::new([v3(2, 0, 0), v3(0, 1, 0), v3(0, 0, 1)]);
    assert_eq!(r.unwrap_err(), LinearError::NotInvertible);
    let big = 1i64 << 31;
    let r = Basis::new([v3(big, 0, 0), v3(0, 1, 0), v3(0, 0, 1)]);
    assert_eq!(r.unwrap_err(), LinearError::OutOfRange);
}

#[test]
fn dual_basis_pairs_to_identity() {
    let basis = [v3(1, 1, 0), v3(0, 1, 0), v3(2, 3, 1)];
    let dual = dual_basis(&basis).unwrap();
    assert_eq!(dual.denominator, 1);
    for i in 0..3 {
        for j in 0..3 {
            let expected = if i == j { 1 } else { 0 };
            assert_eq!(dual.covectors[i].pair_with(&basis[j]), expected);
        }
    }
}

#[test]
fn dual_basis_of_any_nonsingular_basis() {
    let basis = [v3(2, 0, 0), v3(0, 1, 0), v3(1, 1, 3)];
    let dual = dual_basis(&basis).unwrap();
    assert_eq!(dual.denominator, 6);
    assert_eq!(dual.covectors[0].raw, [3, 0, -1]);
    for i in 0..3 {
        for j in 0..3 {
            let expected = if i == j { 6 } else { 0 };
            assert_eq!(dual.covectors[i].pair_with(&basis[j]), expected);
        }
    }
    assert_eq!(dual_basis(&[v3(1, 0, 0), v3(2, 0, 0), v3(0, 1, 0)]).unwrap_err(), LinearError::Singular);
    let big = 1i64 << 31;
    assert_eq!(dual_basis(&[v3(big, 0, 0), v3(0, 1, 0), v3(0, 0, 1)]).unwrap_err(), LinearError::OutOfRange);
}

#[test]
fn dual_of_dual_is_the_basis() {
    let basis = [v3(2, 0, 0), v3(0, 1, 0), v3(1, 1, 3)];
    let dual = dual_basis(&basis).unwrap();
    let as_vectors = [
        Vector::new(dual.covectors[0].raw),
        Vector::new(dual.covectors[1].raw),
        Vector::new(dual.covectors[2].raw),
    ];
    let second = dual_basis(&as_vectors).unwrap();
    for i in 0..3 {
        for k in 0..3 {
            assert_eq!(
                dual.denominator * second.covectors[i].raw[k] as i128,
                second.denominator * basis[i].raw[k] as i128
            );
        }
    }
}

#[test]
fn dual_basis_of_negative_determinant() {
    let basis = [v3(0, 1, 0), v3(1, 0, 0), v3(0, 0, 1)];
    let dual = dual_basis(&basis).unwrap();
    assert_eq!(dual.denominator, -1);
    assert_eq!(dual.covectors[0].raw, [0, -1, 0]);
    assert_eq!(dual.covectors[1].raw, [-1, 0, 0]);
    assert_eq!(dual.covectors[2].raw, [0, 0, -1]);
}

#[test]
fn chart_round_trips() {
    let b = Basis::new([v3(1, 2, 0), v3(0, 1, 0), v3(3, 0, 1)]).unwrap();
    let c = [4, -5, 6];
    let p = b.from_local(&c);
    assert_eq!(p.raw, [22, 3, 6]);
    assert_eq!(b.to_local(&p), c);
    let q = v3(7, -1, 2);
    let back = b.from_local(&b.to_local(&q));
    assert_eq!(back.raw, q.raw);
}

#[test]
fn affine_frame_round_trips() {
    let basis = Basis::new([v3(1, 0, 0), v3(1, 1, 0), v3(0, 0, 1)]).unwrap();
    let frame = AffineFrame { origin: Torsor::new(v3(10, 20, 30)), basis };
    let p = frame.from_local(&[1, 2, 3]);
    assert_eq!(p.from_origin.raw, [13, 22, 33]);
    assert_eq!(frame.to_local(&p), [1, 2, 3]);
}

#[test]
fn linear_basis_chart() {
    let m = Matrix3::new([[1, 1, 0], [0, 1, 0], [0, 0, 1]]);
    let chart = Torsor::new(GeneralLinearGroup::from_matrix(m).unwrap());
    let v = v3(3, 4, 5);
    let c = chart.to_local(&v);
    assert_eq!(c, [7, 4, 5]);
    assert_eq!(chart.from_local(&c).raw, [3, 4, 5]);
}

#[test]
fn orthonormal_check() {
    assert!(Basis::standard().check_orthonormal());
    let b = Basis::new([v3(1, 1, 0), v3(0, 1, 0), v3(0, 0, 1)]).unwrap();
    assert!(!b.check_orthonormal());
    assert!(AffineFrame::reference().check_orthonormal());
}

#[test]
fn general_linear_inverse_and_errors() {
    let m = Matrix3::new([[2, 1, 0], [1, 1, 0], [0, 0, -1]]);
    let g = GeneralLinearGroup::from_matrix(m).unwrap();
    assert_eq!(g.inverse_matrix().rows, [[1, -1, 0], [-1, 2, 0], [0, 0, -1]]);
    let i = g.multiply(&g.inverse());
    assert_eq!(i.matrix().rows, [[1, 0, 0], [0, 1, 0], [0, 0, 1]]);
    let singular = Matrix3::new([[1, 2, 3], [2, 4, 6], [0, 0, 1]]);
    assert_eq!(GeneralLinearGroup::from_matrix(singular).unwrap_err(), LinearError::Singular);
}

#[test]
fn general_linear_group_axioms() {
    let a = GeneralLinearGroup::from_matrix(Matrix3::new([[1, 2, 0], [0, 1, 0], [0, 0, 1]])).unwrap();
    let b = GeneralLinearGroup::from_matrix(Matrix3::new([[0, 1, 0], [1, 0, 0], [0, 0, 1]])).unwrap();
    let c = GeneralLinearGroup::from_matrix(Matrix3::new([[1, 0, 0], [0, 1, 3], [0, 0, 1]])).unwrap();
    let e = GeneralLinearGroup::identity();
    assert_eq!(a.multiply(&b).multiply(&c), a.multiply(&b.multiply(&c)));
    assert_eq!(a.multiply(&e), a);
    assert_eq!(e.multiply(&a), a);
    assert_eq!(a.multiply(&a.inverse()), e);
    assert_eq!(a.inverse().multiply(&a), e);
    assert_eq!(a.act_on(&v3(1, 1, 1)).raw, [3, 1, 1]);
}

#[test]
fn translation_group_axioms() {
    let (a, b, c) = (v3(1, 2, 3), v3(-4, 5, 0), v3(7, 0, -9));
    let e = Vector::<3>::identity();
    assert_eq!(a.multiply(&b).multiply(&c), a.multiply(&b.multiply(&c)));
    assert_eq!(a.multiply(&e), a);
    assert_eq!(e.multiply(&a), a);
    assert_eq!(a.multiply(&a.inverse()), e);
    assert_eq!(a.inverse().raw, [-1, -2, -3]);
}

#[test]
fn plane_rotation_group() {
    let a = Rotation2D::from_angle(3);
    let b = Rotation2D::from_angle(-6);
    assert_eq!(a.multiply(&b).angle(), -3);
    assert_eq!(a.inverse().angle(), -3);
    assert_eq!(Rotation2D::identity().angle(), 0);
    assert_eq!(a.act_on(&Vector::new([1, 2])).raw, [2, -1]);
    assert_eq!(Rotation2D::from_angle(1).act_on(&Vector::new([1, 2])).raw, [-2, 1]);
    assert_eq!(Rotation2D::from_angle(-1).act_on(&Vector::new([1, 2])).raw, [2, -1]);
    let c = SpecialOrthogonalGroup2D { quarter_turns: 5 };
    assert_eq!(c.reduced(), 1);
    assert_eq!(SpecialOrthogonalGroup2D { quarter_turns: -5 }.reduced(), 3);
}

#[test]
fn space_rotation_group_axioms() {
    let a = quarter_about(0, 1);
    let b = quarter_about(1, 1);
    let c = quarter_about(2, 3);
    let e = Rotation3D::identity();
    assert_eq!(a.multiply(&b).multiply(&c).repr, a.multiply(&b.multiply(&c)).repr);
    assert_eq!(a.multiply(&e).repr, a.repr);
    assert_eq!(a.multiply(&a.inverse()).repr, e.repr);
    let ab = a.multiply(&b);
    let v = v3(1, 2, 3);
    assert_eq!(ab.act_on(&v).raw, a.act_on(&b.act_on(&v)).raw);
    let _: SpecialOrthogonalGroup3D = ab.repr;
}

#[test]
fn plane_motion_group() {
    let a = Motion2D { repr: SpecialEuclideanGroup2D { translation: Vector::new([1, 2]), rotation: SpecialOrthogonalGroup2D { quarter_turns: 1 } } };
    let b = Motion2D { repr: SpecialEuclideanGroup2D { translation: Vector::new([3, -1]), rotation: SpecialOrthogonalGroup2D { quarter_turns: 2 } } };
    let c = Motion2D { repr: SpecialEuclideanGroup2D { translation: Vector::new([0, 5]), rotation: SpecialOrthogonalGroup2D { quarter_turns: -1 } } };
    let ab = a.multiply(&b);
    assert_eq!(ab.repr.translation.raw, [2, 5]);
    assert_eq!(ab.repr.rotation.quarter_turns, 3);
    assert_eq!(ab.multiply(&c).repr, a.multiply(&b.multiply(&c)).repr);
    let e = Motion2D::identity();
    assert_eq!(a.multiply(&a.inverse()).repr, e.repr);
    assert_eq!(a.inverse().multiply(&a).repr, e.repr);
    assert_eq!(a.inverse().repr.translation.raw, [-2, 1]);
}

#[test]
fn space_motion_group() {
    let r = quarter_about(0, 1);
    let s = quarter_about(2, 1);
    let a = Motion3D { repr: SpecialEuclideanGroup3D { translation: v3(1, 2, 3), rotation: r.repr } };
    let b = Motion3D { repr: SpecialEuclideanGroup3D { translation: v3(-1, 0, 4), rotation: s.repr } };
    let c = Motion3D { repr: SpecialEuclideanGroup3D { translation: v3(0, 0, 1), rotation: r.repr } };
    let ab = a.multiply(&b);
    assert_eq!(ab.repr.translation.raw, [0, -2, 3]);
    assert_eq!(ab.multiply(&c).repr, a.multiply(&b.multiply(&c)).repr);
    let e = Motion3D::identity();
    assert_eq!(a.multiply(&a.inverse()).repr, e.repr);
    assert_eq!(a.inverse().multiply(&a).repr, e.repr);
    let p = Torsor::new(v3(1, 1, 1));
    assert_eq!(a.act_on(&p).from_origin.raw, [2, 1, 4]);
}

#[test]
fn torsor_round_trip_on_motions() {
    let r = quarter_about(1, 1);
    let p = Torsor::new(Motion3D { repr: SpecialEuclideanGroup3D { translation: v3(1, 2, 3), rotation: r.repr } });
    let q = Torsor::new(Motion3D { repr: SpecialEuclideanGroup3D { translation: v3(-3, 0, 2), rotation: quarter_about(2, 3).repr } });
    let g = p.difference(&q);
    assert_eq!(p.act(&g).from_origin.repr, q.from_origin.repr);
    assert_eq!(p.act(&Motion3D::identity()).from_origin.repr, p.from_origin.repr);
}

#[test]
fn torsor_round_trip_on_points() {
    let p = Torsor::new(v3(1, 2, 3));
    let q = Torsor::new(v3(-4, 0, 9));
    let g = p.difference(&q);
    assert_eq!(g.raw, [-5, -2, 6]);
    assert_eq!(p.act(&g), q);
}

#[test]
fn dimensions() {
    assert_eq!(Rotation2D::dimension(), 1);
    assert_eq!(Rotation3D::dimension(), 3);
    assert_eq!(Motion2D::dimension(), 3);
    assert_eq!(Motion3D::dimension(), 6);
    assert_eq!(GeneralLinearGroup::dimension(), 9);
    assert_eq!(Vector::<3>::dimension(), 3);
}

#[test]
fn inner_products_through_the_backend() {
    let a = v3(1, 2, 3);
    let w = Covector::new([4, 5, 6]);
    assert_eq!(a.pair_with(&w), 32);
    assert_eq!(w.pair_with(&a), 32);
    assert_eq!(geometrica::space::InnerProductSpace::dot(&a, &v3(-1, 0, 2)), 5);
    assert_eq!(a.scale(-2).raw, [-2, -4, -6]);
    assert_eq!(a.difference(&v3(1, 1, 1)).raw, [0, -1, -2]);
    assert_eq!(a.add(&a.difference(&v3(-4, 0, 9))).raw, [-4, 0, 9]);
    assert_eq!(Covector::<3>::zero().add(&w).scale(2).raw, [8, 10, 12]);
}

#[test]
fn rotation_axes() {
    assert!(Rotation3D::identity().axis().is_none());
    assert_eq!(quarter_about(0, 1).axis().unwrap().raw, [1, 0, 0]);
    assert_eq!(quarter_about(0, 3).axis().unwrap().raw, [-1, 0, 0]);
    assert_eq!(quarter_about(2, 2).axis().unwrap().raw, [0, 0, 1]);
    let r = quarter_about(0, 1).multiply(&quarter_about(1, 1));
    let w = r.axis().unwrap();
    assert_eq!(r.act_on(&w).raw, w.raw);
    assert_eq!(w.raw, [1, 1, 1]);
    let h = Rotation3D::from_axis_angle(&v3(1, -1, 0), 2).unwrap();
    assert_eq!(h.axis().unwrap().raw, [1, -1, 0]);
}

#[test]
fn general_affine_group() {
    let lin = GeneralLinearGroup::from_matrix(Matrix3::new([[1, 1, 0], [0, 1, 0], [0, 0, 1]])).unwrap();
    let a = GeneralAffineGroup { translation: v3(1, 2, 3), linear_transformation: lin };
    let b = GeneralAffineGroup { translation: v3(0, -1, 4), linear_transformation: GeneralLinearGroup::identity() };
    let c = GeneralAffineGroup { translation: v3(2, 2, 2), linear_transformation: lin.inverse() };
    let e = GeneralAffineGroup::identity();
    assert_eq!(a.multiply(&b).translation.raw, [0, 1, 7]);
    assert_eq!(a.multiply(&b).multiply(&c), a.multiply(&b.multiply(&c)));
    assert_eq!(a.multiply(&a.inverse()), e);
    assert_eq!(a.inverse().multiply(&a), e);
    let p = a.from_local(&[1, 1, 1]);
    assert_eq!(p.from_origin.raw, [3, 3, 4]);
    assert_eq!(a.to_local(&p), [1, 1, 1]);
    assert_eq!(GeneralAffineGroup::dimension(), 12);
}

#[test]
fn orthonormal_linear_basis_chart() {
    let chart = Torsor::new(quarter_about(2, 1));
    let v = v3(1, 2, 3);
    let c = chart.to_local(&v);
    assert_eq!(c, [-2, 1, 3]);
    assert_eq!(chart.from_local(&c).raw, [1, 2, 3]);
}

#[test]
fn covectors_move_by_inverse_transpose() {
    let g = GeneralLinearGroup::from_matrix(Matrix3::new([[1, 1, 0], [0, 1, 0], [0, 0, 1]])).unwrap();
    let w = Covector::new([1, 2, 3]);
    let v = v3(3, 4, 5);
    let w2: Covector<3> = g.act_on(&w);
    let v2: Vector<3> = g.act_on(&v);
    assert_eq!(w2.raw, [1, 1, 3]);
    assert_eq!(v2.raw, [7, 4, 5]);
    assert_eq!(w2.pair_with(&v2), w.pair_with(&v));
    let r = quarter_about(0, 1);
    let rw: Covector<3> = r.act_on(&w);
    let rv: Vector<3> = r.act_on(&v);
    assert_eq!(rw.raw, [1, -3, 2]);
    assert_eq!(rw.pair_with(&rv), w.pair_with(&v));
}

#[test]
fn motion_charts() {
    let m2 = SpecialEuclideanGroup2D { translation: Vector::new([1, 2]), rotation: SpecialOrthogonalGroup2D { quarter_turns: 1 } };
    let p = m2.from_local(&[3, 4]);
    assert_eq!(p.raw, [-3, 5]);
    assert_eq!(m2.to_local(&p), [3, 4]);
    let m3 = SpecialEuclideanGroup3D { translation: v3(1, 2, 3), rotation: quarter_about(0, 1).repr };
    let q = m3.from_local(&[1, 2, 3]);
    assert_eq!(q.from_origin.raw, [2, -1, 5]);
    assert_eq!(m3.to_local(&q), [1, 2, 3]);
}

#[test]
fn rotations_about_any_axis() {
    let id = Rotation3D::from_axis_angle(&v3(1, 2, 3), 4).unwrap();
    assert_eq!(id.repr, Rotation3D::identity().repr);
    let h = Rotation3D::from_axis_angle(&v3(0, 5, -5), 2).unwrap();
    assert_eq!(h.act_on(&v3(0, 1, -1)).raw, [0, 1, -1]);
    assert_eq!(h.act_on(&v3(1, 0, 0)).raw, [-1, 0, 0]);
    assert_eq!(h.act_on(&v3(0, 1, 1)).raw, [0, -1, -1]);
    assert!(Rotation3D::from_axis_angle(&v3(1, 1, 1), 2).is_none());
    assert!(Rotation3D::from_axis_angle(&v3(1, 2, 0), 2).is_none());
    assert!(Rotation3D::from_axis_angle(&v3(0, 0, 0), 0).is_none());
}

#[test]
fn rotation_angles() {
    assert_eq!(Rotation3D::identity().angle(), 0);
    assert_eq!(quarter_about(1, 1).angle(), 90);
    assert_eq!(quarter_about(1, 3).angle(), 90);
    assert_eq!(quarter_about(1, 2).angle(), 180);
    assert_eq!(quarter_about(0, 1).multiply(&quarter_about(1, 1)).angle(), 120);
    let r = quarter_about(2, 1);
    let back = Rotation3D::from_axis_angle(&r.axis().unwrap(), r.angle() / 90).unwrap();
    assert_eq!(back.repr, r.repr);
}

#[test]
fn plane_rotation_chart() {
    let chart = Torsor::new(Rotation2D::from_angle(1));
    let v = Vector::new([3, 4]);
    let c = chart.to_local(&v);
    assert_eq!(c, [-4, 3]);
    assert_eq!(chart.from_local(&c).raw, [3, 4]);
}

#[test]
fn inverse_of_any_nonsingular_matrix() {
    let m = Matrix3::new([[2, 0, 1], [0, 1, 1], [0, 0, 3]]);
    let inv = inverse_of(&m).unwrap();
    assert_eq!(inv.denominator, 6);
    assert_eq!(m.mul(&inv.numerators).rows, [[6, 0, 0], [0, 6, 0], [0, 0, 6]]);
    assert_eq!(inverse_of(&Matrix3::new([[1, 2, 3], [2, 4, 6], [0, 0, 1]])).unwrap_err(), LinearError::Singular);
}

#[test]
fn axis_angle_round_trip_on_every_lattice_rotation() {
    let gens = [quarter_about(0, 1), quarter_about(1, 1)];
    let mut all: Vec<Rotation3D> = vec![Rotation3D::identity()];
    let mut i = 0;
    while i < all.len() {
        for g in gens.iter() {
            let n = all[i].multiply(g);
            if !all.iter().any(|r| r.repr == n.repr) {
                all.push(n);
            }
        }
        i += 1;
    }
    assert_eq!(all.len(), 24);
    for r in all.iter() {
        match r.axis() {
            None => assert_eq!(r.repr, Rotation3D::identity().repr),
            Some(a) => {
                let back = Rotation3D::from_axis_angle_degrees(&a, r.angle()).unwrap();
                assert_eq!(back.repr, r.repr);
                assert_eq!(r.act_on(&a).raw, a.raw);
            }
        }
    }
    let third = Rotation3D::from_axis_angle_degrees(&v3(1, 1, 1), 120).unwrap();
    assert_eq!(third.act_on(&v3(1, 0, 0)).raw, [0, 1, 0]);
    let back = Rotation3D::from_axis_angle_degrees(&v3(1, 1, 1), -120).unwrap();
    assert_eq!(third.multiply(&back).repr, Rotation3D::identity().repr);
    assert!(Rotation3D::from_axis_angle_degrees(&v3(1, 1, 0), 120).is_none());
    assert!(Rotation3D::from_axis_angle_degrees(&v3(1, 0, 0), 45).is_none());
}

#[test]
fn plane_motion_identity_keeps_extreme_translation() {
    let a = Motion2D { repr: SpecialEuclideanGroup2D { translation: Vector::new([i64::MIN, 3]), rotation: SpecialOrthogonalGroup2D { quarter_turns: 0 } } };
    let p = Motion2D::identity().multiply(&a);
    assert_eq!(p.repr, a.repr);
}
