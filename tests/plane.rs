use geometrica::general::LinearError;
use geometrica::lie::Torsor;
use geometrica::manifold::Chart;
use geometrica::plane::{dual_basis_2d, AffineFrame2D, Basis2D};
use geometrica::space::Vector;

fn v2(x: i64, y: i64) -> Vector<2> {
    Vector::new([x, y])
}

#[test]
fn plane_dual_basis_of_any_nonsingular_basis() {
    let basis = [v2(2, 1), v2(1, 3)];
    let d = dual_basis_2d(&basis).unwrap();
    assert_eq!(d.denominator, 5);
    assert_eq!(d.covectors[0].raw, [3, -1]);
    assert_eq!(d.covectors[1].raw, [-1, 2]);
    for i in 0..2 {
        for j in 0..2 {
            let expected = if i == j { 5 } else { 0 };
            assert_eq!(d.covectors[i].pair_with(&basis[j]), expected);
        }
    }
    assert_eq!(dual_basis_2d(&[v2(1, 2), v2(2, 4)]).unwrap_err(), LinearError::Singular);
    assert_eq!(dual_basis_2d(&[v2(1 << 40, 0), v2(0, 1)]).unwrap_err(), LinearError::OutOfRange);
}

#[test]
fn plane_basis_chart_round_trips() {
    let b = Basis2D::new([v2(1, 1), v2(1, 2)]).unwrap();
    let p = b.from_local(&[3, -2]);
    assert_eq!(p.raw, [1, -1]);
    assert_eq!(b.to_local(&p), [3, -2]);
    assert_eq!(Basis2D::new([v2(2, 0), v2(0, 1)]).unwrap_err(), LinearError::NotInvertible);
    let n = Basis2D::new([v2(0, 1), v2(1, 0)]).unwrap();
    assert_eq!(n.to_local(&v2(5, 7)), [7, 5]);
}

#[test]
fn plane_affine_frame_round_trips() {
    let frame = AffineFrame2D { origin: Torsor::new(v2(10, -4)), basis: Basis2D::new([v2(1, 1), v2(1, 2)]).unwrap() };
    let p = frame.from_local(&[3, -2]);
    assert_eq!(p.from_origin.raw, [11, -5]);
    assert_eq!(frame.to_local(&p), [3, -2]);
}
