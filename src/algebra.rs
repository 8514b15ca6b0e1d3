use vstd::prelude::*;

verus! {

/// The determinant of the rows `(a, b, c)`, `(d, e, f)`, `(g, h, k)`.
pub open spec fn det9(a: int, b: int, c: int, d: int, e: int, f: int, g: int, h: int, k: int) -> int {
    a * (e * k - f * h) + b * (f * g - d * k) + c * (d * h - e * g)
}

pub proof fn lemma_regroup(
    x0: int, x1: int, x2: int,
    b00: int, b01: int, b02: int,
    b10: int, b11: int, b12: int,
    b20: int, b21: int, b22: int,
    c0: int, c1: int, c2: int,
)
    ensures
        (x0 * b00 + x1 * b10 + x2 * b20) * c0 + (x0 * b01 + x1 * b11 + x2 * b21) * c1 + (x0 * b02
            + x1 * b12 + x2 * b22) * c2 == x0 * (b00 * c0 + b01 * c1 + b02 * c2) + x1 * (b10 * c0
            + b11 * c1 + b12 * c2) + x2 * (b20 * c0 + b21 * c1 + b22 * c2),
{
    broadcast use vstd::arithmetic::mul::group_mul_properties;

}

proof fn lemma_cofactor_0(a: int, b: int, c: int, d: int, e: int, f: int, g: int, h: int, k: int)
    ensures
        a * (e * k - f * h) + b * (f * g - d * k) + c * (d * h - e * g) == a * (e * k - f * h) + b * (f * g - d * k) + c * (d * h - e * g),
{
    broadcast use vstd::arithmetic::mul::group_mul_properties;

}

proof fn lemma_cofactor_1(a: int, b: int, c: int, d: int, e: int, f: int, g: int, h: int, k: int)
    ensures
        d * (e * k - f * h) + e * (f * g - d * k) + f * (d * h - e * g) == 0,
{
    broadcast use vstd::arithmetic::mul::group_mul_properties;

}

proof fn lemma_cofactor_2(a: int, b: int, c: int, d: int, e: int, f: int, g: int, h: int, k: int)
    ensures
        g * (e * k - f * h) + h * (f * g - d * k) + k * (d * h - e * g) == 0,
{
    broadcast use vstd::arithmetic::mul::group_mul_properties;

}

proof fn lemma_cofactor_3(a: int, b: int, c: int, d: int, e: int, f: int, g: int, h: int, k: int)
    ensures
        a * (c * h - b * k) + b * (a * k - c * g) + c * (b * g - a * h) == 0,
{
    broadcast use vstd::arithmetic::mul::group_mul_properties;

}

proof fn lemma_cofactor_4(a: int, b: int, c: int, d: int, e: int, f: int, g: int, h: int, k: int)
    ensures
        d * (c * h - b * k) + e * (a * k - c * g) + f * (b * g - a * h) == a * (e * k - f * h) + b * (f * g - d * k) + c * (d * h - e * g),
{
    broadcast use vstd::arithmetic::mul::group_mul_properties;

}

proof fn lemma_cofactor_5(a: int, b: int, c: int, d: int, e: int, f: int, g: int, h: int, k: int)
    ensures
        g * (c * h - b * k) + h * (a * k - c * g) + k * (b * g - a * h) == 0,
{
    broadcast use vstd::arithmetic::mul::group_mul_properties;

}

proof fn lemma_cofactor_6(a: int, b: int, c: int, d: int, e: int, f: int, g: int, h: int, k: int)
    ensures
        a * (b * f - c * e) + b * (c * d - a * f) + c * (a * e - b * d) == 0,
{
    broadcast use vstd::arithmetic::mul::group_mul_properties;

}

proof fn lemma_cofactor_7(a: int, b: int, c: int, d: int, e: int, f: int, g: int, h: int, k: int)
    ensures
        d * (b * f - c * e) + e * (c * d - a * f) + f * (a * e - b * d) == 0,
{
    broadcast use vstd::arithmetic::mul::group_mul_properties;

}

proof fn lemma_cofactor_8(a: int, b: int, c: int, d: int, e: int, f: int, g: int, h: int, k: int)
    ensures
        g * (b * f - c * e) + h * (c * d - a * f) + k * (a * e - b * d) == a * (e * k - f * h) + b * (f * g - d * k) + c * (d * h - e * g),
{
    broadcast use vstd::arithmetic::mul::group_mul_properties;

}

proof fn lemma_cofactor_9(a: int, b: int, c: int, d: int, e: int, f: int, g: int, h: int, k: int)
    ensures
        (e * k - f * h) * a + (c * h - b * k) * d + (b * f - c * e) * g == a * (e * k - f * h) + b * (f * g - d * k) + c * (d * h - e * g),
{
    broadcast use vstd::arithmetic::mul::group_mul_properties;

}

proof fn lemma_cofactor_10(a: int, b: int, c: int, d: int, e: int, f: int, g: int, h: int, k: int)
    ensures
        (e * k - f * h) * b + (c * h - b * k) * e + (b * f - c * e) * h == 0,
{
    broadcast use vstd::arithmetic::mul::group_mul_properties;

}

proof fn lemma_cofactor_11(a: int, b: int, c: int, d: int, e: int, f: int, g: int, h: int, k: int)
    ensures
        (e * k - f * h) * c + (c * h - b * k) * f + (b * f - c * e) * k == 0,
{
    broadcast use vstd::arithmetic::mul::group_mul_properties;

}

proof fn lemma_cofactor_12(a: int, b: int, c: int, d: int, e: int, f: int, g: int, h: int, k: int)
    ensures
        (f * g - d * k) * a + (a * k - c * g) * d + (c * d - a * f) * g == 0,
{
    broadcast use vstd::arithmetic::mul::group_mul_properties;

}

proof fn lemma_cofactor_13(a: int, b: int, c: int, d: int, e: int, f: int, g: int, h: int, k: int)
    ensures
        (f * g - d * k) * b + (a * k - c * g) * e + (c * d - a * f) * h == a * (e * k - f * h) + b * (f * g - d * k) + c * (d * h - e * g),
{
    broadcast use vstd::arithmetic::mul::group_mul_properties;

}

proof fn lemma_cofactor_14(a: int, b: int, c: int, d: int, e: int, f: int, g: int, h: int, k: int)
    ensures
        (f * g - d * k) * c + (a * k - c * g) * f + (c * d - a * f) * k == 0,
{
    broadcast use vstd::arithmetic::mul::group_mul_properties;

}

proof fn lemma_cofactor_15(a: int, b: int, c: int, d: int, e: int, f: int, g: int, h: int, k: int)
    ensures
        (d * h - e * g) * a + (b * g - a * h) * d + (a * e - b * d) * g == 0,
{
    broadcast use vstd::arithmetic::mul::group_mul_properties;

}

proof fn lemma_cofactor_16(a: int, b: int, c: int, d: int, e: int, f: int, g: int, h: int, k: int)
    ensures
        (d * h - e * g) * b + (b * g - a * h) * e + (a * e - b * d) * h == 0,
{
    broadcast use vstd::arithmetic::mul::group_mul_properties;

}

proof fn lemma_cofactor_17(a: int, b: int, c: int, d: int, e: int, f: int, g: int, h: int, k: int)
    ensures
        (d * h - e * g) * c + (b * g - a * h) * f + (a * e - b * d) * k == a * (e * k - f * h) + b * (f * g - d * k) + c * (d * h - e * g),
{
    broadcast use vstd::arithmetic::mul::group_mul_properties;

}

/// Expansion of the determinant along each row and column, and the vanishing of
/// expansions against a different row or column.
pub proof fn lemma_cofactors(a: int, b: int, c: int, d: int, e: int, f: int, g: int, h: int, k: int)
    ensures
        a * (e * k - f * h) + b * (f * g - d * k) + c * (d * h - e * g) == det9(a, b, c, d, e, f, g, h, k),
        d * (e * k - f * h) + e * (f * g - d * k) + f * (d * h - e * g) == 0,
        g * (e * k - f * h) + h * (f * g - d * k) + k * (d * h - e * g) == 0,
        a * (c * h - b * k) + b * (a * k - c * g) + c * (b * g - a * h) == 0,
        d * (c * h - b * k) + e * (a * k - c * g) + f * (b * g - a * h) == det9(a, b, c, d, e, f, g, h, k),
        g * (c * h - b * k) + h * (a * k - c * g) + k * (b * g - a * h) == 0,
        a * (b * f - c * e) + b * (c * d - a * f) + c * (a * e - b * d) == 0,
        d * (b * f - c * e) + e * (c * d - a * f) + f * (a * e - b * d) == 0,
        g * (b * f - c * e) + h * (c * d - a * f) + k * (a * e - b * d) == det9(a, b, c, d, e, f, g, h, k),
        (e * k - f * h) * a + (c * h - b * k) * d + (b * f - c * e) * g == det9(a, b, c, d, e, f, g, h, k),
        (e * k - f * h) * b + (c * h - b * k) * e + (b * f - c * e) * h == 0,
        (e * k - f * h) * c + (c * h - b * k) * f + (b * f - c * e) * k == 0,
        (f * g - d * k) * a + (a * k - c * g) * d + (c * d - a * f) * g == 0,
        (f * g - d * k) * b + (a * k - c * g) * e + (c * d - a * f) * h == det9(a, b, c, d, e, f, g, h, k),
        (f * g - d * k) * c + (a * k - c * g) * f + (c * d - a * f) * k == 0,
        (d * h - e * g) * a + (b * g - a * h) * d + (a * e - b * d) * g == 0,
        (d * h - e * g) * b + (b * g - a * h) * e + (a * e - b * d) * h == 0,
        (d * h - e * g) * c + (b * g - a * h) * f + (a * e - b * d) * k == det9(a, b, c, d, e, f, g, h, k),
{
    lemma_cofactor_0(a, b, c, d, e, f, g, h, k);
    lemma_cofactor_1(a, b, c, d, e, f, g, h, k);
    lemma_cofactor_2(a, b, c, d, e, f, g, h, k);
    lemma_cofactor_3(a, b, c, d, e, f, g, h, k);
    lemma_cofactor_4(a, b, c, d, e, f, g, h, k);
    lemma_cofactor_5(a, b, c, d, e, f, g, h, k);
    lemma_cofactor_6(a, b, c, d, e, f, g, h, k);
    lemma_cofactor_7(a, b, c, d, e, f, g, h, k);
    lemma_cofactor_8(a, b, c, d, e, f, g, h, k);
    lemma_cofactor_9(a, b, c, d, e, f, g, h, k);
    lemma_cofactor_10(a, b, c, d, e, f, g, h, k);
    lemma_cofactor_11(a, b, c, d, e, f, g, h, k);
    lemma_cofactor_12(a, b, c, d, e, f, g, h, k);
    lemma_cofactor_13(a, b, c, d, e, f, g, h, k);
    lemma_cofactor_14(a, b, c, d, e, f, g, h, k);
    lemma_cofactor_15(a, b, c, d, e, f, g, h, k);
    lemma_cofactor_16(a, b, c, d, e, f, g, h, k);
    lemma_cofactor_17(a, b, c, d, e, f, g, h, k);
}

/// Negating one factor of a sum of three products negates the sum.
pub proof fn lemma_negated_factors(x0: int, x1: int, x2: int, y0: int, y1: int, y2: int)
    ensures
        x0 * (y0 * -1) + x1 * (y1 * -1) + x2 * (y2 * -1) == (x0 * y0 + x1 * y1 + x2 * y2) * -1,
        (x0 * -1) * y0 + (x1 * -1) * y1 + (x2 * -1) * y2 == (x0 * y0 + x1 * y1 + x2 * y2) * -1,
{
    broadcast use vstd::arithmetic::mul::group_mul_properties;

}

/// A product of factors bounded by `p` and `q` is bounded by `p * q`.
pub proof fn lemma_product_bound(x: int, y: int, p: int, q: int)
    requires
        0 <= p,
        0 <= q,
        -p <= x <= p,
        -q <= y <= q,
    ensures
        -(p * q) <= x * y <= p * q,
{
    broadcast use vstd::arithmetic::mul::group_mul_properties;

    if x >= 0 && y >= 0 {
        vstd::arithmetic::mul::lemma_mul_upper_bound(x, p, y, q);
    } else if x >= 0 {
        vstd::arithmetic::mul::lemma_mul_upper_bound(x, p, -y, q);
    } else if y >= 0 {
        vstd::arithmetic::mul::lemma_mul_upper_bound(-x, p, y, q);
    } else {
        vstd::arithmetic::mul::lemma_mul_upper_bound(-x, p, -y, q);
    }
}

proof fn lemma_repeated_row(x: int, y: int, z: int, g: int, h: int, k: int)
    ensures
        det9(x, y, z, x, y, z, g, h, k) == 0,
        det9(x, y, z, g, h, k, x, y, z) == 0,
        det9(g, h, k, x, y, z, x, y, z) == 0,
{
    broadcast use vstd::arithmetic::mul::group_mul_properties;

}

proof fn lemma_row0_linear(
    x: int, y: int, z: int,
    p0: int, p1: int, p2: int, q0: int, q1: int, q2: int, r0: int, r1: int, r2: int,
    d: int, e: int, f: int, g: int, h: int, k: int,
)
    ensures
        det9(x * p0 + y * q0 + z * r0, x * p1 + y * q1 + z * r1, x * p2 + y * q2 + z * r2, d, e, f, g, h, k)
            == x * det9(p0, p1, p2, d, e, f, g, h, k) + y * det9(q0, q1, q2, d, e, f, g, h, k)
            + z * det9(r0, r1, r2, d, e, f, g, h, k),
{
    broadcast use vstd::arithmetic::mul::group_mul_properties;

}

proof fn lemma_swap_last(a: int, b: int, c: int, d: int, e: int, f: int, g: int, h: int, k: int)
    ensures
        det9(a, b, c, g, h, k, d, e, f) == -det9(a, b, c, d, e, f, g, h, k),
{
    broadcast use vstd::arithmetic::mul::group_mul_properties;

}

proof fn lemma_swap_first(a: int, b: int, c: int, d: int, e: int, f: int, g: int, h: int, k: int)
    ensures
        det9(d, e, f, a, b, c, g, h, k) == -det9(a, b, c, d, e, f, g, h, k),
{
    broadcast use vstd::arithmetic::mul::group_mul_properties;

}

proof fn lemma_row_orders(a: int, b: int, c: int, d: int, e: int, f: int, g: int, h: int, k: int)
    ensures
        det9(a, b, c, g, h, k, d, e, f) == -det9(a, b, c, d, e, f, g, h, k),
        det9(d, e, f, a, b, c, g, h, k) == -det9(a, b, c, d, e, f, g, h, k),
        det9(d, e, f, g, h, k, a, b, c) == det9(a, b, c, d, e, f, g, h, k),
        det9(g, h, k, a, b, c, d, e, f) == det9(a, b, c, d, e, f, g, h, k),
        det9(g, h, k, d, e, f, a, b, c) == -det9(a, b, c, d, e, f, g, h, k),
{
    lemma_swap_last(a, b, c, d, e, f, g, h, k);
    lemma_swap_first(a, b, c, d, e, f, g, h, k);
    lemma_swap_last(d, e, f, a, b, c, g, h, k);
    lemma_swap_first(a, b, c, g, h, k, d, e, f);
    lemma_swap_first(d, e, f, g, h, k, a, b, c);
}

proof fn lemma_negated_product(x: int, y: int)
    ensures
        x * -y == -(x * y),
{
    vstd::arithmetic::mul::lemma_mul_unary_negation(x, y);
}

proof fn lemma_row1_linear(
    x: int, y: int, z: int,
    p0: int, p1: int, p2: int, q0: int, q1: int, q2: int, r0: int, r1: int, r2: int,
    d: int, e: int, f: int, g: int, h: int, k: int,
)
    ensures
        det9(d, e, f, x * p0 + y * q0 + z * r0, x * p1 + y * q1 + z * r1, x * p2 + y * q2 + z * r2, g, h, k)
            == x * det9(d, e, f, p0, p1, p2, g, h, k) + y * det9(d, e, f, q0, q1, q2, g, h, k)
            + z * det9(d, e, f, r0, r1, r2, g, h, k),
{
    let (x0, x1, x2) = (x * p0 + y * q0 + z * r0, x * p1 + y * q1 + z * r1, x * p2 + y * q2 + z * r2);
    lemma_row_orders(x0, x1, x2, d, e, f, g, h, k);
    lemma_row_orders(p0, p1, p2, d, e, f, g, h, k);
    lemma_row_orders(q0, q1, q2, d, e, f, g, h, k);
    lemma_row_orders(r0, r1, r2, d, e, f, g, h, k);
    lemma_row0_linear(x, y, z, p0, p1, p2, q0, q1, q2, r0, r1, r2, d, e, f, g, h, k);
    lemma_negated_product(x, det9(p0, p1, p2, d, e, f, g, h, k));
    lemma_negated_product(y, det9(q0, q1, q2, d, e, f, g, h, k));
    lemma_negated_product(z, det9(r0, r1, r2, d, e, f, g, h, k));
}

proof fn lemma_row2_linear(
    x: int, y: int, z: int,
    p0: int, p1: int, p2: int, q0: int, q1: int, q2: int, r0: int, r1: int, r2: int,
    d: int, e: int, f: int, g: int, h: int, k: int,
)
    ensures
        det9(d, e, f, g, h, k, x * p0 + y * q0 + z * r0, x * p1 + y * q1 + z * r1, x * p2 + y * q2 + z * r2)
            == x * det9(d, e, f, g, h, k, p0, p1, p2) + y * det9(d, e, f, g, h, k, q0, q1, q2)
            + z * det9(d, e, f, g, h, k, r0, r1, r2),
{
    let (x0, x1, x2) = (x * p0 + y * q0 + z * r0, x * p1 + y * q1 + z * r1, x * p2 + y * q2 + z * r2);
    lemma_row_orders(x0, x1, x2, d, e, f, g, h, k);
    lemma_row_orders(p0, p1, p2, d, e, f, g, h, k);
    lemma_row_orders(q0, q1, q2, d, e, f, g, h, k);
    lemma_row_orders(r0, r1, r2, d, e, f, g, h, k);
    lemma_row0_linear(x, y, z, p0, p1, p2, q0, q1, q2, r0, r1, r2, d, e, f, g, h, k);
}

proof fn lemma_difference_of_terms(e: int, k: int, f: int, h: int, z: int)
    ensures
        e * (k * z) - f * (h * z) == (e * k - f * h) * z,
{
    broadcast use vstd::arithmetic::mul::group_mul_properties;

}

proof fn lemma_two_terms(e: int, k: int, f: int, h: int, z: int)
    ensures
        e * (k * z) + f * (h * -z) == (e * k - f * h) * z,
{
    vstd::arithmetic::mul::lemma_mul_unary_negation(h, z);
    vstd::arithmetic::mul::lemma_mul_unary_negation(f, h * z);
    lemma_difference_of_terms(e, k, f, h, z);
}

proof fn lemma_three_terms(a: int, u: int, b: int, v: int, c: int, w: int, z: int)
    ensures
        a * (u * z) + b * (v * z) + c * (w * z) == (a * u + b * v + c * w) * z,
{
    broadcast use vstd::arithmetic::mul::group_mul_properties;

}

proof fn lemma_det_assembly(a: int, b: int, c: int, d: int, e: int, f: int, g: int, h: int, k: int, z: int)
    ensures
        a * (e * (k * z) + f * (h * -z)) + b * (d * (k * -z) + f * (g * z)) + c * (d * (h * z) + e * (g
            * -z)) == det9(a, b, c, d, e, f, g, h, k) * z,
{
    lemma_two_terms(e, k, f, h, z);
    lemma_two_terms(f, g, d, k, z);
    lemma_two_terms(d, h, e, g, z);
    lemma_three_terms(a, e * k - f * h, b, f * g - d * k, c, d * h - e * g, z);
}

pub proof fn lemma_det_product(
    a: int, b: int, c: int, d: int, e: int, f: int, g: int, h: int, k: int,
    p0: int, p1: int, p2: int, q0: int, q1: int, q2: int, r0: int, r1: int, r2: int,
)
    ensures
        det9(
            a * p0 + b * q0 + c * r0, a * p1 + b * q1 + c * r1, a * p2 + b * q2 + c * r2,
            d * p0 + e * q0 + f * r0, d * p1 + e * q1 + f * r1, d * p2 + e * q2 + f * r2,
            g * p0 + h * q0 + k * r0, g * p1 + h * q1 + k * r1, g * p2 + h * q2 + k * r2,
        ) == det9(a, b, c, d, e, f, g, h, k) * det9(p0, p1, p2, q0, q1, q2, r0, r1, r2),
{
    let (x0, x1, x2) = (d * p0 + e * q0 + f * r0, d * p1 + e * q1 + f * r1, d * p2 + e * q2 + f * r2);
    let (y0, y1, y2) = (g * p0 + h * q0 + k * r0, g * p1 + h * q1 + k * r1, g * p2 + h * q2 + k * r2);
    let z = det9(p0, p1, p2, q0, q1, q2, r0, r1, r2);
    lemma_row_orders(p0, p1, p2, q0, q1, q2, r0, r1, r2);
    lemma_row0_linear(a, b, c, p0, p1, p2, q0, q1, q2, r0, r1, r2, x0, x1, x2, y0, y1, y2);
    // first row P
    lemma_row1_linear(d, e, f, p0, p1, p2, q0, q1, q2, r0, r1, r2, p0, p1, p2, y0, y1, y2);
    lemma_repeated_row(p0, p1, p2, y0, y1, y2);
    lemma_row2_linear(g, h, k, p0, p1, p2, q0, q1, q2, r0, r1, r2, p0, p1, p2, q0, q1, q2);
    lemma_repeated_row(p0, p1, p2, q0, q1, q2);
    lemma_repeated_row(q0, q1, q2, p0, p1, p2);
    lemma_row2_linear(g, h, k, p0, p1, p2, q0, q1, q2, r0, r1, r2, p0, p1, p2, r0, r1, r2);
    lemma_repeated_row(p0, p1, p2, r0, r1, r2);
    lemma_repeated_row(r0, r1, r2, p0, p1, p2);
    assert(det9(p0, p1, p2, x0, x1, x2, y0, y1, y2) == e * (k * z) + f * (h * -z));
    // first row Q
    lemma_row1_linear(d, e, f, p0, p1, p2, q0, q1, q2, r0, r1, r2, q0, q1, q2, y0, y1, y2);
    lemma_repeated_row(q0, q1, q2, y0, y1, y2);
    lemma_row2_linear(g, h, k, p0, p1, p2, q0, q1, q2, r0, r1, r2, q0, q1, q2, p0, p1, p2);
    lemma_row2_linear(g, h, k, p0, p1, p2, q0, q1, q2, r0, r1, r2, q0, q1, q2, r0, r1, r2);
    lemma_repeated_row(q0, q1, q2, r0, r1, r2);
    lemma_repeated_row(r0, r1, r2, q0, q1, q2);
    assert(det9(q0, q1, q2, x0, x1, x2, y0, y1, y2) == d * (k * -z) + f * (g * z));
    // first row R
    lemma_row1_linear(d, e, f, p0, p1, p2, q0, q1, q2, r0, r1, r2, r0, r1, r2, y0, y1, y2);
    lemma_repeated_row(r0, r1, r2, y0, y1, y2);
    lemma_row2_linear(g, h, k, p0, p1, p2, q0, q1, q2, r0, r1, r2, r0, r1, r2, p0, p1, p2);
    lemma_row2_linear(g, h, k, p0, p1, p2, q0, q1, q2, r0, r1, r2, r0, r1, r2, q0, q1, q2);
    assert(det9(r0, r1, r2, x0, x1, x2, y0, y1, y2) == d * (h * z) + e * (g * -z));
    lemma_det_assembly(a, b, c, d, e, f, g, h, k, z);
}

/// The determinant is unchanged by transposition.
pub proof fn lemma_transposed(a: int, b: int, c: int, d: int, e: int, f: int, g: int, h: int, k: int)
    ensures
        det9(a, d, g, b, e, h, c, f, k) == det9(a, b, c, d, e, f, g, h, k),
{
    broadcast use vstd::arithmetic::mul::group_mul_properties;

}

pub proof fn lemma_swapped_factors(x0: int, x1: int, x2: int, y0: int, y1: int, y2: int)
    ensures
        x0 * y0 + x1 * y1 + x2 * y2 == y0 * x0 + y1 * x1 + y2 * x2,
{
    broadcast use vstd::arithmetic::mul::group_mul_properties;

}

pub proof fn lemma_linear_row(x0: int, x1: int, x2: int, u0: int, u1: int, u2: int, v0: int, v1: int, v2: int)
    ensures
        x0 * (u0 + v0) + x1 * (u1 + v1) + x2 * (u2 + v2) == (x0 * u0 + x1 * u1 + x2 * u2) + (x0 * v0
            + x1 * v1 + x2 * v2),
{
    broadcast use vstd::arithmetic::mul::group_mul_properties;

}

pub proof fn lemma_negated_row(x0: int, x1: int, x2: int, u0: int, u1: int, u2: int)
    ensures
        x0 * -u0 + x1 * -u1 + x2 * -u2 == -(x0 * u0 + x1 * u1 + x2 * u2),
{
    vstd::arithmetic::mul::lemma_mul_unary_negation(x0, u0);
    vstd::arithmetic::mul::lemma_mul_unary_negation(x1, u1);
    vstd::arithmetic::mul::lemma_mul_unary_negation(x2, u2);
}

/// A square is not negative.
pub proof fn lemma_square_nonnegative(x: int)
    ensures
        0 <= x * x,
{
    if x >= 0 {
        vstd::arithmetic::mul::lemma_mul_nonnegative(x, x);
    } else {
        vstd::arithmetic::mul::lemma_mul_cancels_negatives(x, x);
        vstd::arithmetic::mul::lemma_mul_nonnegative(-x, -x);
    }
}

/// An integer whose square is at most one lies in `[-1, 1]`.
pub proof fn lemma_unit_square(x: int, rest: int)
    requires
        0 <= rest,
        x * x + rest == 1,
    ensures
        -1 <= x <= 1,
{
    if x >= 2 {
        vstd::arithmetic::mul::lemma_mul_inequality(2, x, x);
    } else if x <= -2 {
        vstd::arithmetic::mul::lemma_mul_inequality(2, -x, -x);
        vstd::arithmetic::mul::lemma_mul_cancels_negatives(x, x);
    }
}

/// Moving a matrix from one side of an inner product of length three to the
/// other transposes it.
pub proof fn lemma_adjoint_row(
    a00: int, a01: int, a02: int,
    a10: int, a11: int, a12: int,
    a20: int, a21: int, a22: int,
    w0: int, w1: int, w2: int,
    v0: int, v1: int, v2: int,
)
    ensures
        (a00 * w0 + a10 * w1 + a20 * w2) * v0 + (a01 * w0 + a11 * w1 + a21 * w2) * v1 + (a02 * w0
            + a12 * w1 + a22 * w2) * v2 == w0 * (a00 * v0 + a01 * v1 + a02 * v2) + w1 * (a10 * v0
            + a11 * v1 + a12 * v2) + w2 * (a20 * v0 + a21 * v1 + a22 * v2),
{
    broadcast use vstd::arithmetic::mul::group_mul_properties;

}

} // verus!
