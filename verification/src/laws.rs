//! Laws of the model that relate several operations, stated and proved
//! once for all inputs.

use vstd::prelude::*;
use crate::fixed::{SCALE, fmul, fdiv, isqrt_r, lemma_isqrt_bounds};
use crate::vec3::{Vec3, v_sub, v_neg, v_cross, v_div_by, v_dot, v_len, v_unit};
use crate::ray::{Ray, ray_at};
use crate::material::reflect_spec;
use vstd::arithmetic::div_mod::{
    lemma_fundamental_div_mod,
    lemma_fundamental_div_mod_converse,
    lemma_mod_bound,
    lemma_div_pos_is_pos,
};
use crate::hittable::{
    Sphere,
    HitRecord,
    sphere_c,
    sphere_record,
    sphere_disc,
    sphere_near_root,
    sphere_far_root,
    sphere_hit_spec,
};

verus! {

/// A vector of the exact (unrounded) integer model, used to state
/// rounding-free identities of the vector formulas.
pub struct IVec {
    pub x: int,
    pub y: int,
    pub z: int,
}

/// The exact dot product of the integer model.
pub open spec fn idot(a: IVec, b: IVec) -> int {
    a.x * b.x + a.y * b.y + a.z * b.z
}

/// The integer-model mirror image of `v` about `n`, cleared of
/// denominators: `dot(n, n) * v - 2 * dot(v, n) * n`, which is
/// `dot(n, n)` times the geometric reflection.
pub open spec fn ireflect(v: IVec, n: IVec) -> IVec {
    IVec {
        x: idot(n, n) * v.x - 2 * idot(v, n) * n.x,
        y: idot(n, n) * v.y - 2 * idot(v, n) * n.y,
        z: idot(n, n) * v.z - 2 * idot(v, n) * n.z,
    }
}

/// Law: reflection reverses the component along the normal. In the exact
/// integer model, `dot(reflect(v, n), n) == -dot(v, n)` up to the factor
/// `dot(n, n)` that clears the denominators — so exactly `-dot(v, n)`
/// for a unit normal. (The executable `reflect` computes the same
/// formula with fixed-point rounding, so its normal component matches
/// `-dot(v, n)` up to that rounding.)
pub proof fn lemma_reflect_dot(v: IVec, n: IVec)
    ensures
        idot(ireflect(v, n), n) == -(idot(n, n) * idot(v, n)),
{
    let d = idot(v, n);
    let k = idot(n, n);
    let rx = k * v.x - 2 * d * n.x;
    let ry = k * v.y - 2 * d * n.y;
    let rz = k * v.z - 2 * d * n.z;
    assert(rx * n.x == k * (v.x * n.x) - 2 * d * (n.x * n.x)) by (nonlinear_arith)
        requires
            rx == k * v.x - 2 * d * n.x,
    ;
    assert(ry * n.y == k * (v.y * n.y) - 2 * d * (n.y * n.y)) by (nonlinear_arith)
        requires
            ry == k * v.y - 2 * d * n.y,
    ;
    assert(rz * n.z == k * (v.z * n.z) - 2 * d * (n.z * n.z)) by (nonlinear_arith)
        requires
            rz == k * v.z - 2 * d * n.z,
    ;
    vstd::arithmetic::mul::lemma_mul_is_distributive_add(k, v.x * n.x, v.y * n.y);
    vstd::arithmetic::mul::lemma_mul_is_distributive_add(k, v.x * n.x + v.y * n.y, v.z * n.z);
    vstd::arithmetic::mul::lemma_mul_is_distributive_add(2 * d, n.x * n.x, n.y * n.y);
    vstd::arithmetic::mul::lemma_mul_is_distributive_add(
        2 * d,
        n.x * n.x + n.y * n.y,
        n.z * n.z,
    );
    assert(k * d - (2 * d) * k == -(k * d)) by (nonlinear_arith);
}

/// The exact cross product of the integer model.
pub open spec fn icross(a: IVec, b: IVec) -> IVec {
    IVec {
        x: a.y * b.z - a.z * b.y,
        y: a.z * b.x - a.x * b.z,
        z: a.x * b.y - a.y * b.x,
    }
}

/// Law: the cross product is orthogonal to both of its operands, exactly
/// in the integer model. (The executable `cross` computes the same
/// formula with fixed-point rounding, so its dot products with the
/// operands vanish up to that rounding.)
pub proof fn lemma_cross_orthogonal(a: IVec, b: IVec)
    ensures
        idot(icross(a, b), a) == 0,
        idot(icross(a, b), b) == 0,
{
    assert((a.y * b.z - a.z * b.y) * a.x + (a.z * b.x - a.x * b.z) * a.y + (a.x * b.y - a.y
        * b.x) * a.z == 0) by (nonlinear_arith);
    assert((a.y * b.z - a.z * b.y) * b.x + (a.z * b.x - a.x * b.z) * b.y + (a.x * b.y - a.y
        * b.x) * b.z == 0) by (nonlinear_arith);
}

/// Components no larger than a thousand or so in scene units: far from
/// any clamped fixed-point value in the products below.
pub open spec fn moderate(v: Vec3) -> bool {
    &&& -1073741824 <= v.x <= 1073741824
    &&& -1073741824 <= v.y <= 1073741824
    &&& -1073741824 <= v.z <= 1073741824
}

/// Law: swapping the operands negates the cross product, exactly, for
/// vectors of moderate components (no product clamps).
pub proof fn lemma_cross_anticommutative(a: Vec3, b: Vec3)
    requires
        moderate(a),
        moderate(b),
    ensures
        v_cross(b, a) == v_neg(v_cross(a, b)),
{
    lemma_fmul_exact_bounded(a.y as int, b.z as int, 1073741824, 1073741824);
    lemma_fmul_exact_bounded(a.z as int, b.y as int, 1073741824, 1073741824);
    lemma_fmul_exact_bounded(a.z as int, b.x as int, 1073741824, 1073741824);
    lemma_fmul_exact_bounded(a.x as int, b.z as int, 1073741824, 1073741824);
    lemma_fmul_exact_bounded(a.x as int, b.y as int, 1073741824, 1073741824);
    lemma_fmul_exact_bounded(a.y as int, b.x as int, 1073741824, 1073741824);
    lemma_fmul_exact_bounded(b.y as int, a.z as int, 1073741824, 1073741824);
    lemma_fmul_exact_bounded(b.z as int, a.y as int, 1073741824, 1073741824);
    lemma_fmul_exact_bounded(b.x as int, a.z as int, 1073741824, 1073741824);
    lemma_fmul_exact_bounded(b.z as int, a.x as int, 1073741824, 1073741824);
    lemma_fmul_exact_bounded(b.x as int, a.y as int, 1073741824, 1073741824);
    lemma_fmul_exact_bounded(b.y as int, a.x as int, 1073741824, 1073741824);
    assert(a.y as int * b.z as int == b.z as int * a.y as int) by (nonlinear_arith);
    assert(a.z as int * b.y as int == b.y as int * a.z as int) by (nonlinear_arith);
    assert(a.z as int * b.x as int == b.x as int * a.z as int) by (nonlinear_arith);
    assert(a.x as int * b.z as int == b.z as int * a.x as int) by (nonlinear_arith);
    assert(a.x as int * b.y as int == b.y as int * a.x as int) by (nonlinear_arith);
    assert(a.y as int * b.x as int == b.x as int * a.y as int) by (nonlinear_arith);
}

/// For a component smaller than two in magnitude, the fixed-point square
/// neither clamps nor leaves the floor-division characterization.
proof fn lemma_fmul_sq_exact(x: int)
    requires
        -2097152 < x < 2097152,
    ensures
        fmul(x, x) == (x * x) / (SCALE as int),
        (SCALE as int) * fmul(x, x) <= x * x,
        x * x < (SCALE as int) * fmul(x, x) + (SCALE as int),
        0 <= fmul(x, x) <= 4194304,
{
    let sc = SCALE as int;
    assert(0 <= x * x < 4398046511104) by (nonlinear_arith)
        requires
            -2097152 < x < 2097152,
    ;
    lemma_div_pos_is_pos(x * x, sc);
    lemma_fundamental_div_mod(x * x, sc);
    lemma_mod_bound(x * x, sc);
}

/// The fixed-point quotient of a bounded component by a near-unit length
/// is exact and itself bounded a little above one.
proof fn lemma_fdiv_component(vi: int, len: int)
    requires
        786432 <= len <= 1572864,
        -(len + 3) < vi < len + 3,
    ensures
        fdiv(vi, len) == (vi * (SCALE as int)) / len,
        -1048582 < fdiv(vi, len) < 1048582,
        len * fdiv(vi, len) <= vi * (SCALE as int),
        vi * (SCALE as int) < len * fdiv(vi, len) + len,
{
    let sc = SCALE as int;
    let p = vi * sc;
    lemma_fundamental_div_mod(p, len);
    lemma_mod_bound(p, len);
    let q = p / len;
    let r = p % len;
    assert(-1048582 < q < 1048582) by (nonlinear_arith)
        requires
            786432 <= len <= 1572864,
            -(len + 3) < vi < len + 3,
            p == vi * 1048576,
            p == len * q + r,
            0 <= r < len,
    ;
}

/// For a product of bounded factors, the fixed-point multiplication does
/// not clamp and keeps the floor-division characterization.
proof fn lemma_fmul_exact_bounded(a: int, b: int, ba: int, bb: int)
    requires
        0 < ba,
        0 < bb,
        -ba <= a <= ba,
        -bb <= b <= bb,
        ba * bb <= 0x2000000000000000,
    ensures
        fmul(a, b) == (a * b) / (SCALE as int),
        (SCALE as int) * fmul(a, b) <= a * b,
        a * b < (SCALE as int) * fmul(a, b) + (SCALE as int),
        -(ba * bb) - (SCALE as int) <= (SCALE as int) * fmul(a, b) <= ba * bb,
{
    let sc = SCALE as int;
    assert(-(ba * bb) <= a * b <= ba * bb) by (nonlinear_arith)
        requires
            0 < ba,
            0 < bb,
            -ba <= a <= ba,
            -bb <= b <= bb,
    ;
    lemma_fundamental_div_mod(a * b, sc);
    lemma_mod_bound(a * b, sc);
}

/// A vector whose measured length lies between three quarters and three
/// halves has components within three raw units of that length, and its
/// exact squared norm is the scaled measured dot product up to three raw
/// units of rounding.
proof fn lemma_measured_components(v: Vec3)
    requires
        786432 <= v_len(v) <= 1572864,
    ensures
        v_dot(v, v) > 0,
        v_len(v) * v_len(v) <= v_dot(v, v) * (SCALE as int),
        v_dot(v, v) * (SCALE as int) < (v_len(v) + 1) * (v_len(v) + 1),
        (SCALE as int) * v_dot(v, v) <= (v.x as int) * (v.x as int) + (v.y as int) * (v.y as int)
            + (v.z as int) * (v.z as int),
        (v.x as int) * (v.x as int) + (v.y as int) * (v.y as int) + (v.z as int) * (v.z as int) < (
        SCALE as int) * v_dot(v, v) + 3 * (SCALE as int),
        -(v_len(v) + 3) < (v.x as int) && (v.x as int) < v_len(v) + 3,
        -(v_len(v) + 3) < (v.y as int) && (v.y as int) < v_len(v) + 3,
        -(v_len(v) + 3) < (v.z as int) && (v.z as int) < v_len(v) + 3,
{
    let sc = SCALE as int;
    let v1 = v.x as int;
    let v2 = v.y as int;
    let v3 = v.z as int;
    let m1 = fmul(v1, v1);
    let m2 = fmul(v2, v2);
    let m3 = fmul(v3, v3);
    let d = v_dot(v, v);
    let len = v_len(v);
    assert(v1 * v1 >= 0 && v2 * v2 >= 0 && v3 * v3 >= 0) by (nonlinear_arith);
    lemma_div_pos_is_pos(v1 * v1, sc);
    lemma_div_pos_is_pos(v2 * v2, sc);
    lemma_div_pos_is_pos(v3 * v3, sc);
    assert(0 <= m1 <= i64::MAX && 0 <= m2 <= i64::MAX && 0 <= m3 <= i64::MAX);
    assert(d >= m1 && d >= m2 && d >= m3 && d >= 0);
    assert(d > 0);
    assert(len == isqrt_r(d * sc));
    lemma_isqrt_bounds(d * sc);
    assert((len + 1) * (len + 1) <= 1572865 * 1572865) by (nonlinear_arith)
        requires
            0 <= len <= 1572864,
    ;
    assert(d <= 2359301);
    lemma_fundamental_div_mod(v1 * v1, sc);
    lemma_mod_bound(v1 * v1, sc);
    lemma_fundamental_div_mod(v2 * v2, sc);
    lemma_mod_bound(v2 * v2, sc);
    lemma_fundamental_div_mod(v3 * v3, sc);
    lemma_mod_bound(v3 * v3, sc);
    assert(v1 * v1 < 4398046511104 && v2 * v2 < 4398046511104 && v3 * v3 < 4398046511104);
    assert(-2097152 < v1 < 2097152) by (nonlinear_arith)
        requires
            v1 * v1 < 4398046511104,
    ;
    assert(-2097152 < v2 < 2097152) by (nonlinear_arith)
        requires
            v2 * v2 < 4398046511104,
    ;
    assert(-2097152 < v3 < 2097152) by (nonlinear_arith)
        requires
            v3 * v3 < 4398046511104,
    ;
    lemma_fmul_sq_exact(v1);
    lemma_fmul_sq_exact(v2);
    lemma_fmul_sq_exact(v3);
    assert(d == m1 + m2 + m3);
    assert((len + 3) * (len + 3) >= (len + 1) * (len + 1) + 3 * sc + 8) by (nonlinear_arith)
        requires
            len >= 786432,
            sc == 1048576,
    ;
    assert(v1 * v1 < (len + 3) * (len + 3));
    assert(v2 * v2 < (len + 3) * (len + 3));
    assert(v3 * v3 < (len + 3) * (len + 3));
    assert(-(len + 3) < v1 < len + 3) by (nonlinear_arith)
        requires
            v1 * v1 < (len + 3) * (len + 3),
            len >= 0,
    ;
    assert(-(len + 3) < v2 < len + 3) by (nonlinear_arith)
        requires
            v2 * v2 < (len + 3) * (len + 3),
            len >= 0,
    ;
    assert(-(len + 3) < v3 < len + 3) by (nonlinear_arith)
        requires
            v3 * v3 < (len + 3) * (len + 3),
            len >= 0,
    ;
}

/// Law: reflection reverses the component along the normal, measured on
/// the fixed-point operations themselves: for vectors `v` and `n` whose
/// measured lengths are one within two raw units, the measured dot
/// products satisfy `dot(reflect(v, n), n) == -dot(v, n)` within
/// sixty-four raw units (about six hundred-thousandths).
pub proof fn lemma_reflect_dot_measured(v: Vec3, n: Vec3)
    requires
        1048574 <= v_len(v) <= 1048578,
        1048574 <= v_len(n) <= 1048578,
    ensures
        -64 <= v_dot(reflect_spec(v, n), n) + v_dot(v, n) <= 64,
{
    let sc = SCALE as int;
    let v1 = v.x as int;
    let v2 = v.y as int;
    let v3 = v.z as int;
    let n1 = n.x as int;
    let n2 = n.y as int;
    let n3 = n.z as int;
    lemma_measured_components(v);
    lemma_measured_components(n);
    let dv = v_dot(v, v);
    let dn = v_dot(n, n);

    // the measured squared lengths are one up to a few raw units, and
    // the exact squared norms follow them
    assert(1048574 * 1048574 <= v_len(v) * v_len(v)) by (nonlinear_arith)
        requires
            1048574 <= v_len(v),
    ;
    assert((v_len(v) + 1) * (v_len(v) + 1) <= 1048579 * 1048579) by (nonlinear_arith)
        requires
            0 <= v_len(v) <= 1048578,
    ;
    assert(1048574 * 1048574 <= v_len(n) * v_len(n)) by (nonlinear_arith)
        requires
            1048574 <= v_len(n),
    ;
    assert((v_len(n) + 1) * (v_len(n) + 1) <= 1048579 * 1048579) by (nonlinear_arith)
        requires
            0 <= v_len(n) <= 1048578,
    ;
    assert(1048573 <= dv <= 1048582);
    assert(1048573 <= dn <= 1048582);
    let nv = v1 * v1 + v2 * v2 + v3 * v3;
    let nn = n1 * n1 + n2 * n2 + n3 * n3;
    assert(1099508482048 <= nv && nv < 1099521064960);
    assert(1099508482048 <= nn && nn < 1099521064960);
    assert(-1048582 < v1 < 1048582 && -1048582 < v2 < 1048582 && -1048582 < v3 < 1048582);
    assert(-1048582 < n1 < 1048582 && -1048582 < n2 < 1048582 && -1048582 < n3 < 1048582);

    // each product of components, and so the exact dot product, is
    // bounded by the component bounds
    let p = v1 * n1 + v2 * n2 + v3 * n3;
    assert(-1099524210724 < v1 * n1 < 1099524210724) by (nonlinear_arith)
        requires
            -1048582 < v1 < 1048582,
            -1048582 < n1 < 1048582,
    ;
    assert(-1099524210724 < v2 * n2 < 1099524210724) by (nonlinear_arith)
        requires
            -1048582 < v2 < 1048582,
            -1048582 < n2 < 1048582,
    ;
    assert(-1099524210724 < v3 * n3 < 1099524210724) by (nonlinear_arith)
        requires
            -1048582 < v3 < 1048582,
            -1048582 < n3 < 1048582,
    ;
    assert(-3298572632172 < p < 3298572632172);

    // the measured dot product of v and n is exact and near the true one
    lemma_fmul_exact_bounded(v1, n1, 1048582, 1048582);
    lemma_fmul_exact_bounded(v2, n2, 1048582, 1048582);
    lemma_fmul_exact_bounded(v3, n3, 1048582, 1048582);
    let d = v_dot(v, n);
    assert(d == fmul(v1, n1) + fmul(v2, n2) + fmul(v3, n3));
    assert(sc * d <= p && p < sc * d + 3 * sc);
    assert(-3145767 <= d <= 3145764);

    // the doubled dot product is exact: the scale cancels
    lemma_fundamental_div_mod_converse(2097152 * d, sc, 2 * d, 0);
    let s = fmul(2097152, d);
    assert(s == 2 * d);

    // the scaled normal and the reflection components are exact
    assert(-6291534 <= s <= 6291534);
    lemma_fmul_exact_bounded(n1, s, 1048582, 6291534);
    lemma_fmul_exact_bounded(n2, s, 1048582, 6291534);
    lemma_fmul_exact_bounded(n3, s, 1048582, 6291534);
    let w1 = fmul(n1, s);
    let w2 = fmul(n2, s);
    let w3 = fmul(n3, s);
    assert(-6292700 < w1 < 6292700 && -6292700 < w2 < 6292700 && -6292700 < w3 < 6292700);
    let q1 = n1 * s - sc * w1;
    let q2 = n2 * s - sc * w2;
    let q3 = n3 * s - sc * w3;
    assert(0 <= q1 < sc && 0 <= q2 < sc && 0 <= q3 < sc);
    let refl = reflect_spec(v, n);
    let r1 = refl.x as int;
    let r2 = refl.y as int;
    let r3 = refl.z as int;
    assert(r1 == v1 - w1 && r2 == v2 - w2 && r3 == v3 - w3);
    assert(-7341282 < r1 < 7341282 && -7341282 < r2 < 7341282 && -7341282 < r3 < 7341282);

    // the measured dot product of the reflection with the normal
    lemma_fmul_exact_bounded(r1, n1, 7341282, 1048582);
    lemma_fmul_exact_bounded(r2, n2, 7341282, 1048582);
    lemma_fmul_exact_bounded(r3, n3, 7341282, 1048582);
    let e = v_dot(refl, n);
    assert(e == fmul(r1, n1) + fmul(r2, n2) + fmul(r3, n3));
    let pr = r1 * n1 + r2 * n2 + r3 * n3;
    assert(sc * e <= pr && pr < sc * e + 3 * sc);

    // split the reflected dot product into the incoming one, the normal
    // norm, and the rounding remainders
    assert(sc * (r1 * n1) == sc * (v1 * n1) - 2 * d * (n1 * n1) + q1 * n1) by (nonlinear_arith)
        requires
            r1 == v1 - w1,
            sc * w1 == n1 * s - q1,
            s == 2 * d,
    ;
    assert(sc * (r2 * n2) == sc * (v2 * n2) - 2 * d * (n2 * n2) + q2 * n2) by (nonlinear_arith)
        requires
            r2 == v2 - w2,
            sc * w2 == n2 * s - q2,
            s == 2 * d,
    ;
    assert(sc * (r3 * n3) == sc * (v3 * n3) - 2 * d * (n3 * n3) + q3 * n3) by (nonlinear_arith)
        requires
            r3 == v3 - w3,
            sc * w3 == n3 * s - q3,
            s == 2 * d,
    ;
    let qn = q1 * n1 + q2 * n2 + q3 * n3;
    vstd::arithmetic::mul::lemma_mul_is_distributive_add(sc, r1 * n1, r2 * n2);
    vstd::arithmetic::mul::lemma_mul_is_distributive_add(sc, r1 * n1 + r2 * n2, r3 * n3);
    vstd::arithmetic::mul::lemma_mul_is_distributive_add(sc, v1 * n1, v2 * n2);
    vstd::arithmetic::mul::lemma_mul_is_distributive_add(sc, v1 * n1 + v2 * n2, v3 * n3);
    vstd::arithmetic::mul::lemma_mul_is_distributive_add(2 * d, n1 * n1, n2 * n2);
    vstd::arithmetic::mul::lemma_mul_is_distributive_add(2 * d, n1 * n1 + n2 * n2, n3 * n3);
    assert(sc * pr == sc * p - 2 * d * nn + qn);

    // bound the error terms
    assert(-1099517919232 < q1 * n1 < 1099517919232) by (nonlinear_arith)
        requires
            0 <= q1 < 1048576,
            -1048582 < n1 < 1048582,
    ;
    assert(-1099517919232 < q2 * n2 < 1099517919232) by (nonlinear_arith)
        requires
            0 <= q2 < 1048576,
            -1048582 < n2 < 1048582,
    ;
    assert(-1099517919232 < q3 * n3 < 1099517919232) by (nonlinear_arith)
        requires
            0 <= q3 < 1048576,
            -1048582 < n3 < 1048582,
    ;
    assert(-3298553757696 < qn < 3298553757696);
    let kappa = nn - 1099511627776;
    assert(-3145728 <= kappa && kappa < 9437184);
    assert(-59380000000000 <= 2 * d * kappa && 2 * d * kappa <= 59380000000000)
        by (nonlinear_arith)
        requires
            -3145767 <= d <= 3145767,
            -3145728 <= kappa < 9437184,
    ;

    // assemble: the scaled sum of the two measured dot products is small
    let rho = p - sc * d;
    assert(0 <= rho && rho < 3 * sc);
    assert(2 * d * nn == 2 * d * 1099511627776 + 2 * d * kappa) by (nonlinear_arith)
        requires
            nn == 1099511627776 + kappa,
    ;
    assert(sc * p == 1099511627776 * d + sc * rho) by (nonlinear_arith)
        requires
            p == sc * d + rho,
            sc == 1048576,
    ;
    assert(sc * pr == -(1099511627776 * d) + sc * rho - 2 * d * kappa + qn);
    assert(sc * (sc * e) <= sc * pr && sc * pr < sc * (sc * e) + 3 * (sc * sc))
        by (nonlinear_arith)
        requires
            sc * e <= pr,
            pr < sc * e + 3 * sc,
            sc == 1048576,
    ;
    assert(sc * (sc * e) == 1099511627776 * e) by (nonlinear_arith)
        requires
            sc == 1048576,
    ;
    assert(1099511627776 * (e + d) <= sc * rho - 2 * d * kappa + qn) by (nonlinear_arith)
        requires
            1099511627776 * e <= sc * pr,
            sc * pr == -(1099511627776 * d) + sc * rho - 2 * d * kappa + qn,
    ;
    assert(1099511627776 * (e + d) > sc * rho - 2 * d * kappa + qn - 3298534883328)
        by (nonlinear_arith)
        requires
            sc * pr < 1099511627776 * e + 3298534883328,
            sc * pr == -(1099511627776 * d) + sc * rho - 2 * d * kappa + qn,
    ;
    assert(1099511627776 * (e + d) <= 3298534883328 + 59380000000000 + 3298553757696);
    assert(1099511627776 * (e + d) > -(59380000000000 + 3298553757696 + 3298534883328));
    assert(-64 <= e + d <= 64) by (nonlinear_arith)
        requires
            1099511627776 * (e + d) <= 65977088641024,
            1099511627776 * (e + d) > -65977088641024,
    ;
}

/// Law: normalization yields a vector of length one, within eight raw
/// units (less than a hundred-thousandth): for any vector whose length
/// lies between three quarters and three halves — every unit vector in
/// particular — the measured length of its unit vector is one up to that
/// tolerance.
pub proof fn lemma_unit_vector_length_near_one(v: Vec3)
    requires
        786432 <= v_len(v) <= 1572864,
    ensures
        1048568 <= v_len(v_unit(v)) <= 1048584,
{
    let sc = SCALE as int;
    let v1 = v.x as int;
    let v2 = v.y as int;
    let v3 = v.z as int;
    let d = v_dot(v, v);
    let len = v_len(v);

    // the exact squared norm follows the measured one, and every
    // component is within three raw units of the measured length
    lemma_measured_components(v);
    lemma_isqrt_bounds(d * sc);
    let n = v1 * v1 + v2 * v2 + v3 * v3;

    // the normalized components are exact near-unit quotients
    let u = v_unit(v);
    lemma_fdiv_component(v1, len);
    lemma_fdiv_component(v2, len);
    lemma_fdiv_component(v3, len);
    let u1 = fdiv(v1, len);
    let u2 = fdiv(v2, len);
    let u3 = fdiv(v3, len);
    assert(u.x as int == u1 && u.y as int == u2 && u.z as int == u3);
    let r1 = v1 * sc - len * u1;
    let r2 = v2 * sc - len * u2;
    let r3 = v3 * sc - len * u3;
    assert(0 <= r1 < len && 0 <= r2 < len && 0 <= r3 < len);

    // the squared length of the normalized vector, exactly
    lemma_fmul_sq_exact(u1);
    lemma_fmul_sq_exact(u2);
    lemma_fmul_sq_exact(u3);
    let q = v_dot(u, u);
    let nu = u1 * u1 + u2 * u2 + u3 * u3;
    assert(q == fmul(u1, u1) + fmul(u2, u2) + fmul(u3, u3));
    assert(sc * q <= nu && nu < sc * q + 3 * sc);

    // square the division identities and sum them: the scaled squared
    // norm splits into the normalized norm plus two error terms
    assert(v1 * sc * (v1 * sc) == len * len * (u1 * u1) + 2 * len * (u1 * r1) + r1 * r1)
        by (nonlinear_arith)
        requires
            v1 * sc == len * u1 + r1,
    ;
    assert(v2 * sc * (v2 * sc) == len * len * (u2 * u2) + 2 * len * (u2 * r2) + r2 * r2)
        by (nonlinear_arith)
        requires
            v2 * sc == len * u2 + r2,
    ;
    assert(v3 * sc * (v3 * sc) == len * len * (u3 * u3) + 2 * len * (u3 * r3) + r3 * r3)
        by (nonlinear_arith)
        requires
            v3 * sc == len * u3 + r3,
    ;
    assert(v1 * sc * (v1 * sc) == v1 * v1 * (sc * sc)) by (nonlinear_arith);
    assert(v2 * sc * (v2 * sc) == v2 * v2 * (sc * sc)) by (nonlinear_arith);
    assert(v3 * sc * (v3 * sc) == v3 * v3 * (sc * sc)) by (nonlinear_arith);
    assert(v1 * v1 * (sc * sc) + v2 * v2 * (sc * sc) + v3 * v3 * (sc * sc) == n * (sc * sc))
        by (nonlinear_arith)
        requires
            n == v1 * v1 + v2 * v2 + v3 * v3,
    ;
    let tt = u1 * r1 + u2 * r2 + u3 * r3;
    let rr = r1 * r1 + r2 * r2 + r3 * r3;
    vstd::arithmetic::mul::lemma_mul_is_distributive_add(len * len, u1 * u1, u2 * u2);
    vstd::arithmetic::mul::lemma_mul_is_distributive_add(len * len, u1 * u1 + u2 * u2, u3 * u3);
    vstd::arithmetic::mul::lemma_mul_is_distributive_add(2 * len, u1 * r1, u2 * r2);
    vstd::arithmetic::mul::lemma_mul_is_distributive_add(2 * len, u1 * r1 + u2 * r2, u3 * r3);
    assert(n * (sc * sc) == len * len * nu + 2 * len * tt + rr);

    // bound the two error terms
    assert(-1048582 * len < u1 * r1 < 1048582 * len) by (nonlinear_arith)
        requires
            -1048582 < u1 < 1048582,
            0 <= r1 < len,
            len >= 1,
    ;
    assert(-1048582 * len < u2 * r2 < 1048582 * len) by (nonlinear_arith)
        requires
            -1048582 < u2 < 1048582,
            0 <= r2 < len,
            len >= 1,
    ;
    assert(-1048582 * len < u3 * r3 < 1048582 * len) by (nonlinear_arith)
        requires
            -1048582 < u3 < 1048582,
            0 <= r3 < len,
            len >= 1,
    ;
    assert(0 <= r1 * r1 < len * len) by (nonlinear_arith)
        requires
            0 <= r1 < len,
    ;
    assert(0 <= r2 * r2 < len * len) by (nonlinear_arith)
        requires
            0 <= r2 < len,
    ;
    assert(0 <= r3 * r3 < len * len) by (nonlinear_arith)
        requires
            0 <= r3 < len,
    ;
    assert(-3145746 * len < tt < 3145746 * len);
    assert(0 <= rr < 3 * (len * len));
    assert(-6291492 * (len * len) < 2 * len * tt < 6291492 * (len * len)) by (nonlinear_arith)
        requires
            -3145746 * len < tt < 3145746 * len,
            len >= 1,
    ;

    // sandwich the normalized squared norm around the square of one
    assert(len * len <= sc * d);
    assert(n >= len * len);
    assert(n * (sc * sc) >= (len * len) * (sc * sc)) by (nonlinear_arith)
        requires
            n >= len * len,
    ;
    assert(len * len * nu >= n * (sc * sc) - 6291492 * (len * len) - 3 * (len * len));
    assert(len * len * nu >= (len * len) * (sc * sc) - 6291495 * (len * len));
    assert((len * len) * (sc * sc) - 6291495 * (len * len) == (len * len) * 1099505336281)
        by (nonlinear_arith)
        requires
            sc == 1048576,
    ;
    assert(nu >= 1099505336281) by (nonlinear_arith)
        requires
            len * len * nu >= (len * len) * 1099505336281,
            len >= 1,
    ;

    assert((len + 1) * (len + 1) == len * len + 2 * len + 1) by (nonlinear_arith);
    assert(n <= len * len + 6291457);
    assert(n * (sc * sc) <= (len * len) * (sc * sc) + 6291457 * (sc * sc)) by (nonlinear_arith)
        requires
            n <= len * len + 6291457,
    ;
    assert(len * len >= 618475290624) by (nonlinear_arith)
        requires
            len >= 786432,
    ;
    assert(6291457 * (sc * sc) <= 11184813 * (len * len));
    assert(len * len * nu <= n * (sc * sc) + 6291492 * (len * len));
    assert(len * len * nu <= (len * len) * (sc * sc) + 11184813 * (len * len) + 6291492 * (len
        * len));
    assert((len * len) * (sc * sc) + 11184813 * (len * len) + 6291492 * (len * len) == (len * len)
        * 1099529104081) by (nonlinear_arith)
        requires
            sc == 1048576,
    ;
    assert(nu <= 1099529104081) by (nonlinear_arith)
        requires
            len * len * nu <= (len * len) * 1099529104081,
            len >= 1,
    ;

    // hence the squared length in raw units is one up to a few units
    assert(1048567 <= q && q <= 1048592);

    // and its square root lands within eight raw units of one
    let rlen = v_len(u);
    assert(q > 0);
    assert(rlen == isqrt_r(q * sc));
    lemma_isqrt_bounds(q * sc);
    assert(rlen * rlen <= 1099528444992);
    assert(rlen <= 1048584) by (nonlinear_arith)
        requires
            rlen >= 0,
            rlen * rlen <= 1099528444992,
    ;
    assert((rlen + 1) * (rlen + 1) > 1099502190592);
    assert(rlen >= 1048571) by (nonlinear_arith)
        requires
            rlen >= 0,
            (rlen + 1) * (rlen + 1) > 1099502190592,
    ;
}

/// The fixed-point quotient of a bounded component by a divisor close to
/// the vector's near-unit length is exact and bounded a little above one.
proof fn lemma_fdiv_near_unit(vi: int, t: int)
    requires
        786436 <= t <= 1572860,
        -(t + 7) < vi < t + 7,
    ensures
        fdiv(vi, t) == (vi * (SCALE as int)) / t,
        -1048587 < fdiv(vi, t) < 1048587,
        t * fdiv(vi, t) <= vi * (SCALE as int),
        vi * (SCALE as int) < t * fdiv(vi, t) + t,
{
    let sc = SCALE as int;
    let p = vi * sc;
    lemma_fundamental_div_mod(p, t);
    lemma_mod_bound(p, t);
    let q = p / t;
    let r = p % t;
    assert(-1048587 < q < 1048587) by (nonlinear_arith)
        requires
            786436 <= t <= 1572860,
            -(t + 7) < vi < t + 7,
            p == vi * 1048576,
            p == t * q + r,
            0 <= r < t,
    ;
}

/// Law: dividing an offset vector by a radius that matches the offset's
/// measured length within four raw units yields a vector of length one
/// within sixteen raw units (about a sixty-five-thousandth), for radii
/// between three quarters and three halves. This is the hit normal
/// `(p - center) / radius` of a sphere whose hit point lies at distance
/// close to the radius from the center.
pub proof fn lemma_normal_length_near_one(off: Vec3, radius: int)
    requires
        786436 <= radius <= 1572860,
        radius - 4 <= v_len(off) <= radius + 4,
    ensures
        1048560 <= v_len(v_div_by(off, radius)) <= 1048592,
{
    let sc = SCALE as int;
    let v1 = off.x as int;
    let v2 = off.y as int;
    let v3 = off.z as int;
    let d = v_dot(off, off);
    let len = v_len(off);

    // the exact squared norm follows the measured one, and every
    // component is within three raw units of the measured length, so
    // within seven of the radius
    lemma_measured_components(off);
    let n = v1 * v1 + v2 * v2 + v3 * v3;

    // the divided components are exact near-unit quotients
    let u = v_div_by(off, radius);
    lemma_fdiv_near_unit(v1, radius);
    lemma_fdiv_near_unit(v2, radius);
    lemma_fdiv_near_unit(v3, radius);
    let u1 = fdiv(v1, radius);
    let u2 = fdiv(v2, radius);
    let u3 = fdiv(v3, radius);
    assert(u.x as int == u1 && u.y as int == u2 && u.z as int == u3);
    let r1 = v1 * sc - radius * u1;
    let r2 = v2 * sc - radius * u2;
    let r3 = v3 * sc - radius * u3;
    assert(0 <= r1 < radius && 0 <= r2 < radius && 0 <= r3 < radius);

    // the squared length of the divided vector, exactly
    lemma_fmul_sq_exact(u1);
    lemma_fmul_sq_exact(u2);
    lemma_fmul_sq_exact(u3);
    let q = v_dot(u, u);
    let nu = u1 * u1 + u2 * u2 + u3 * u3;
    assert(q == fmul(u1, u1) + fmul(u2, u2) + fmul(u3, u3));
    assert(sc * q <= nu && nu < sc * q + 3 * sc);

    // square the division identities and sum them
    assert(v1 * sc * (v1 * sc) == radius * radius * (u1 * u1) + 2 * radius * (u1 * r1) + r1
        * r1) by (nonlinear_arith)
        requires
            v1 * sc == radius * u1 + r1,
    ;
    assert(v2 * sc * (v2 * sc) == radius * radius * (u2 * u2) + 2 * radius * (u2 * r2) + r2
        * r2) by (nonlinear_arith)
        requires
            v2 * sc == radius * u2 + r2,
    ;
    assert(v3 * sc * (v3 * sc) == radius * radius * (u3 * u3) + 2 * radius * (u3 * r3) + r3
        * r3) by (nonlinear_arith)
        requires
            v3 * sc == radius * u3 + r3,
    ;
    assert(v1 * sc * (v1 * sc) == v1 * v1 * (sc * sc)) by (nonlinear_arith);
    assert(v2 * sc * (v2 * sc) == v2 * v2 * (sc * sc)) by (nonlinear_arith);
    assert(v3 * sc * (v3 * sc) == v3 * v3 * (sc * sc)) by (nonlinear_arith);
    assert(v1 * v1 * (sc * sc) + v2 * v2 * (sc * sc) + v3 * v3 * (sc * sc) == n * (sc * sc))
        by (nonlinear_arith)
        requires
            n == v1 * v1 + v2 * v2 + v3 * v3,
    ;
    let tt = u1 * r1 + u2 * r2 + u3 * r3;
    let rr = r1 * r1 + r2 * r2 + r3 * r3;
    vstd::arithmetic::mul::lemma_mul_is_distributive_add(radius * radius, u1 * u1, u2 * u2);
    vstd::arithmetic::mul::lemma_mul_is_distributive_add(
        radius * radius,
        u1 * u1 + u2 * u2,
        u3 * u3,
    );
    vstd::arithmetic::mul::lemma_mul_is_distributive_add(2 * radius, u1 * r1, u2 * r2);
    vstd::arithmetic::mul::lemma_mul_is_distributive_add(
        2 * radius,
        u1 * r1 + u2 * r2,
        u3 * r3,
    );
    assert(n * (sc * sc) == radius * radius * nu + 2 * radius * tt + rr);

    // bound the two error terms
    assert(-1048587 * radius < u1 * r1 < 1048587 * radius) by (nonlinear_arith)
        requires
            -1048587 < u1 < 1048587,
            0 <= r1 < radius,
            radius >= 1,
    ;
    assert(-1048587 * radius < u2 * r2 < 1048587 * radius) by (nonlinear_arith)
        requires
            -1048587 < u2 < 1048587,
            0 <= r2 < radius,
            radius >= 1,
    ;
    assert(-1048587 * radius < u3 * r3 < 1048587 * radius) by (nonlinear_arith)
        requires
            -1048587 < u3 < 1048587,
            0 <= r3 < radius,
            radius >= 1,
    ;
    assert(0 <= r1 * r1 < radius * radius) by (nonlinear_arith)
        requires
            0 <= r1 < radius,
    ;
    assert(0 <= r2 * r2 < radius * radius) by (nonlinear_arith)
        requires
            0 <= r2 < radius,
    ;
    assert(0 <= r3 * r3 < radius * radius) by (nonlinear_arith)
        requires
            0 <= r3 < radius,
    ;
    assert(-3145761 * radius < tt < 3145761 * radius);
    assert(0 <= rr < 3 * (radius * radius));
    assert(-6291522 * (radius * radius) < 2 * radius * tt < 6291522 * (radius * radius))
        by (nonlinear_arith)
        requires
            -3145761 * radius < tt < 3145761 * radius,
            radius >= 1,
    ;

    // the exact squared norm brackets the squared radius
    assert((radius - 4) * (radius - 4) <= len * len) by (nonlinear_arith)
        requires
            0 <= radius - 4 <= len,
    ;
    assert((radius - 4) * (radius - 4) == radius * radius - 8 * radius + 16) by (nonlinear_arith);
    assert(len * len <= d * sc);
    assert(n >= radius * radius - 8 * radius);
    assert((len + 1) * (len + 1) <= (radius + 5) * (radius + 5)) by (nonlinear_arith)
        requires
            0 <= len + 1 <= radius + 5,
    ;
    assert((radius + 5) * (radius + 5) == radius * radius + 10 * radius + 25) by (nonlinear_arith);
    assert(n <= radius * radius + 10 * radius + 3145752);

    // scale by the squared scale and absorb the linear terms into
    // multiples of the squared radius
    assert(n * (sc * sc) >= (radius * radius) * (sc * sc) - 8 * radius * (sc * sc))
        by (nonlinear_arith)
        requires
            n >= radius * radius - 8 * radius,
            sc == 1048576,
    ;
    assert(8 * radius * (sc * sc) <= 11534336 * (radius * radius)) by (nonlinear_arith)
        requires
            radius >= 786436,
            sc == 1048576,
    ;
    assert(n * (sc * sc) <= (radius * radius) * (sc * sc) + 10 * radius * (sc * sc) + 3145752 * (
    sc * sc)) by (nonlinear_arith)
        requires
            n <= radius * radius + 10 * radius + 3145752,
            sc == 1048576,
    ;
    assert(10 * radius * (sc * sc) <= 14680064 * (radius * radius)) by (nonlinear_arith)
        requires
            radius >= 786436,
            sc == 1048576,
    ;
    assert(3145752 * (sc * sc) <= 6291456 * (radius * radius)) by (nonlinear_arith)
        requires
            radius >= 786436,
            sc == 1048576,
    ;
    assert((radius * radius) * (sc * sc) == (radius * radius) * 1099511627776)
        by (nonlinear_arith)
        requires
            sc == 1048576,
    ;

    // sandwich the divided squared norm
    assert(radius * radius * nu >= (radius * radius) * 1099511627776 - 11534336 * (radius
        * radius) - 6291522 * (radius * radius) - 3 * (radius * radius));
    assert((radius * radius) * 1099511627776 - 11534336 * (radius * radius) - 6291522 * (radius
        * radius) - 3 * (radius * radius) == (radius * radius) * 1099493801915)
        by (nonlinear_arith);
    assert(nu >= 1099493801915) by (nonlinear_arith)
        requires
            radius * radius * nu >= (radius * radius) * 1099493801915,
            radius >= 1,
    ;
    assert(radius * radius * nu <= (radius * radius) * 1099511627776 + 14680064 * (radius
        * radius) + 6291456 * (radius * radius) + 6291522 * (radius * radius));
    assert((radius * radius) * 1099511627776 + 14680064 * (radius * radius) + 6291456 * (radius
        * radius) + 6291522 * (radius * radius) == (radius * radius) * 1099538890818)
        by (nonlinear_arith);
    assert(nu <= 1099538890818) by (nonlinear_arith)
        requires
            radius * radius * nu <= (radius * radius) * 1099538890818,
            radius >= 1,
    ;

    // hence the squared length in raw units is one up to a few units
    assert(1048556 <= q && q <= 1048602);

    // and its square root lands within sixteen raw units of one
    let rlen = v_len(u);
    assert(q > 0);
    assert(rlen == isqrt_r(q * sc));
    lemma_isqrt_bounds(q * sc);
    assert(rlen * rlen <= 1099538890752);
    assert(rlen <= 1048589) by (nonlinear_arith)
        requires
            rlen >= 0,
            rlen * rlen <= 1099538890752,
    ;
    assert((rlen + 1) * (rlen + 1) > 1099490656256);
    assert(rlen >= 1048565) by (nonlinear_arith)
        requires
            rlen >= 0,
            (rlen + 1) * (rlen + 1) > 1099490656256,
    ;
}

/// Law: a hit record's normal has length one within sixteen raw units
/// whenever the hit point's measured distance to the sphere's center
/// matches the radius within four raw units — the geometric situation of
/// a true intersection — for positive radii between three quarters and
/// three halves.
pub proof fn lemma_hit_normal_length(s: Sphere, r: Ray, t: int)
    requires
        786436 <= s.radius <= 1572860,
        s.radius - 4 <= v_len(v_sub(ray_at(r, t), s.center)) <= s.radius + 4,
    ensures
        1048560 <= v_len(sphere_record(s, r, t).normal) <= 1048592,
{
    lemma_normal_length_near_one(v_sub(ray_at(r, t), s.center), s.radius as int);
}

/// Law: a sphere of negated radius is hit exactly where the unnegated sphere is
/// — same discriminant, same roots, same hit point — and only the
/// normal changes: the same offset from the center is divided by the
/// negated radius, so the normal points inward where it pointed outward.
pub proof fn lemma_negative_radius_mirror(s: Sphere, s2: Sphere, r: Ray, t_min: int, t_max: int)
    requires
        s2.center == s.center,
        s2.material == s.material,
        s2.radius as int == -(s.radius as int),
    ensures
        sphere_disc(s2, r) == sphere_disc(s, r),
        sphere_near_root(s2, r) == sphere_near_root(s, r),
        sphere_far_root(s2, r) == sphere_far_root(s, r),
        sphere_hit_spec(s2, r, t_min, t_max) is Some <==> sphere_hit_spec(s, r, t_min, t_max)
            is Some,
        sphere_hit_spec(s, r, t_min, t_max) matches Some(rec) ==> sphere_hit_spec(
            s2,
            r,
            t_min,
            t_max,
        ) == Some(
            HitRecord {
                t: rec.t,
                p: rec.p,
                normal: v_div_by(v_sub(rec.p, s.center), -(s.radius as int)),
                material: rec.material,
            },
        ),
{
    assert((s2.radius as int) * (s2.radius as int) == (s.radius as int) * (s.radius as int))
        by (nonlinear_arith)
        requires
            s2.radius as int == -(s.radius as int),
    ;
    assert(sphere_c(s2, r) == sphere_c(s, r));
    assert(sphere_disc(s2, r) == sphere_disc(s, r));
}

} // verus!
