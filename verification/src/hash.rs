//! The deterministic per-voxel coordinate hash: every absolute integer
//! coordinate is mapped to one of sixteen classes by fixed arithmetic.

use vstd::prelude::*;

verus! {

/// Coordinates this module accepts. The bound keeps every intermediate
/// value of the mixing and scrambling steps well inside `i128`, so the
/// hash is computed exactly, with no silent wrap-around.
pub open spec fn coord_ok(c: int) -> bool {
    -8388608 <= c <= 8388608
}

/// The mixing step: the three coordinates folded into one value by
/// multiplication with fixed constants and bitwise exclusive or.
pub open spec fn mixed_coords(x: i128, y: i128, z: i128) -> i128 {
    (((x * 3129871) as i128) ^ ((z * 116129781) as i128)) ^ y
}

/// The scrambling step applied to the mixed value.
pub open spec fn scrambled_seed(x: i128, y: i128, z: i128) -> int {
    let m = mixed_coords(x, y, z) as int;
    m * m * 42317861 + m * 11
}

/// The class of an absolute coordinate: the scrambled seed shifted right
/// by sixteen bits, taken modulo sixteen by absolute value.
pub open spec fn hash_class(x: i128, y: i128, z: i128) -> int {
    let s = (scrambled_seed(x, y, z) as i128) >> 16;
    (vstd::math::abs(s as int) % 16) as int
}

/// Exclusive or cannot leave a symmetric power-of-two interval that holds
/// both operands.
proof fn lemma_xor_stays_bounded(a: i128, b: i128)
    by (bit_vector)
    requires
        -0x4000000000000 <= a < 0x4000000000000,
        -0x4000000000000 <= b < 0x4000000000000,
    ensures
        -0x4000000000000 <= (a ^ b) < 0x4000000000000,
{
}

/// An arithmetic right shift by sixteen keeps any `i128` value far from
/// the extremes of the type.
proof fn lemma_shr16_stays_bounded(a: i128)
    by (bit_vector)
    ensures
        -0x8000000000000000000000000000 <= (a >> 16) <= 0x8000000000000000000000000000,
{
}

/// The raw per-coordinate seed value, computed exactly.
pub fn get_coordinate_random(x: i128, y: i128, z: i128) -> (r: i128)
    requires
        coord_ok(x as int),
        coord_ok(y as int),
        coord_ok(z as int),
    ensures
        r == scrambled_seed(x, y, z),
{
    let xm: i128 = x * 3129871;
    let zm: i128 = z * 116129781;
    let m: i128 = xm ^ zm ^ y;
    proof {
        lemma_xor_stays_bounded(xm, zm);
        lemma_xor_stays_bounded(xm ^ zm, y);
        assert(m * m <= 0x10000000000000000000000000) by (nonlinear_arith)
            requires
                -0x4000000000000 <= m <= 0x4000000000000,
        ;
        assert(m * m >= 0) by (nonlinear_arith);
    }
    let sq: i128 = m * m;
    sq * 42317861 + m * 11
}

/// The hash class of an absolute coordinate, always in `[0, 16)`.
pub fn get_texture_type(x: i128, y: i128, z: i128) -> (t: i128)
    requires
        coord_ok(x as int),
        coord_ok(y as int),
        coord_ok(z as int),
    ensures
        t == hash_class(x, y, z),
        0 <= t < 16,
{
    let r = get_coordinate_random(x, y, z);
    let s: i128 = r >> 16;
    proof {
        lemma_shr16_stays_bounded(r);
    }
    let a: i128 = if s < 0 {
        -s
    } else {
        s
    };
    a % 16
}

} // verus!
