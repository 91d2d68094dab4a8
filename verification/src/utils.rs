//! Packed colours, pixel indices and the small formulas of rasterization.
use crate::scalar::{
    at_least, divides_exactly, exact, for_one, for_three, for_two, is_nonzero, lawful, less,
    nonzero, one, spec_one,
    spec_zero, zero, Scalar,
};
use crate::matrix::Mat4;
use crate::vector::{Vec2, Vec3};
use core::ops::{Add, Div, Mul, Sub};
use vstd::prelude::*;
use vstd::std_specs::ops::{AddSpec, DivSpec, MulSpec, NegSpec, SubSpec};

verus! {

/// The packed colour `0x00RRGGBB`.
pub open spec fn spec_from_u8_rgb(r: u8, g: u8, b: u8) -> u32 {
    (r as u32 * 65536 + g as u32 * 256 + b as u32) as u32
}

/// Packs three 8-bit channels into one `0x00RRGGBB` value.
pub fn from_u8_rgb(r: u8, g: u8, b: u8) -> (color: u32)
    ensures
        color == spec_from_u8_rgb(r, g, b),
        color < 0x100_0000,
{
    let (r, g, b) = (r as u32, g as u32, b as u32);
    assert(((r << 16) | (g << 8) | b) == r * 65536 + g * 256 + b) by (bit_vector)
        requires
            r < 256,
            g < 256,
            b < 256,
    ;
    (r << 16) | (g << 8) | b
}

/// The red, green and blue channels of a packed colour; the top byte is
/// ignored.
pub open spec fn spec_from_u32_u8(color: u32) -> (u8, u8, u8) {
    (((color / 65536) % 256) as u8, ((color / 256) % 256) as u8, (color % 256) as u8)
}

/// Unpacks a `0x00RRGGBB` value into its three channels.
pub fn from_u32_u8(color: u32) -> (channels: (u8, u8, u8))
    ensures
        channels == spec_from_u32_u8(color),
{
    assert((color >> 16) & 0xff == (color / 65536) % 256) by (bit_vector);
    assert((color >> 8) & 0xff == (color / 256) % 256) by (bit_vector);
    assert(color & 0xff == color % 256) by (bit_vector);
    let r: u8 = ((color >> 16) & 0xff) as u8;
    let g: u8 = ((color >> 8) & 0xff) as u8;
    let b: u8 = (color & 0xff) as u8;
    (r, g, b)
}

/// Unpacking a packed colour gives back the three channels.
pub proof fn lemma_unpack_pack(r: u8, g: u8, b: u8)
    ensures
        spec_from_u32_u8(spec_from_u8_rgb(r, g, b)) == (r, g, b),
{
}

/// Packing the channels of a colour gives back its low 24 bits.
pub proof fn lemma_pack_unpack(color: u32)
    ensures
        ({
            let (r, g, b) = spec_from_u32_u8(color);
            spec_from_u8_rgb(r, g, b) == color % 0x100_0000
        }),
{
}

/// Column and row of the pixel with the given row-major index.
pub fn from_index_coords(index: usize, width: usize) -> (coords: (usize, usize))
    requires
        width > 0,
    ensures
        coords.0 == index % width,
        coords.1 == index / width,
{
    (index % width, index / width)
}

/// Row-major index of the pixel in column `x` of row `y`.
pub fn from_coords_index(x: usize, y: usize, width: usize) -> (index: usize)
    requires
        x + y * width <= usize::MAX,
    ensures
        index == x + y * width,
{
    assert(y * width <= usize::MAX) by (nonlinear_arith)
        requires
            x + y * width <= usize::MAX,
            x >= 0,
    ;
    x + y * width
}

/// A pixel inside a row is found again from its index.
pub proof fn lemma_index_of_coords(x: nat, y: nat, width: nat)
    requires
        x < width,
    ensures
        (x + y * width) % width == x,
        (x + y * width) / width == y,
{
    vstd::arithmetic::div_mod::lemma_fundamental_div_mod_converse(
        (x + y * width) as int,
        width as int,
        y as int,
        x as int,
    );
}

/// An index is found again from its column and row.
pub proof fn lemma_coords_of_index(index: nat, width: nat)
    requires
        width > 0,
    ensures
        index % width + (index / width) * width == index,
        index % width < width,
{
    vstd::arithmetic::div_mod::lemma_fundamental_div_mod(index as int, width as int);
    assert((index / width) * width == width * (index / width)) by (nonlinear_arith);
}

/// `start + (end - start) * alpha`.
pub open spec fn spec_lerp<T, S>(start: T, end: T, alpha: S) -> T where
    T: Sub<Output = T> + Mul<S, Output = T> + Add<Output = T>,
 {
    start.add_spec(end.sub_spec(start).mul_spec(alpha))
}

/// No step of the interpolation leaves the range of `T`.
pub open spec fn lerp_defined<T, S>(start: T, end: T, alpha: S) -> bool where
    T: Sub<Output = T> + Mul<S, Output = T> + Add<Output = T>,
 {
    &&& end.sub_req(start)
    &&& end.sub_spec(start).mul_req(alpha)
    &&& start.add_req(end.sub_spec(start).mul_spec(alpha))
}

/// Linear interpolation from `start` (at `alpha` zero) to `end` (at `alpha`
/// one).
pub fn lerp<T, S>(start: T, end: T, alpha: S) -> (r: T) where
    T: Sub<Output = T> + Mul<S, Output = T> + Add<Output = T> + Copy,

    requires
        T::obeys_sub_spec(),
        T::obeys_mul_spec(),
        lerp_defined(start, end, alpha),
    ensures
        T::obeys_add_spec() ==> r == spec_lerp(start, end, alpha),
{
    start + (end - start) * alpha
}

/// In whole numbers, the interpolation starts at `start` and ends at `end`.
pub proof fn lemma_lerp_reaches_both_ends(start: i64, end: i64)
    requires
        lerp_defined(start, end, 0i64),
        lerp_defined(start, end, 1i64),
    ensures
        spec_lerp(start, end, 0i64) == start,
        spec_lerp(start, end, 1i64) == end,
{
}

/// `b1 + (v - a1) * (b2 - b1) / (a2 - a1)`, the product taken before the
/// quotient.
pub open spec fn spec_map_to_range<T>(v: T, a1: T, a2: T, b1: T, b2: T) -> T where
    T: Sub<Output = T> + Div<Output = T> + Mul<Output = T> + Add<Output = T>,
 {
    b1.add_spec(v.sub_spec(a1).mul_spec(b2.sub_spec(b1)).div_spec(a2.sub_spec(a1)))
}

/// No step of the mapping leaves the range of `T` or divides by zero.
pub open spec fn map_to_range_defined<T>(v: T, a1: T, a2: T, b1: T, b2: T) -> bool where
    T: Sub<Output = T> + Div<Output = T> + Mul<Output = T> + Add<Output = T>,
 {
    &&& v.sub_req(a1)
    &&& b2.sub_req(b1)
    &&& a2.sub_req(a1)
    &&& v.sub_spec(a1).mul_req(b2.sub_spec(b1))
    &&& v.sub_spec(a1).mul_spec(b2.sub_spec(b1)).div_req(a2.sub_spec(a1))
    &&& b1.add_req(v.sub_spec(a1).mul_spec(b2.sub_spec(b1)).div_spec(a2.sub_spec(a1)))
}

/// The mapping can be computed and its division leaves no remainder.
pub open spec fn map_to_range_exact<S: Scalar>(v: S, a1: S, a2: S, b1: S, b2: S) -> bool {
    &&& map_to_range_defined(v, a1, a2, b1, b2)
    &&& divides_exactly(v.sub_spec(a1).mul_spec(b2.sub_spec(b1)), a2.sub_spec(a1))
}

/// Maps `v` from the range `a1..a2` linearly onto the range `b1..b2`. The
/// quotient is what the division of `T` gives: where that division cuts
/// to whole numbers, so does the mapping.
pub fn map_to_range<T>(v: T, a1: T, a2: T, b1: T, b2: T) -> (r: T) where
    T: Sub<Output = T> + Div<Output = T> + Mul<Output = T> + Add<Output = T> + Copy,

    requires
        T::obeys_sub_spec(),
        T::obeys_mul_spec(),
        T::obeys_div_spec(),
        map_to_range_defined(v, a1, a2, b1, b2),
    ensures
        T::obeys_add_spec() ==> r == spec_map_to_range(v, a1, a2, b1, b2),
{
    b1 + (v - a1) * (b2 - b1) / (a2 - a1)
}

/// Twice the signed area of the triangle `v0`, `v1`, `pos`:
/// `(v1 - v0).x * (pos - v0).y - (v1 - v0).y * (pos - v0).x`.
pub open spec fn spec_edge_function<S: Scalar>(pos: Vec2<S>, v0: Vec2<S>, v1: Vec2<S>) -> S {
    let seg_a = v1.sub_spec(v0);
    let seg_b = pos.sub_spec(v0);
    seg_a.x.mul_spec(seg_b.y).sub_spec(seg_a.y.mul_spec(seg_b.x))
}

/// No step of the edge function leaves the range of `S`.
pub open spec fn edge_function_defined<S: Scalar>(pos: Vec2<S>, v0: Vec2<S>, v1: Vec2<S>) -> bool {
    let seg_a = v1.sub_spec(v0);
    let seg_b = pos.sub_spec(v0);
    &&& v1.sub_req(v0)
    &&& pos.sub_req(v0)
    &&& seg_a.x.mul_req(seg_b.y)
    &&& seg_a.y.mul_req(seg_b.x)
    &&& seg_a.x.mul_spec(seg_b.y).sub_req(seg_a.y.mul_spec(seg_b.x))
}

/// The edge function of `pos` against the directed edge from `v0` to `v1`:
/// positive on one side of the edge, negative on the other, zero on it.
pub fn edge_function<S: Scalar>(pos: Vec2<S>, v0: Vec2<S>, v1: Vec2<S>) -> (r: S)
    requires
        S::obeys_sub_spec(),
        S::obeys_mul_spec(),
        edge_function_defined(pos, v0, v1),
    ensures
        r == spec_edge_function(pos, v0, v1),
{
    let seg_a = v1 - v0;
    let seg_b = pos - v0;
    seg_a.x * seg_b.y - seg_a.y * seg_b.x
}

/// The weights of `pos` in the triangle `v0`, `v1`, `v2`, whose edge
/// function over all three corners is `area`: the edge functions against the
/// two edges that end and start in `v2`, each times `1 / area`, and one less
/// the two.
pub open spec fn spec_barycentric_weights<S: Scalar>(
    pos: Vec2<S>,
    v0: Vec2<S>,
    v1: Vec2<S>,
    v2: Vec2<S>,
    area: S,
) -> Vec3<S> {
    let area_res = spec_one::<S>().div_spec(area);
    let ef0 = spec_edge_function(pos, v1, v2).mul_spec(area_res);
    let ef1 = spec_edge_function(pos, v2, v0).mul_spec(area_res);
    let ef2 = spec_one::<S>().sub_spec(ef0).sub_spec(ef1);
    Vec3 { x: ef0, y: ef1, z: ef2 }
}

/// The weights can be computed: where the area is not zero, its reciprocal
/// is exact, and no step leaves the range of `S`.
pub open spec fn barycentric_defined<S: Scalar>(
    pos: Vec2<S>,
    v0: Vec2<S>,
    v1: Vec2<S>,
    v2: Vec2<S>,
    area: S,
) -> bool {
    let area_res = spec_one::<S>().div_spec(area);
    let ef0 = spec_edge_function(pos, v1, v2).mul_spec(area_res);
    let ef1 = spec_edge_function(pos, v2, v0).mul_spec(area_res);
    nonzero(area) ==> {
        &&& divides_exactly(spec_one::<S>(), area)
        &&& edge_function_defined(pos, v1, v2)
        &&& edge_function_defined(pos, v2, v0)
        &&& spec_edge_function(pos, v1, v2).mul_req(area_res)
        &&& spec_edge_function(pos, v2, v0).mul_req(area_res)
        &&& spec_one::<S>().sub_req(ef0)
        &&& spec_one::<S>().sub_spec(ef0).sub_req(ef1)
    }
}

/// The point is covered: the area is not zero and no weight is negative.
pub open spec fn covers<S: Scalar>(area: S, weights: Vec3<S>) -> bool {
    &&& nonzero(area)
    &&& at_least(weights.x, spec_zero::<S>())
    &&& at_least(weights.y, spec_zero::<S>())
    &&& at_least(weights.z, spec_zero::<S>())
}

/// The weights of a covered point, and nothing for a point outside the
/// triangle or for a triangle without area.
pub open spec fn spec_barycentric_coordinates<S: Scalar>(
    pos: Vec2<S>,
    v0: Vec2<S>,
    v1: Vec2<S>,
    v2: Vec2<S>,
    area: S,
) -> Option<Vec3<S>> {
    let weights = spec_barycentric_weights(pos, v0, v1, v2, area);
    if covers(area, weights) {
        Some(weights)
    } else {
        None
    }
}

/// The edge function `e` is zero or has the sign of `area`, which is not
/// zero: the point lies on the edge or on the side of the edge where the
/// triangle is.
pub open spec fn on_side_of<S: Scalar>(e: S, area: S) -> bool {
    if less(spec_zero::<S>(), area) {
        at_least(e, spec_zero::<S>())
    } else {
        at_least(spec_zero::<S>(), e)
    }
}

/// The product of each weight with the area exists, and that of one less
/// the first weight.
pub open spec fn weights_scale<S: Scalar>(weights: Vec3<S>, area: S) -> bool {
    &&& weights.x.mul_req(area)
    &&& weights.y.mul_req(area)
    &&& weights.z.mul_req(area)
    &&& spec_one::<S>().sub_spec(weights.x).mul_req(area)
}

/// The area less the first two edge functions of the point. Where `area`
/// is the area of the triangle, this is the third edge function, the one
/// against the edge from `v0` to `v1`.
pub open spec fn spec_third_edge<S: Scalar>(
    pos: Vec2<S>,
    v0: Vec2<S>,
    v1: Vec2<S>,
    v2: Vec2<S>,
    area: S,
) -> S {
    area.sub_spec(spec_edge_function(pos, v1, v2)).sub_spec(spec_edge_function(pos, v2, v0))
}

/// The sum of the three weights exists.
pub open spec fn weights_add<S: Scalar>(weights: Vec3<S>) -> bool {
    weights.x.add_req(weights.y) && weights.x.add_spec(weights.y).add_req(weights.z)
}

/// Dividing by a number and multiplying by it again gives a number back:
/// where the reciprocal of `area` is exact, `e * (1 / area) * area` is `e`.
pub proof fn lemma_reciprocal_undone<S: Scalar>(e: S, area: S)
    requires
        lawful::<S>(),
        divides_exactly(spec_one::<S>(), area),
        e.mul_req(spec_one::<S>().div_spec(area)),
        e.mul_spec(spec_one::<S>().div_spec(area)).mul_req(area),
    ensures
        e.mul_spec(spec_one::<S>().div_spec(area)).mul_spec(area) == e,
{
    let rec = spec_one::<S>().div_spec(area);
    assert(for_two(area, rec) && for_three(e, rec, area) && for_one(e));
    assert(area.mul_req(rec) && area.mul_spec(rec) == spec_one::<S>());
    assert(rec.mul_req(area) && rec.mul_spec(area) == spec_one::<S>());
    assert(e.mul_spec(rec).mul_spec(area) == e.mul_spec(rec.mul_spec(area)));
    assert(e.mul_spec(spec_one::<S>()) == e);
}

proof fn lemma_weight_sign<S: Scalar>(weight: S, area: S)
    requires
        lawful::<S>(),
        nonzero(area),
        weight.mul_req(area),
    ensures
        at_least(weight, spec_zero::<S>()) <==> on_side_of(weight.mul_spec(area), area),
{
    assert(for_two(weight, area));
}

proof fn lemma_third_weight_scales<S: Scalar>(w0: S, w1: S, area: S)
    requires
        lawful::<S>(),
        spec_one::<S>().sub_req(w0),
        spec_one::<S>().sub_spec(w0).sub_req(w1),
        w0.mul_req(area),
        w1.mul_req(area),
        spec_one::<S>().sub_spec(w0).mul_req(area),
        spec_one::<S>().sub_spec(w0).sub_spec(w1).mul_req(area),
    ensures
        spec_one::<S>().sub_spec(w0).sub_spec(w1).mul_spec(area) == area.sub_spec(
            w0.mul_spec(area),
        ).sub_spec(w1.mul_spec(area)),
{
    let one = spec_one::<S>();
    let t = one.sub_spec(w0);
    assert(for_one(area) && for_two(area, one) && for_three(one, w0, area) && for_three(
        t,
        w1,
        area,
    ));
    assert(area.mul_req(one) && area.mul_spec(one) == area);
    assert(one.mul_req(area) && one.mul_spec(area) == area);
    assert(t.mul_spec(area) == one.mul_spec(area).sub_spec(w0.mul_spec(area)));
    assert(t.sub_spec(w1).mul_spec(area) == t.mul_spec(area).sub_spec(w1.mul_spec(area)));
}

proof fn lemma_weights_sum<S: Scalar>(w0: S, w1: S)
    requires
        lawful::<S>(),
        spec_one::<S>().sub_req(w0),
        spec_one::<S>().sub_spec(w0).sub_req(w1),
        w0.add_req(w1),
        w0.add_spec(w1).add_req(spec_one::<S>().sub_spec(w0).sub_spec(w1)),
    ensures
        w0.add_spec(w1).add_spec(spec_one::<S>().sub_spec(w0).sub_spec(w1)) == spec_one::<S>(),
{
    let t = spec_one::<S>().sub_spec(w0);
    let w2 = t.sub_spec(w1);
    assert(for_two(t, w1) && for_two(spec_one::<S>(), w0) && for_two(w0.add_spec(w1), w2)
        && for_two(w0, w1) && for_three(w2, w1, w0));
    // subtraction undone: w2 + w1 == t and t + w0 == one
    assert(w2.add_req(w1) && w2.add_spec(w1) == t);
    assert(t.add_req(w0) && t.add_spec(w0) == spec_one::<S>());
    // (w0 + w1) + w2 == w2 + (w0 + w1) == w2 + (w1 + w0) == (w2 + w1) + w0
    assert(w2.add_req(w0.add_spec(w1)) && w0.add_spec(w1).add_spec(w2) == w2.add_spec(
        w0.add_spec(w1),
    ));
    assert(w1.add_req(w0) && w0.add_spec(w1) == w1.add_spec(w0));
    assert(w2.add_spec(w1).add_req(w0));
    assert(w2.add_spec(w1).add_spec(w0) == w2.add_spec(w1.add_spec(w0)));
}

/// Barycentric weights of `pos` in the triangle `v0`, `v1`, `v2`, whose
/// signed area (as its edge function gives it) is `area`.
///
/// Returns the weights when none of them is negative; a weight of exactly
/// zero, on an edge, counts as covered. A triangle whose area is zero covers
/// nothing.
///
/// Each weight times the area is an edge function of the point, so the
/// point is covered exactly when each of these is zero or has the sign of
/// the area; and the weights sum to one. The reciprocal of the area has to
/// be exact: a reciprocal that is cut to a whole number is not admitted.
pub fn barycentric_coordinates<S: Scalar>(
    pos: Vec2<S>,
    v0: Vec2<S>,
    v1: Vec2<S>,
    v2: Vec2<S>,
    area: S,
) -> (r: Option<Vec3<S>>)
    requires
        lawful::<S>(),
        barycentric_defined(pos, v0, v1, v2, area),
    ensures
        r == spec_barycentric_coordinates(pos, v0, v1, v2, area),
        !nonzero(area) ==> r is None,
        nonzero(area) ==> ({
            let w = spec_barycentric_weights(pos, v0, v1, v2, area);
            &&& w.x.mul_req(area) ==> w.x.mul_spec(area) == spec_edge_function(pos, v1, v2)
            &&& w.y.mul_req(area) ==> w.y.mul_spec(area) == spec_edge_function(pos, v2, v0)
            &&& weights_scale(w, area) ==> w.z.mul_spec(area) == spec_third_edge(
                pos,
                v0,
                v1,
                v2,
                area,
            )
            &&& weights_scale(w, area) ==> (r is Some <==> {
                &&& on_side_of(spec_edge_function(pos, v1, v2), area)
                &&& on_side_of(spec_edge_function(pos, v2, v0), area)
                &&& on_side_of(spec_third_edge(pos, v0, v1, v2, area), area)
            })
            &&& weights_add(w) ==> w.x.add_spec(w.y).add_spec(w.z) == spec_one::<S>()
        }),
{
    if !is_nonzero(area) {
        return None;
    }
    let area_res = one::<S>() / area;
    let ef0 = edge_function(pos, v1, v2) * area_res;
    let ef1 = edge_function(pos, v2, v0) * area_res;
    let ef2 = one::<S>() - ef0 - ef1;
    let z: S = zero();
    proof {
        let w = spec_barycentric_weights(pos, v0, v1, v2, area);
        assert(w == (Vec3 { x: ef0, y: ef1, z: ef2 }));
        if w.x.mul_req(area) {
            lemma_reciprocal_undone(spec_edge_function(pos, v1, v2), area);
            lemma_weight_sign(w.x, area);
        }
        if w.y.mul_req(area) {
            lemma_reciprocal_undone(spec_edge_function(pos, v2, v0), area);
            lemma_weight_sign(w.y, area);
        }
        if w.z.mul_req(area) {
            lemma_weight_sign(w.z, area);
        }
        if weights_scale(w, area) {
            lemma_third_weight_scales(w.x, w.y, area);
        }
        if weights_add(w) {
            lemma_weights_sum(w.x, w.y);
        }
    }
    if ef0 >= z && ef1 >= z && ef2 >= z {
        Some(Vec3 { x: ef0, y: ef1, z: ef2 })
    } else {
        None
    }
}

/// In whole numbers, where `area` is the area of the triangle, the area less
/// the first two edge functions of a point is the third.
pub proof fn lemma_third_edge_is_edge_function(
    pos: Vec2<i64>,
    v0: Vec2<i64>,
    v1: Vec2<i64>,
    v2: Vec2<i64>,
)
    requires
        edge_function_defined(pos, v1, v2),
        edge_function_defined(pos, v2, v0),
        edge_function_defined(pos, v0, v1),
        edge_function_defined(v2, v0, v1),
        spec_edge_function(v2, v0, v1).sub_req(spec_edge_function(pos, v1, v2)),
    ensures
        spec_third_edge(pos, v0, v1, v2, spec_edge_function(v2, v0, v1)) == spec_edge_function(
            pos,
            v0,
            v1,
        ),
{
    lemma_edge_functions_sum_to_area(pos, v0, v1, v2);
}

/// In whole numbers, swapping the ends of the edge negates the edge function.
pub proof fn lemma_edge_function_flips(pos: Vec2<i64>, v0: Vec2<i64>, v1: Vec2<i64>)
    requires
        edge_function_defined(pos, v0, v1),
        edge_function_defined(pos, v1, v0),
    ensures
        spec_edge_function(pos, v1, v0) == -spec_edge_function(pos, v0, v1),
{
    let ax = v1.x - v0.x;
    let ay = v1.y - v0.y;
    let px = pos.x - v0.x;
    let py = pos.y - v0.y;
    let qx = pos.x - v1.x;
    let qy = pos.y - v1.y;
    assert((-ax) * qy - (-ay) * qx == -(ax * py - ay * px)) by (nonlinear_arith)
        requires
            qx == px - ax,
            qy == py - ay,
    ;
}

/// In whole numbers, the edge functions of a point against the three edges
/// of a triangle sum to the edge function of the triangle itself.
pub proof fn lemma_edge_functions_sum_to_area(
    pos: Vec2<i64>,
    v0: Vec2<i64>,
    v1: Vec2<i64>,
    v2: Vec2<i64>,
)
    requires
        edge_function_defined(pos, v1, v2),
        edge_function_defined(pos, v2, v0),
        edge_function_defined(pos, v0, v1),
        edge_function_defined(v2, v0, v1),
    ensures
        spec_edge_function(pos, v1, v2) + spec_edge_function(pos, v2, v0) + spec_edge_function(
            pos,
            v0,
            v1,
        ) == spec_edge_function(v2, v0, v1),
{
    let (ux, uy) = (v1.x - v0.x, v1.y - v0.y);
    let (vx, vy) = (v2.x - v0.x, v2.y - v0.y);
    let (px, py) = (pos.x - v0.x, pos.y - v0.y);
    assert((vx - ux) * (py - uy) == vx * py - vx * uy - ux * py + ux * uy) by (nonlinear_arith);
    assert((vy - uy) * (px - ux) == vy * px - vy * ux - uy * px + ux * uy) by (nonlinear_arith);
    assert((-vx) * (py - vy) == vx * vy - vx * py) by (nonlinear_arith);
    assert((-vy) * (px - vx) == vx * vy - vy * px) by (nonlinear_arith);
    assert(ux * vy - uy * vx == vy * ux - vx * uy) by (nonlinear_arith);
}

/// `a * w.x + b * w.y + c * w.z`, summed from the left.
pub open spec fn spec_blend<T, S>(a: T, b: T, c: T, w: Vec3<S>) -> T where
    T: Mul<S, Output = T> + Add<Output = T>,
 {
    a.mul_spec(w.x).add_spec(b.mul_spec(w.y)).add_spec(c.mul_spec(w.z))
}

/// No step of the weighted sum leaves the range of `T`.
pub open spec fn blend_defined<T, S>(a: T, b: T, c: T, w: Vec3<S>) -> bool where
    T: Mul<S, Output = T> + Add<Output = T>,
 {
    &&& a.mul_req(w.x)
    &&& b.mul_req(w.y)
    &&& c.mul_req(w.z)
    &&& a.mul_spec(w.x).add_req(b.mul_spec(w.y))
    &&& a.mul_spec(w.x).add_spec(b.mul_spec(w.y)).add_req(c.mul_spec(w.z))
}

/// The sum of three values, each weighed by one of three weights.
pub fn blend<T, S>(a: T, b: T, c: T, w: Vec3<S>) -> (r: T) where
    T: Mul<S, Output = T> + Add<Output = T> + Copy,
    S: Copy,

    requires
        T::obeys_mul_spec(),
        T::obeys_add_spec(),
        blend_defined(a, b, c, w),
    ensures
        r == spec_blend(a, b, c, w),
{
    a * w.x + b * w.y + c * w.z
}

/// `a * b - c * d`.
pub open spec fn spec_det2<S: Scalar>(a: S, b: S, c: S, d: S) -> S {
    a.mul_spec(b).sub_spec(c.mul_spec(d))
}

/// No step of `a * b - c * d` leaves the range of `S`.
pub open spec fn det2_defined<S: Scalar>(a: S, b: S, c: S, d: S) -> bool {
    &&& a.mul_req(b)
    &&& c.mul_req(d)
    &&& a.mul_spec(b).sub_req(c.mul_spec(d))
}

/// The determinant of the three rows `r0`, `r1`, `r2` and three columns
/// `c0`, `c1`, `c2` of a four-by-four matrix, expanded along its first row.
/// The entry of row `r` and column `c` is `src[4 * r + c]`.
pub open spec fn spec_minor<S: Scalar>(
    src: Seq<S>,
    r0: int,
    r1: int,
    r2: int,
    c0: int,
    c1: int,
    c2: int,
) -> S {
    let d0 = spec_det2(src[4 * r1 + c1], src[4 * r2 + c2], src[4 * r2 + c1], src[4 * r1 + c2]);
    let d1 = spec_det2(src[4 * r1 + c0], src[4 * r2 + c2], src[4 * r2 + c0], src[4 * r1 + c2]);
    let d2 = spec_det2(src[4 * r1 + c0], src[4 * r2 + c1], src[4 * r2 + c0], src[4 * r1 + c1]);
    src[4 * r0 + c0].mul_spec(d0).sub_spec(src[4 * r0 + c1].mul_spec(d1)).add_spec(
        src[4 * r0 + c2].mul_spec(d2),
    )
}

/// No step of the expansion leaves the range of `S`.
pub open spec fn minor_defined<S: Scalar>(
    src: Seq<S>,
    r0: int,
    r1: int,
    r2: int,
    c0: int,
    c1: int,
    c2: int,
) -> bool {
    let d0 = spec_det2(src[4 * r1 + c1], src[4 * r2 + c2], src[4 * r2 + c1], src[4 * r1 + c2]);
    let d1 = spec_det2(src[4 * r1 + c0], src[4 * r2 + c2], src[4 * r2 + c0], src[4 * r1 + c2]);
    let d2 = spec_det2(src[4 * r1 + c0], src[4 * r2 + c1], src[4 * r2 + c0], src[4 * r1 + c1]);
    &&& det2_defined(src[4 * r1 + c1], src[4 * r2 + c2], src[4 * r2 + c1], src[4 * r1 + c2])
    &&& det2_defined(src[4 * r1 + c0], src[4 * r2 + c2], src[4 * r2 + c0], src[4 * r1 + c2])
    &&& det2_defined(src[4 * r1 + c0], src[4 * r2 + c1], src[4 * r2 + c0], src[4 * r1 + c1])
    &&& src[4 * r0 + c0].mul_req(d0)
    &&& src[4 * r0 + c1].mul_req(d1)
    &&& src[4 * r0 + c2].mul_req(d2)
    &&& src[4 * r0 + c0].mul_spec(d0).sub_req(src[4 * r0 + c1].mul_spec(d1))
    &&& src[4 * r0 + c0].mul_spec(d0).sub_spec(src[4 * r0 + c1].mul_spec(d1)).add_req(
        src[4 * r0 + c2].mul_spec(d2),
    )
}

/// A three-by-three minor of a four-by-four matrix given as sixteen
/// numbers.
pub fn minor<S: Scalar>(
    src: &[S; 16],
    r0: usize,
    r1: usize,
    r2: usize,
    c0: usize,
    c1: usize,
    c2: usize,
) -> (r: S)
    requires
        S::obeys_mul_spec(),
        S::obeys_sub_spec(),
        S::obeys_add_spec(),
        r0 < 4,
        r1 < 4,
        r2 < 4,
        c0 < 4,
        c1 < 4,
        c2 < 4,
        minor_defined(src@, r0 as int, r1 as int, r2 as int, c0 as int, c1 as int, c2 as int),
    ensures
        r == spec_minor(src@, r0 as int, r1 as int, r2 as int, c0 as int, c1 as int, c2 as int),
{
    src[4 * r0 + c0] * (src[4 * r1 + c1] * src[4 * r2 + c2] - src[4 * r2 + c1] * src[4 * r1 + c2])
        - src[4 * r0 + c1] * (src[4 * r1 + c0] * src[4 * r2 + c2] - src[4 * r2 + c0] * src[4 * r1
        + c2]) + src[4 * r0 + c2] * (src[4 * r1 + c0] * src[4 * r2 + c1] - src[4 * r2 + c0] * src[4
        * r1 + c1])
}

/// The three of `0, 1, 2, 3` that are not `k`, in rising order.
pub open spec fn spec_others(k: int) -> (int, int, int) {
    if k == 0 {
        (1, 2, 3)
    } else if k == 1 {
        (0, 2, 3)
    } else if k == 2 {
        (0, 1, 3)
    } else {
        (0, 1, 2)
    }
}

/// Entry `i` of the cofactor matrix of `src`: with `a = i / 4` and
/// `b = i % 4`, the minor that leaves out row `a` and column `b`, negated
/// where `a + b` is odd.
pub open spec fn spec_cofactor_entry<S: Scalar>(src: Seq<S>, i: int) -> S {
    let (r0, r1, r2) = spec_others(i / 4);
    let (c0, c1, c2) = spec_others(i % 4);
    let m = spec_minor(src, r0, r1, r2, c0, c1, c2);
    if (i / 4 + i % 4) % 2 == 0 {
        m
    } else {
        m.neg_spec()
    }
}

/// No step of computing entry `i` leaves the range of `S`.
pub open spec fn cofactor_entry_defined<S: Scalar>(src: Seq<S>, i: int) -> bool {
    let (r0, r1, r2) = spec_others(i / 4);
    let (c0, c1, c2) = spec_others(i % 4);
    &&& minor_defined(src, r0, r1, r2, c0, c1, c2)
    &&& (i / 4 + i % 4) % 2 != 0 ==> spec_minor(src, r0, r1, r2, c0, c1, c2).neg_req()
}

/// No step of computing the cofactor matrix leaves the range of `S`.
pub open spec fn cofactor_defined<S: Scalar>(matrix: Mat4<S>) -> bool {
    forall|i: int| 0 <= i < 16 ==> cofactor_entry_defined(matrix.spec_to_cols_array(), i)
}

/// The cofactor matrix, entry by entry in column-major order.
pub open spec fn spec_cofactor<S: Scalar>(matrix: Mat4<S>) -> Mat4<S> {
    Mat4::spec_from_cols_array(
        Seq::new(16, |i: int| spec_cofactor_entry(matrix.spec_to_cols_array(), i)),
    )
}

fn others(k: usize) -> (r: (usize, usize, usize))
    requires
        k < 4,
    ensures
        (r.0 as int, r.1 as int, r.2 as int) == spec_others(k as int),
        r.0 < 4,
        r.1 < 4,
        r.2 < 4,
{
    if k == 0 {
        (1, 2, 3)
    } else if k == 1 {
        (0, 2, 3)
    } else if k == 2 {
        (0, 1, 3)
    } else {
        (0, 1, 2)
    }
}

/// The cofactor matrix: it transforms normals as the inverse transpose
/// does, up to a positive or negative factor, and exists for every matrix.
pub fn cofactor<S: Scalar>(matrix: &Mat4<S>) -> (r: Mat4<S>)
    requires
        exact::<S>(),
        cofactor_defined(*matrix),
    ensures
        r == spec_cofactor(*matrix),
{
    let src: [S; 16] = matrix.to_cols_array();
    let mut dst: [S; 16] = src;
    let mut i: usize = 0;
    while i < 16
        invariant
            i <= 16,
            exact::<S>(),
            src@ == matrix.spec_to_cols_array(),
            cofactor_defined(*matrix),
            forall|k: int| 0 <= k < i ==> dst@[k] == spec_cofactor_entry(src@, k),
        decreases 16 - i,
    {
        let (r0, r1, r2) = others(i / 4);
        let (c0, c1, c2) = others(i % 4);
        assert(cofactor_entry_defined(src@, i as int));
        let m = minor(&src, r0, r1, r2, c0, c1, c2);
        if (i / 4 + i % 4) % 2 == 0 {
            dst[i] = m;
        } else {
            dst[i] = m.neg();
        }
        i = i + 1;
    }
    assert(dst@ =~= Seq::new(16, |i: int| spec_cofactor_entry(src@, i)));
    Mat4::from_cols_array(&dst)
}

} // verus!
