//! Line rasterization: the ordered sequence of integer grid points that
//! approximates the straight segment between two endpoints, one point per
//! unit step along the dominant axis (an integer error-accumulator
//! algorithm in the style of Bresenham's).

use vstd::prelude::*;
use vstd::arithmetic::div_mod::lemma_basic_div;
use vstd::arithmetic::div_mod::lemma_div_pos_is_pos;
use vstd::arithmetic::div_mod::lemma_multiply_divide_lt;
use vstd::arithmetic::div_mod::lemma_fundamental_div_mod;
use vstd::arithmetic::div_mod::lemma_fundamental_div_mod_converse_div;
use vstd::arithmetic::div_mod::lemma_mod_bound;

verus! {

pub open spec fn abs_i(x: int) -> int {
    if x >= 0 { x } else { -x }
}

/// Direction of a coordinate delta; a delta of exactly 0 counts as the
/// positive direction by convention.
pub open spec fn sign_i(x: int) -> int {
    if x >= 0 { 1 } else { -1 }
}

/// Number of points on the rasterized segment: one per unit step along the
/// dominant axis, both endpoints included.
pub open spec fn line_len(p0: (i32, i32), p1: (i32, i32)) -> int {
    let adx = abs_i(p1.0 - p0.0);
    let ady = abs_i(p1.1 - p0.1);
    (if adx >= ady { adx } else { ady }) + 1
}

/// Absolute offset along the minor axis after `i` unit steps along the
/// dominant axis: `min/dom * i` rounded to the nearest integer, ties
/// rounded up, which is what the error accumulator computes.
pub open spec fn minor_offset(i: int, dom: int, min: int) -> int {
    if dom == 0 { 0 } else { (2 * min * i + dom) / (2 * dom) }
}

/// The `i`-th point of the rasterized segment from `p0` to `p1`,
/// for `0 <= i < line_len(p0, p1)`.
pub open spec fn line_point(p0: (i32, i32), p1: (i32, i32), i: int) -> (int, int) {
    let dx = p1.0 - p0.0;
    let dy = p1.1 - p0.1;
    let adx = abs_i(dx);
    let ady = abs_i(dy);
    let xs = sign_i(dx);
    let ys = sign_i(dy);
    if adx >= ady {
        (p0.0 + i * xs, p0.1 + minor_offset(i, adx, ady) * ys)
    } else {
        (p0.0 + minor_offset(i, ady, adx) * xs, p0.1 + i * ys)
    }
}

/// A degenerate segment rasterizes to exactly its one point.
pub proof fn lemma_line_single_point(p: (i32, i32))
    ensures
        line_len(p, p) == 1,
        line_point(p, p, 0) == (p.0 as int, p.1 as int),
{
    assert(0 * sign_i(0) == 0) by (nonlinear_arith);
    assert(minor_offset(0, 0, 0) * sign_i(0) == 0) by (nonlinear_arith);
}

/// Whether the error accumulator of the segment from `p0` to `p1` ties
/// exactly at step `i`: the true line passes exactly halfway between two
/// cells there, and the tie is rounded up, which is not symmetric under
/// swapping the endpoints.
pub open spec fn tie_at(p0: (i32, i32), p1: (i32, i32), i: int) -> bool {
    let adx = abs_i(p1.0 - p0.0);
    let ady = abs_i(p1.1 - p0.1);
    let dom = if adx >= ady { adx } else { ady };
    let min = if adx >= ady { ady } else { adx };
    dom > 0 && (2 * min * i + dom) % (2 * dom) == 0
}

/// Rounded minor offsets of tie-free complementary steps sum to the whole
/// minor extent.
proof fn lemma_minor_offset_complement(dom: int, min: int, i: int)
    requires
        1 <= dom,
        0 <= min <= dom,
        0 <= i <= dom,
        (2 * min * i + dom) % (2 * dom) != 0,
    ensures
        minor_offset(dom - i, dom, min) == min - minor_offset(i, dom, min),
{
    let a = 2 * min * i + dom;
    let b = 2 * min * (dom - i) + dom;
    assert(0 <= a) by (nonlinear_arith)
        requires min >= 0, i >= 0, dom >= 1, a == 2 * min * i + dom,
    ;
    lemma_fundamental_div_mod(a, 2 * dom);
    lemma_mod_bound(a, 2 * dom);
    let q = a / (2 * dom);
    let r = a % (2 * dom);
    assert(b == 2 * dom * (min - q) + (2 * dom - r)) by (nonlinear_arith)
        requires
            a == 2 * dom * q + r,
            a == 2 * min * i + dom,
            b == 2 * min * (dom - i) + dom,
    ;
    lemma_fundamental_div_mod_converse_div(b, 2 * dom, min - q, 2 * dom - r);
}

/// Path symmetry: wherever the error accumulator never ties, rasterizing
/// the segment from the opposite end yields exactly the same points, in
/// reverse order. At a tie the two directions round to different cells, so
/// tying segments are excluded.
pub proof fn lemma_line_reverse(p0: (i32, i32), p1: (i32, i32))
    requires
        forall|i: int| 0 <= i < line_len(p0, p1) ==> !tie_at(p0, p1, i),
    ensures
        line_len(p1, p0) == line_len(p0, p1),
        forall|i: int| 0 <= i < line_len(p0, p1) ==>
            #[trigger] line_point(p1, p0, i) == line_point(p0, p1, line_len(p0, p1) - 1 - i),
{
    let dx = p1.0 - p0.0;
    let dy = p1.1 - p0.1;
    let adx = abs_i(dx);
    let ady = abs_i(dy);
    let dom = if adx >= ady { adx } else { ady };
    let min = if adx >= ady { ady } else { adx };
    assert forall|i: int| 0 <= i < line_len(p0, p1)
        implies #[trigger] line_point(p1, p0, i) == line_point(p0, p1, line_len(p0, p1) - 1 - i) by {
        let j = dom - i;
        if dom == 0 {
            assert(i == 0 && j == 0);
            assert(0 * sign_i(0) == 0) by (nonlinear_arith);
            assert(minor_offset(0, 0, 0) * sign_i(0) == 0) by (nonlinear_arith);
        } else {
            assert(!tie_at(p0, p1, i));
            lemma_minor_offset_complement(dom, min, i);
            let mi = minor_offset(i, dom, min);
            let mj = minor_offset(j, dom, min);
            assert(mj == min - mi);
            assert(0 <= mi <= min && 0 <= mj <= min) by {
                assert(2 * min * i + dom >= 0 && 2 * min * j + dom >= 0) by (nonlinear_arith)
                    requires min >= 0, i >= 0, j >= 0, dom >= 1,
                ;
                lemma_div_pos_is_pos(2 * min * i + dom, 2 * dom);
                lemma_div_pos_is_pos(2 * min * j + dom, 2 * dom);
            }
            // The deltas seen from p1 are the negations, so both directions
            // share the same dominant axis and extents; a sign of a zero
            // delta is 1 from both ends, and its axis has no offsets.
            let xsf = sign_i(dx);
            let ysf = sign_i(dy);
            let xsr = sign_i(p0.0 - p1.0);
            let ysr = sign_i(p0.1 - p1.1);
            assert(dx == 0 ==> xsr == xsf);
            assert(dx != 0 ==> xsr == -xsf);
            assert(dy == 0 ==> ysr == ysf);
            assert(dy != 0 ==> ysr == -ysf);
            assert(dx == xsf * adx && dy == ysf * ady) by (nonlinear_arith)
                requires
                    xsf == (if dx >= 0 { 1int } else { -1int }),
                    ysf == (if dy >= 0 { 1int } else { -1int }),
                    adx == (if dx >= 0 { dx } else { -dx }),
                    ady == (if dy >= 0 { dy } else { -dy }),
            ;
            if adx >= ady {
                assert(p1.0 + i * xsr == p0.0 + j * xsf) by (nonlinear_arith)
                    requires
                        dx == xsf * dom,
                        p1.0 == p0.0 + dx,
                        j == dom - i,
                        xsf == 1 || xsf == -1,
                        dx == 0 ==> xsr == xsf,
                        dx != 0 ==> xsr == -xsf,
                        dx == 0 ==> dom == 0,
                        0 <= i <= dom,
                ;
                assert(p1.1 + mi * ysr == p0.1 + mj * ysf) by (nonlinear_arith)
                    requires
                        dy == ysf * min,
                        p1.1 == p0.1 + dy,
                        mj == min - mi,
                        ysf == 1 || ysf == -1,
                        dy == 0 ==> ysr == ysf,
                        dy != 0 ==> ysr == -ysf,
                        dy == 0 ==> min == 0,
                        0 <= mi <= min,
                ;
            } else {
                assert(p1.1 + i * ysr == p0.1 + j * ysf) by (nonlinear_arith)
                    requires
                        dy == ysf * dom,
                        p1.1 == p0.1 + dy,
                        j == dom - i,
                        ysf == 1 || ysf == -1,
                        dy == 0 ==> ysr == ysf,
                        dy != 0 ==> ysr == -ysf,
                        dy == 0 ==> dom == 0,
                        0 <= i <= dom,
                ;
                assert(p1.0 + mi * xsr == p0.0 + mj * xsf) by (nonlinear_arith)
                    requires
                        dx == xsf * min,
                        p1.0 == p0.0 + dx,
                        mj == min - mi,
                        xsf == 1 || xsf == -1,
                        dx == 0 ==> xsr == xsf,
                        dx != 0 ==> xsr == -xsf,
                        dx == 0 ==> min == 0,
                        0 <= mi <= min,
                ;
            }
        }
    }
}

/// Rasterizes the segment from `(x0, y0)` to `(x1, y1)`: the ordered points
/// of the maximally straight 8-connected path between them, both endpoints
/// included. Pure: the output is a function of the endpoints alone.
pub fn gen_points(x0: i32, y0: i32, x1: i32, y1: i32) -> (pts: Vec<(i32, i32)>)
    ensures
        pts@.len() == line_len((x0, y0), (x1, y1)),
        forall|i: int| 0 <= i < pts@.len() ==>
            (#[trigger] pts@[i]).0 == line_point((x0, y0), (x1, y1), i).0
            && pts@[i].1 == line_point((x0, y0), (x1, y1), i).1,
{
    let ghost p0 = (x0, y0);
    let ghost p1 = (x1, y1);
    let dx = x1 as i64 - x0 as i64;
    let dy = y1 as i64 - y0 as i64;
    let xs: i64 = if dx >= 0 { 1 } else { -1 };
    let ys: i64 = if dy >= 0 { 1 } else { -1 };
    let adx = if dx >= 0 { dx } else { -dx };
    let ady = if dy >= 0 { dy } else { -dy };

    // Lengths of the dominant and the minor axis of the segment.
    let dom: i64;
    let min: i64;
    if adx >= ady {
        dom = adx;
        min = ady;
    } else {
        dom = ady;
        min = adx;
    }

    proof {
        if dom > 0 {
            lemma_basic_div(dom as int, 2 * (dom as int));
        }
    }

    let mut d: i64 = 2 * min - dom;
    let mut v: i64 = 0;
    let mut u: i64 = 0;
    let mut pts: Vec<(i32, i32)> = Vec::new();
    while u <= dom
        invariant
            0 <= min <= dom < 0x100000000,
            0 <= u <= dom + 1,
            0 <= v,
            pts@.len() == u,
            d == 2 * (min as int) * (u as int) + 2 * (min as int) - dom - 2 * (dom as int) * (v as int),
            u <= dom ==> v == minor_offset(u as int, dom as int, min as int),
            u <= dom ==> v <= min,
            u <= dom && dom >= 1 ==> 2 * (dom as int) * (v as int) <= 2 * (min as int) * (u as int) + dom,
            u <= dom && dom >= 1 ==> 2 * (min as int) * (u as int) + dom < 2 * (dom as int) * (v as int) + 2 * dom,
            forall|i: int| 0 <= i < u ==>
                (#[trigger] pts@[i]).0 == line_point(p0, p1, i).0
                && pts@[i].1 == line_point(p0, p1, i).1,
            p0 == (x0, y0) && p1 == (x1, y1),
            dx == p1.0 - p0.0 && dy == p1.1 - p0.1,
            xs == sign_i(p1.0 - p0.0) && ys == sign_i(p1.1 - p0.1),
            adx == abs_i(p1.0 - p0.0) && ady == abs_i(p1.1 - p0.1),
            dom == if adx >= ady { adx } else { ady },
            min == if adx >= ady { ady } else { adx },
        decreases dom + 1 - u,
    {
        proof {
            let ui = u as int;
            let vi = v as int;
            let xsi = xs as int;
            let ysi = ys as int;
            // Exact value of the offsets along each axis: the emitted point
            // stays inside the bounding box of the two endpoints.
            if xs == 1 {
                assert(ui * xsi == ui && vi * xsi == vi) by (nonlinear_arith)
                    requires xsi == 1;
            } else {
                assert(ui * xsi == -ui && vi * xsi == -vi) by (nonlinear_arith)
                    requires xsi == -1;
            }
            if ys == 1 {
                assert(ui * ysi == ui && vi * ysi == vi) by (nonlinear_arith)
                    requires ysi == 1;
            } else {
                assert(ui * ysi == -ui && vi * ysi == -vi) by (nonlinear_arith)
                    requires ysi == -1;
            }
            if adx >= ady {
                assert(line_point(p0, p1, ui).0 == p0.0 + ui * xsi);
                assert(line_point(p0, p1, ui).1 == p0.1 + vi * ysi);
            } else {
                assert(line_point(p0, p1, ui).0 == p0.0 + vi * xsi);
                assert(line_point(p0, p1, ui).1 == p0.1 + ui * ysi);
            }
        }
        // Offset magnitudes along x and y, applied in the delta's direction.
        let ox = if adx >= ady { u } else { v };
        let oy = if adx >= ady { v } else { u };
        let px = if dx >= 0 { x0 as i64 + ox } else { x0 as i64 - ox };
        let py = if dy >= 0 { y0 as i64 + oy } else { y0 as i64 - oy };
        proof {
            // The point lies in the endpoints' bounding box, so it fits in i32.
            assert(x0 as int <= px <= x1 as int || x1 as int <= px <= x0 as int);
            assert(y0 as int <= py <= y1 as int || y1 as int <= py <= y0 as int);
            assert(px == line_point(p0, p1, u as int).0);
            assert(py == line_point(p0, p1, u as int).1);
        }
        pts.push((px as i32, py as i32));
        let ghost old_d = d as int;
        let ghost old_v = v as int;
        if d >= 0 {
            v = v + 1;
            d = d - 2 * dom;
        }
        d = d + 2 * min;
        u = u + 1;
        proof {
            let di = dom as int;
            let mi = min as int;
            let ui = u as int;
            let vi = v as int;
            assert(d == 2 * mi * ui + 2 * mi - di - 2 * di * vi) by (nonlinear_arith)
                requires
                    old_d == 2 * mi * (ui - 1) + 2 * mi - di - 2 * di * old_v,
                    d == old_d + 2 * mi - (if old_d >= 0 { 2 * di } else { 0 }),
                    vi == old_v + (if old_d >= 0 { 1int } else { 0 }),
            ;
            if u <= dom {
                assert(2 * di * vi <= 2 * mi * ui + di && 2 * mi * ui + di < 2 * di * vi + 2 * di)
                    by (nonlinear_arith)
                    requires
                        0 <= mi <= di,
                        1 <= ui <= di,
                        2 * di * old_v <= 2 * mi * (ui - 1) + di,
                        2 * mi * (ui - 1) + di < 2 * di * old_v + 2 * di,
                        old_d == 2 * mi * (ui - 1) + 2 * mi - di - 2 * di * old_v,
                        vi == old_v + (if old_d >= 0 { 1int } else { 0 }),
                ;
                assert(vi == (2 * mi * ui + di) / (2 * di)) by {
                    lemma_fundamental_div_mod_converse_div(
                        2 * mi * ui + di,
                        2 * di,
                        vi,
                        2 * mi * ui + di - 2 * di * vi,
                    );
                }
                assert(vi <= mi) by {
                    assert(2 * mi * ui + di <= 2 * di * mi + di) by (nonlinear_arith)
                        requires 0 <= mi <= di, 0 <= ui <= di,
                    ;
                    assert(2 * di * mi + di < (2 * di) * (mi + 1)) by (nonlinear_arith)
                        requires 1 <= di,
                    ;
                    lemma_multiply_divide_lt(2 * mi * ui + di, 2 * di, mi + 1);
                }
                assert(vi >= 0) by {
                    assert(2 * mi * ui + di >= 0) by (nonlinear_arith)
                        requires mi >= 0, ui >= 0, di >= 0,
                    ;
                    lemma_div_pos_is_pos(2 * mi * ui + di, 2 * di);
                }
            }
        }
    }
    pts
}

} // verus!
