//! A rocky-road track: a chain of cubic Bezier segments.
//!
//! The curve supplies what the mountain car needs from its ground:
//! the tangent slope is the ratio of the curve's velocity components,
//! and the arc-length derivative factor rescales along-track motion
//! by the inverse of the velocity's magnitude.  Position `x` selects
//! the segment `x / SCALE` with local parameter `x % SCALE`, clamped
//! at the track's ends; velocity components are clamped at a guard
//! bound so the norm and ratio arithmetic stays in range.
use vstd::prelude::*;

verus! {

use crate::fixed::{
    RANGE_LIMIT, Vec2, clamp, clamp_spec, div_pos, fx_div, fx_div_spec, fx_mul, fx_mul_spec,
    isqrt, isqrt_spec,
};
use crate::mountaincar::{DERIV_LIMIT, Ground, SLOPE_LIMIT};

/// Largest control-point coordinate magnitude, ten thousand units.
pub const CTRL_LIMIT: i64 = 10_000_000;

/// Largest velocity component the curve reports; larger components
/// are clamped here before the norm and ratio are taken.
pub const VEL_CLAMP: i64 = 1_400_000;

/// Numerator of the arc-length factor, `1400` units: a velocity of
/// that magnitude gives a factor of exactly one.
pub const ARC_NUM: i64 = 1_400_000;

/// One cubic Bezier segment, by its four control points.
#[derive(Clone, Copy, Debug, PartialEq, Eq, Structural)]
pub struct BezierSegment {
    /// First control point.
    pub p0: Vec2,
    /// Second control point.
    pub p1: Vec2,
    /// Third control point.
    pub p2: Vec2,
    /// Fourth control point.
    pub p3: Vec2,
}

/// All coordinates of a segment are within the accepted range.
pub open spec fn segment_bounded(s: BezierSegment) -> bool {
    &&& -CTRL_LIMIT <= s.p0.x <= CTRL_LIMIT
    &&& -CTRL_LIMIT <= s.p0.y <= CTRL_LIMIT
    &&& -CTRL_LIMIT <= s.p1.x <= CTRL_LIMIT
    &&& -CTRL_LIMIT <= s.p1.y <= CTRL_LIMIT
    &&& -CTRL_LIMIT <= s.p2.x <= CTRL_LIMIT
    &&& -CTRL_LIMIT <= s.p2.y <= CTRL_LIMIT
    &&& -CTRL_LIMIT <= s.p3.x <= CTRL_LIMIT
    &&& -CTRL_LIMIT <= s.p3.y <= CTRL_LIMIT
}

/// First Bernstein basis weight of the cubic's derivative, in
/// thousandths: `3 (1 - u)^2`.
pub open spec fn bez_b0(u: int) -> int {
    3 * fx_mul_spec(1000 - u, 1000 - u)
}

/// Second derivative basis weight: `6 (1 - u) u`.
pub open spec fn bez_b1(u: int) -> int {
    6 * fx_mul_spec(1000 - u, u)
}

/// Third derivative basis weight: `3 u^2`.
pub open spec fn bez_b2(u: int) -> int {
    3 * fx_mul_spec(u, u)
}

/// One component of the cubic's velocity at local parameter `u`, from
/// the component's four control values.
pub open spec fn bez_vel(c0: int, c1: int, c2: int, c3: int, u: int) -> int {
    fx_mul_spec(bez_b0(u), c1 - c0) + fx_mul_spec(bez_b1(u), c2 - c1) + fx_mul_spec(
        bez_b2(u),
        c3 - c2,
    )
}

/// The slope ratio `vy / vx` in thousandths, with the sign carried by
/// a positive divisor; a vertical tangent saturates at the slope
/// guard.
pub open spec fn slope_ratio_spec(vy: int, vx: int) -> int {
    if vx > 0 {
        fx_div_spec(vy, vx)
    } else if vx < 0 {
        fx_div_spec(-vy, -vx)
    } else if vy >= 0 {
        SLOPE_LIMIT as int
    } else {
        -SLOPE_LIMIT as int
    }
}

/// The segment position `x` falls into on the given chain, clamped
/// at the ends.
pub open spec fn road_seg_index(segments: Seq<BezierSegment>, x: i64) -> int {
    clamp_spec(x as int / 1000, 0, segments.len() - 1)
}

/// The local curve parameter of position `x`, in thousandths.
pub open spec fn road_local_u(segments: Seq<BezierSegment>, x: i64) -> int {
    clamp_spec(x - 1000 * road_seg_index(segments, x), 0, 1000)
}

/// Horizontal velocity component of the chain at position `x`,
/// clamped at the guard bound.
pub open spec fn road_vel_x(segments: Seq<BezierSegment>, x: i64) -> int {
    let s = segments[road_seg_index(segments, x)];
    clamp_spec(
        bez_vel(s.p0.x as int, s.p1.x as int, s.p2.x as int, s.p3.x as int, road_local_u(segments, x)),
        -VEL_CLAMP as int,
        VEL_CLAMP as int,
    )
}

/// Vertical velocity component of the chain at position `x`, clamped
/// at the guard bound.
pub open spec fn road_vel_y(segments: Seq<BezierSegment>, x: i64) -> int {
    let s = segments[road_seg_index(segments, x)];
    clamp_spec(
        bez_vel(s.p0.y as int, s.p1.y as int, s.p2.y as int, s.p3.y as int, road_local_u(segments, x)),
        -VEL_CLAMP as int,
        VEL_CLAMP as int,
    )
}

/// The slope the chain reports at position `x`.
pub open spec fn road_slope(segments: Seq<BezierSegment>, x: i64) -> int {
    clamp_spec(
        slope_ratio_spec(road_vel_y(segments, x), road_vel_x(segments, x)),
        -SLOPE_LIMIT as int,
        SLOPE_LIMIT as int,
    )
}

/// The arc-length derivative factor the chain reports at position
/// `x`.
pub open spec fn road_deriv(segments: Seq<BezierSegment>, x: i64) -> int {
    let vx = road_vel_x(segments, x);
    let vy = road_vel_y(segments, x);
    let norm = isqrt_spec(vx * vx + vy * vy);
    if norm == 0 {
        DERIV_LIMIT as int
    } else {
        clamp_spec(fx_div_spec(ARC_NUM as int, norm), 0, DERIV_LIMIT as int)
    }
}

/// A track made of chained cubic Bezier segments.
pub struct RockyRoad {
    segments: Vec<BezierSegment>,
}

impl RockyRoad {
    #[verifier::type_invariant]
    spec fn wf(self) -> bool {
        &&& 1 <= self.segments@.len() <= 1000
        &&& forall|i: int|
            0 <= i < self.segments@.len() ==> segment_bounded(#[trigger] self.segments@[i])
    }

    /// Build a track from its segments.
    pub fn new(segments: Vec<BezierSegment>) -> (r: RockyRoad)
        requires
            1 <= segments@.len() <= 1000,
            forall|i: int| 0 <= i < segments@.len() ==> segment_bounded(#[trigger] segments@[i]),
        ensures
            forall|x: i64|
                #![trigger r.slope_spec(x)]
                r.slope_spec(x) == road_slope(segments@, x),
            forall|x: i64|
                #![trigger r.deriv_spec(x)]
                r.deriv_spec(x) == road_deriv(segments@, x),
            forall|x: i64|
                #![trigger r.vel_x_spec(x)]
                r.vel_x_spec(x) == road_vel_x(segments@, x),
            forall|x: i64|
                #![trigger r.vel_y_spec(x)]
                r.vel_y_spec(x) == road_vel_y(segments@, x),
    {
        RockyRoad { segments }
    }

    /// The segment position `x` falls into, clamped at the ends.
    pub closed spec fn seg_index_spec(&self, x: i64) -> int {
        road_seg_index(self.segments@, x)
    }

    /// The local curve parameter of position `x`, in thousandths.
    pub closed spec fn local_u_spec(&self, x: i64) -> int {
        road_local_u(self.segments@, x)
    }

    /// Horizontal velocity component at position `x`, clamped at the
    /// guard bound.
    pub closed spec fn vel_x_spec(&self, x: i64) -> int {
        road_vel_x(self.segments@, x)
    }

    /// Vertical velocity component at position `x`, clamped at the
    /// guard bound.
    pub closed spec fn vel_y_spec(&self, x: i64) -> int {
        road_vel_y(self.segments@, x)
    }

    /// The curve's velocity at position `x`, componentwise clamped.
    pub fn velocity_at(&self, x: i64) -> (v: Vec2)
        requires
            -RANGE_LIMIT <= x <= RANGE_LIMIT,
        ensures
            v.x == self.vel_x_spec(x),
            v.y == self.vel_y_spec(x),
            -VEL_CLAMP <= v.x <= VEL_CLAMP,
            -VEL_CLAMP <= v.y <= VEL_CLAMP,
    {
        proof {
            use_type_invariant(&*self);
        }
        let n = self.segments.len();
        let q = div_pos(x, 1000);
        let idx_i = clamp(q, 0, (n - 1) as i64);
        let idx = idx_i as usize;
        let u = clamp(x - idx_i * 1000, 0, 1000);
        let seg = &self.segments[idx];
        let omt = 1000 - u;
        proof {
            assert(segment_bounded(self.segments@[idx as int]));
            assert(0 <= omt as int * omt as int <= 1_000_000 && 0 <= omt as int * u as int
                <= 1_000_000 && 0 <= u as int * u as int <= 1_000_000) by (nonlinear_arith)
                requires
                    0 <= u <= 1000,
                    omt == 1000 - u,
            ;
        }
        let b0 = 3 * fx_mul(omt, omt);
        let b1 = 6 * fx_mul(omt, u);
        let b2 = 3 * fx_mul(u, u);
        let vx = fx_mul(b0, seg.p1.x - seg.p0.x) + fx_mul(b1, seg.p2.x - seg.p1.x) + fx_mul(
            b2,
            seg.p3.x - seg.p2.x,
        );
        let vy = fx_mul(b0, seg.p1.y - seg.p0.y) + fx_mul(b1, seg.p2.y - seg.p1.y) + fx_mul(
            b2,
            seg.p3.y - seg.p2.y,
        );
        Vec2 { x: clamp(vx, -VEL_CLAMP, VEL_CLAMP), y: clamp(vy, -VEL_CLAMP, VEL_CLAMP) }
    }
}

impl Ground for RockyRoad {
    closed spec fn slope_spec(&self, x: i64) -> i64 {
        road_slope(self.segments@, x) as i64
    }

    closed spec fn deriv_spec(&self, x: i64) -> i64 {
        road_deriv(self.segments@, x) as i64
    }

    /// The tangent slope: the ratio of the curve's velocity
    /// components, saturating on a vertical tangent.
    fn slope(&self, x: i64) -> (r: i64) {
        let v = self.velocity_at(x);
        let ratio = if v.x > 0 {
            fx_div(v.y, v.x)
        } else if v.x < 0 {
            fx_div(-v.y, -v.x)
        } else if v.y >= 0 {
            SLOPE_LIMIT
        } else {
            -SLOPE_LIMIT
        };
        clamp(ratio, -SLOPE_LIMIT, SLOPE_LIMIT)
    }

    /// The arc-length derivative factor: `ARC_NUM` over the
    /// velocity's magnitude, clamped into the accepted range.
    fn derivivative(&self, x: i64) -> (r: i64) {
        let v = self.velocity_at(x);
        proof {
            assert(0 <= v.x as int * v.x as int <= 1_960_000_000_000 && 0 <= v.y as int
                * v.y as int <= 1_960_000_000_000) by (nonlinear_arith)
                requires
                    -VEL_CLAMP <= v.x <= VEL_CLAMP,
                    -VEL_CLAMP <= v.y <= VEL_CLAMP,
            ;
        }
        let n2 = v.x * v.x + v.y * v.y;
        let norm = isqrt(n2 as u64);
        if norm == 0 {
            DERIV_LIMIT
        } else {
            clamp(fx_div(ARC_NUM, norm as i64), 0, DERIV_LIMIT)
        }
    }
}

} // verus!
