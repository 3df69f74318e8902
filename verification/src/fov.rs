//! Field-of-view conversions from lens geometry.
//!
//! A lens of focal length `f` images, at working distance `w`, a spatial
//! width of `s * w / f` where `s` is the sensor width; the horizontal
//! field of view is twice the arctangent of that width over `2 * w`. The
//! arctangent itself is irrational, so these functions return the exact
//! rational quantity under it — the tangent of the half angle — and the
//! caller applies the arctangent and converts radians to degrees.

use vstd::prelude::*;

use crate::ratio::{rat_div, rat_mul, rat_of, RatModel, Ratio};

verus! {

/// Tangent of half the field of view at a working distance:
/// `(sensor_width * working_distance / focal_length) / (2 * working_distance)`.
pub open spec fn spec_hfov_half_tangent(
    focal_length: RatModel,
    working_distance: RatModel,
    sensor_width: RatModel,
) -> RatModel {
    rat_div(
        rat_div(rat_mul(sensor_width, working_distance), focal_length),
        rat_mul(rat_of(2), working_distance),
    )
}

/// Tangent of half the opening angle of a lens:
/// `sensor_width / (2 * focal_length)`.
pub open spec fn spec_opening_angle_half_tangent(
    focal_length: RatModel,
    sensor_width: RatModel,
) -> RatModel {
    rat_div(sensor_width, rat_mul(rat_of(2), focal_length))
}

/// Tangent of half the horizontal field of view of a lens of
/// `focal_length` observing a plane at `working_distance` through a
/// sensor of `sensor_width`, all in the same length unit. The field of
/// view in degrees is twice the arctangent of the result, in degrees.
pub fn hfov_half_tangent(
    focal_length: Ratio,
    working_distance: Ratio,
    sensor_width: Ratio,
) -> (r: Ratio)
    requires
        focal_length.pos(),
        working_distance.pos(),
        sensor_width.pos(),
        sensor_width.num * working_distance.num * focal_length.den * working_distance.den
            <= u64::MAX,
        sensor_width.den * working_distance.den * focal_length.num * 2 * working_distance.num
            <= u64::MAX,
    ensures
        r.pos(),
        r@ == spec_hfov_half_tangent(focal_length@, working_distance@, sensor_width@),
{
    proof {
        assert(sensor_width.num * working_distance.num
            <= sensor_width.num * working_distance.num * focal_length.den * working_distance.den
            && sensor_width.num * working_distance.num * focal_length.den
                <= sensor_width.num * working_distance.num * focal_length.den
                    * working_distance.den) by (nonlinear_arith)
            requires
                sensor_width.num >= 1,
                working_distance.num >= 1,
                focal_length.den >= 1,
                working_distance.den >= 1,
        ;
        assert(sensor_width.den * working_distance.den
            <= sensor_width.den * working_distance.den * focal_length.num * 2
                * working_distance.num
            && sensor_width.den * working_distance.den * focal_length.num
                <= sensor_width.den * working_distance.den * focal_length.num * 2
                    * working_distance.num
            && sensor_width.den * working_distance.den * focal_length.num * 2
                <= sensor_width.den * working_distance.den * focal_length.num * 2
                    * working_distance.num) by (nonlinear_arith)
            requires
                sensor_width.den >= 1,
                working_distance.den >= 1,
                focal_length.num >= 1,
                working_distance.num >= 1,
        ;
    }
    let num: u64 = sensor_width.num * working_distance.num * focal_length.den
        * working_distance.den;
    let den: u64 = sensor_width.den * working_distance.den * focal_length.num * 2
        * working_distance.num;
    proof {
        assert(num == ((sensor_width.num * working_distance.num) * focal_length.den)
            * working_distance.den
            && den == ((sensor_width.den * working_distance.den) * focal_length.num)
                * (2 * working_distance.num)
            && num >= 1 && den >= 1) by (nonlinear_arith)
            requires
                num == sensor_width.num * working_distance.num * focal_length.den
                    * working_distance.den,
                den == sensor_width.den * working_distance.den * focal_length.num * 2
                    * working_distance.num,
                sensor_width.num >= 1,
                sensor_width.den >= 1,
                working_distance.num >= 1,
                working_distance.den >= 1,
                focal_length.num >= 1,
                focal_length.den >= 1,
        ;
    }
    Ratio { num, den }
}

/// Tangent of half the opening angle of a lens of `focal_length` with a
/// sensor of `sensor_width`, both in the same length unit. The opening
/// angle in degrees is twice the arctangent of the result, in degrees.
pub fn opening_angle_half_tangent(focal_length: Ratio, sensor_width: Ratio) -> (r: Ratio)
    requires
        focal_length.pos(),
        sensor_width.pos(),
        sensor_width.num * focal_length.den <= u64::MAX,
        sensor_width.den * 2 * focal_length.num <= u64::MAX,
    ensures
        r.pos(),
        r@ == spec_opening_angle_half_tangent(focal_length@, sensor_width@),
{
    proof {
        assert(sensor_width.den * 2 <= sensor_width.den * 2 * focal_length.num) by (nonlinear_arith)
            requires
                sensor_width.den >= 1,
                focal_length.num >= 1,
        ;
    }
    let num: u64 = sensor_width.num * focal_length.den;
    let den: u64 = sensor_width.den * 2 * focal_length.num;
    proof {
        assert(den == sensor_width.den * (2 * focal_length.num)
            && num >= 1 && den >= 1) by (nonlinear_arith)
            requires
                num == sensor_width.num * focal_length.den,
                den == sensor_width.den * 2 * focal_length.num,
                sensor_width.num >= 1,
                sensor_width.den >= 1,
                focal_length.num >= 1,
                focal_length.den >= 1,
        ;
    }
    Ratio { num, den }
}

} // verus!
