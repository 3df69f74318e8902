//! The spatial resolution engine.
//!
//! A camera with horizontal field of view `hfov` covers, at distance `d`,
//! a ground width of `2 * d * tan(hfov / 2)`; spreading `pixels` columns
//! over that width gives the spatial resolution in pixels per meter, and
//! solving the same relation for `d` gives the distance at which a target
//! resolution is reached. Both computations, and the four standard
//! surveillance categories, are exact rational functions once the tangent
//! of the half angle is given; that tangent is the `tan_half_hfov`
//! argument throughout. An angle strictly between 0 and 180 degrees has a
//! positive finite tangent of its half angle, so the well-formedness of
//! that argument is exactly the angular domain condition.

use vstd::prelude::*;

use crate::ratio::{rat_div, rat_mul, rat_of, rat_pos, RatModel, Ratio};

verus! {

/// Pixels per meter required for detection of a target.
pub open spec fn detection_ppm() -> RatModel {
    rat_of(25)
}

/// Pixels per meter required for observation of a target: 62.5.
pub open spec fn observation_ppm() -> RatModel {
    RatModel { num: 125, den: 2 }
}

/// Pixels per meter required for recognition of a target.
pub open spec fn recognition_ppm() -> RatModel {
    rat_of(125)
}

/// Pixels per meter required for identification of a target.
pub open spec fn identification_ppm() -> RatModel {
    rat_of(250)
}

/// Resolution reached at `distance`: `pixels / (2 * distance * tan_half_hfov)`.
pub open spec fn spec_spatial_resolution(tan_half_hfov: RatModel, pixels: int, distance: RatModel) -> RatModel {
    rat_div(rat_of(pixels), rat_mul(rat_of(2), rat_mul(distance, tan_half_hfov)))
}

/// Distance at which `resolution` is reached:
/// `pixels / (2 * resolution * tan_half_hfov)`.
pub open spec fn spec_distance_at_resolution(tan_half_hfov: RatModel, pixels: int, resolution: RatModel) -> RatModel {
    rat_div(rat_of(pixels), rat_mul(rat_of(2), rat_mul(resolution, tan_half_hfov)))
}

/// Spatial resolution in pixels per meter at `distance`, for a sensor of
/// `pixels` horizontal pixels whose half field of view has tangent
/// `tan_half_hfov`.
pub fn spatial_resolution(tan_half_hfov: Ratio, pixels: u32, distance: Ratio) -> (r: Ratio)
    requires
        tan_half_hfov.pos(),
        distance.pos(),
        pixels * distance.den * tan_half_hfov.den <= u64::MAX,
        2 * distance.num * tan_half_hfov.num <= u64::MAX,
    ensures
        r.wf(),
        pixels >= 1 ==> r.pos(),
        r@ == spec_spatial_resolution(tan_half_hfov@, pixels as int, distance@),
{
    proof {
        assert(pixels * distance.den <= pixels * distance.den * tan_half_hfov.den) by (nonlinear_arith)
            requires
                pixels >= 0,
                distance.den >= 1,
                tan_half_hfov.den >= 1,
        ;
        assert(2 * distance.num <= 2 * distance.num * tan_half_hfov.num) by (nonlinear_arith)
            requires
                distance.num >= 1,
                tan_half_hfov.num >= 1,
        ;
    }
    let num: u64 = (pixels as u64) * distance.den * tan_half_hfov.den;
    let den: u64 = 2 * distance.num * tan_half_hfov.num;
    proof {
        assert(num == pixels * (distance.den * tan_half_hfov.den)
            && den == 2 * (distance.num * tan_half_hfov.num)
            && den >= 1
            && (pixels >= 1 ==> num >= 1)) by (nonlinear_arith)
            requires
                num == pixels * distance.den * tan_half_hfov.den,
                den == 2 * distance.num * tan_half_hfov.num,
                pixels >= 0,
                distance.num >= 1,
                distance.den >= 1,
                tan_half_hfov.num >= 1,
                tan_half_hfov.den >= 1,
        ;
    }
    Ratio { num, den }
}

/// Distance in meters at which the given resolution in pixels per meter
/// is reached, for a sensor of `pixels` horizontal pixels whose half
/// field of view has tangent `tan_half_hfov`.
pub fn distance_at_resolution(tan_half_hfov: Ratio, pixels: u32, resolution: Ratio) -> (r: Ratio)
    requires
        tan_half_hfov.pos(),
        resolution.pos(),
        pixels * resolution.den * tan_half_hfov.den <= u64::MAX,
        2 * resolution.num * tan_half_hfov.num <= u64::MAX,
    ensures
        r.wf(),
        pixels >= 1 ==> r.pos(),
        r@ == spec_distance_at_resolution(tan_half_hfov@, pixels as int, resolution@),
{
    proof {
        assert(pixels * resolution.den <= pixels * resolution.den * tan_half_hfov.den) by (nonlinear_arith)
            requires
                pixels >= 0,
                resolution.den >= 1,
                tan_half_hfov.den >= 1,
        ;
        assert(2 * resolution.num <= 2 * resolution.num * tan_half_hfov.num) by (nonlinear_arith)
            requires
                resolution.num >= 1,
                tan_half_hfov.num >= 1,
        ;
    }
    let num: u64 = (pixels as u64) * resolution.den * tan_half_hfov.den;
    let den: u64 = 2 * resolution.num * tan_half_hfov.num;
    proof {
        assert(num == pixels * (resolution.den * tan_half_hfov.den)
            && den == 2 * (resolution.num * tan_half_hfov.num)
            && den >= 1
            && (pixels >= 1 ==> num >= 1)) by (nonlinear_arith)
            requires
                num == pixels * resolution.den * tan_half_hfov.den,
                den == 2 * resolution.num * tan_half_hfov.num,
                pixels >= 0,
                resolution.num >= 1,
                resolution.den >= 1,
                tan_half_hfov.num >= 1,
                tan_half_hfov.den >= 1,
        ;
    }
    Ratio { num, den }
}

/// Distance at which a target can be detected: 25 pixels per meter.
pub fn detection_distance(tan_half_hfov: Ratio, pixels: u32) -> (r: Ratio)
    requires
        tan_half_hfov.pos(),
        pixels * tan_half_hfov.den <= u64::MAX,
        50 * tan_half_hfov.num <= u64::MAX,
    ensures
        r.wf(),
        pixels >= 1 ==> r.pos(),
        r@ == spec_distance_at_resolution(tan_half_hfov@, pixels as int, detection_ppm()),
{
    distance_at_resolution(tan_half_hfov, pixels, Ratio::new(25, 1))
}

/// Distance at which a target can be observed: 62.5 pixels per meter.
pub fn observation_distance(tan_half_hfov: Ratio, pixels: u32) -> (r: Ratio)
    requires
        tan_half_hfov.pos(),
        pixels * 2 * tan_half_hfov.den <= u64::MAX,
        250 * tan_half_hfov.num <= u64::MAX,
    ensures
        r.wf(),
        pixels >= 1 ==> r.pos(),
        r@ == spec_distance_at_resolution(tan_half_hfov@, pixels as int, observation_ppm()),
{
    distance_at_resolution(tan_half_hfov, pixels, Ratio::new(125, 2))
}

/// Distance at which a target can be recognised: 125 pixels per meter.
pub fn recognition_distance(tan_half_hfov: Ratio, pixels: u32) -> (r: Ratio)
    requires
        tan_half_hfov.pos(),
        pixels * tan_half_hfov.den <= u64::MAX,
        250 * tan_half_hfov.num <= u64::MAX,
    ensures
        r.wf(),
        pixels >= 1 ==> r.pos(),
        r@ == spec_distance_at_resolution(tan_half_hfov@, pixels as int, recognition_ppm()),
{
    distance_at_resolution(tan_half_hfov, pixels, Ratio::new(125, 1))
}

/// Distance at which a target can be identified: 250 pixels per meter.
pub fn identification_distance(tan_half_hfov: Ratio, pixels: u32) -> (r: Ratio)
    requires
        tan_half_hfov.pos(),
        pixels * tan_half_hfov.den <= u64::MAX,
        500 * tan_half_hfov.num <= u64::MAX,
    ensures
        r.wf(),
        pixels >= 1 ==> r.pos(),
        r@ == spec_distance_at_resolution(tan_half_hfov@, pixels as int, identification_ppm()),
{
    distance_at_resolution(tan_half_hfov, pixels, Ratio::new(250, 1))
}

} // verus!
