//! Laws of the spatial resolution engine, stated over the models that
//! the executable functions' contracts use.

use vstd::prelude::*;

use crate::fov::{spec_hfov_half_tangent, spec_opening_angle_half_tangent};
use crate::ratio::{rat_eqv, rat_le, rat_lt, rat_pos, RatModel};
use crate::spatial::{
    detection_ppm, identification_ppm, observation_ppm, recognition_ppm,
    spec_distance_at_resolution, spec_spatial_resolution,
};

verus! {

/// The two directions of the resolution/distance relation are mutual
/// inverses: the distance at which the resolution reached at `distance`
/// is reached is `distance` itself, and the resolution reached at the
/// distance of `resolution` is `resolution` itself, both exactly.
pub proof fn lemma_resolution_distance_round_trip(
    tan_half_hfov: RatModel,
    pixels: int,
    distance: RatModel,
    resolution: RatModel,
)
    requires
        rat_pos(tan_half_hfov),
        rat_pos(distance),
        rat_pos(resolution),
        pixels >= 1,
    ensures
        rat_eqv(
            spec_distance_at_resolution(
                tan_half_hfov,
                pixels,
                spec_spatial_resolution(tan_half_hfov, pixels, distance),
            ),
            distance,
        ),
        rat_eqv(
            spec_spatial_resolution(
                tan_half_hfov,
                pixels,
                spec_distance_at_resolution(tan_half_hfov, pixels, resolution),
            ),
            resolution,
        ),
{
    let reso = spec_spatial_resolution(tan_half_hfov, pixels, distance);
    let back = spec_distance_at_resolution(tan_half_hfov, pixels, reso);
    assert(back.num * distance.den == distance.num * back.den) by (nonlinear_arith)
        requires
            reso.num == pixels * (distance.den * tan_half_hfov.den),
            reso.den == 2 * (distance.num * tan_half_hfov.num),
            back.num == pixels * (reso.den * tan_half_hfov.den),
            back.den == 2 * (reso.num * tan_half_hfov.num),
    ;
    let dist = spec_distance_at_resolution(tan_half_hfov, pixels, resolution);
    let again = spec_spatial_resolution(tan_half_hfov, pixels, dist);
    assert(again.num * resolution.den == resolution.num * again.den) by (nonlinear_arith)
        requires
            dist.num == pixels * (resolution.den * tan_half_hfov.den),
            dist.den == 2 * (resolution.num * tan_half_hfov.num),
            again.num == pixels * (dist.den * tan_half_hfov.den),
            again.den == 2 * (dist.num * tan_half_hfov.num),
    ;
}

/// The distance at a target resolution is strictly decreasing in the
/// resolution: a finer requirement is met only closer to the camera.
pub proof fn lemma_distance_decreasing_in_resolution(
    tan_half_hfov: RatModel,
    pixels: int,
    res_lo: RatModel,
    res_hi: RatModel,
)
    requires
        rat_pos(tan_half_hfov),
        rat_pos(res_lo),
        rat_pos(res_hi),
        pixels >= 1,
        rat_lt(res_lo, res_hi),
    ensures
        rat_lt(
            spec_distance_at_resolution(tan_half_hfov, pixels, res_hi),
            spec_distance_at_resolution(tan_half_hfov, pixels, res_lo),
        ),
{
    let d_hi = spec_distance_at_resolution(tan_half_hfov, pixels, res_hi);
    let d_lo = spec_distance_at_resolution(tan_half_hfov, pixels, res_lo);
    assert(d_hi.num * d_lo.den < d_lo.num * d_hi.den) by (nonlinear_arith)
        requires
            d_hi.num == pixels * (res_hi.den * tan_half_hfov.den),
            d_hi.den == 2 * (res_hi.num * tan_half_hfov.num),
            d_lo.num == pixels * (res_lo.den * tan_half_hfov.den),
            d_lo.den == 2 * (res_lo.num * tan_half_hfov.num),
            res_lo.num * res_hi.den < res_hi.num * res_lo.den,
            pixels >= 1,
            tan_half_hfov.num > 0,
            tan_half_hfov.den > 0,
            res_lo.num > 0,
            res_lo.den > 0,
            res_hi.num > 0,
            res_hi.den > 0,
    ;
}

/// At one field of view and pixel count the four category distances come
/// in order: identification within recognition within observation within
/// detection, since their required resolutions 25 < 62.5 < 125 < 250
/// increase.
pub proof fn lemma_category_distances_ordered(tan_half_hfov: RatModel, pixels: int)
    requires
        rat_pos(tan_half_hfov),
        pixels >= 0,
    ensures
        rat_le(
            spec_distance_at_resolution(tan_half_hfov, pixels, identification_ppm()),
            spec_distance_at_resolution(tan_half_hfov, pixels, recognition_ppm()),
        ),
        rat_le(
            spec_distance_at_resolution(tan_half_hfov, pixels, recognition_ppm()),
            spec_distance_at_resolution(tan_half_hfov, pixels, observation_ppm()),
        ),
        rat_le(
            spec_distance_at_resolution(tan_half_hfov, pixels, observation_ppm()),
            spec_distance_at_resolution(tan_half_hfov, pixels, detection_ppm()),
        ),
{
    let d_det = spec_distance_at_resolution(tan_half_hfov, pixels, detection_ppm());
    let d_obs = spec_distance_at_resolution(tan_half_hfov, pixels, observation_ppm());
    let d_rec = spec_distance_at_resolution(tan_half_hfov, pixels, recognition_ppm());
    let d_id = spec_distance_at_resolution(tan_half_hfov, pixels, identification_ppm());
    assert(d_id.num * d_rec.den <= d_rec.num * d_id.den
        && d_rec.num * d_obs.den <= d_obs.num * d_rec.den
        && d_obs.num * d_det.den <= d_det.num * d_obs.den) by (nonlinear_arith)
        requires
            d_det.num == pixels * (1 * tan_half_hfov.den),
            d_det.den == 2 * (25 * tan_half_hfov.num),
            d_obs.num == pixels * (2 * tan_half_hfov.den),
            d_obs.den == 2 * (125 * tan_half_hfov.num),
            d_rec.num == pixels * (1 * tan_half_hfov.den),
            d_rec.den == 2 * (125 * tan_half_hfov.num),
            d_id.num == pixels * (1 * tan_half_hfov.den),
            d_id.den == 2 * (250 * tan_half_hfov.num),
            pixels >= 0,
            tan_half_hfov.num > 0,
            tan_half_hfov.den > 0,
    ;
}

/// The working distance cancels out of the field-of-view formula: the
/// half-angle tangent at any working distance equals the opening-angle
/// half tangent of the lens alone.
pub proof fn lemma_hfov_agrees_with_opening_angle(
    focal_length: RatModel,
    working_distance: RatModel,
    sensor_width: RatModel,
)
    requires
        rat_pos(focal_length),
        rat_pos(working_distance),
        rat_pos(sensor_width),
    ensures
        rat_eqv(
            spec_hfov_half_tangent(focal_length, working_distance, sensor_width),
            spec_opening_angle_half_tangent(focal_length, sensor_width),
        ),
{
    let with_wd = spec_hfov_half_tangent(focal_length, working_distance, sensor_width);
    let lens_only = spec_opening_angle_half_tangent(focal_length, sensor_width);
    assert(with_wd.num * lens_only.den == lens_only.num * with_wd.den) by (nonlinear_arith)
        requires
            with_wd.num == ((sensor_width.num * working_distance.num) * focal_length.den)
                * working_distance.den,
            with_wd.den == ((sensor_width.den * working_distance.den) * focal_length.num)
                * (2 * working_distance.num),
            lens_only.num == sensor_width.num * focal_length.den,
            lens_only.den == sensor_width.den * (2 * focal_length.num),
    ;
}

} // verus!
