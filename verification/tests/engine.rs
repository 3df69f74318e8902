use camera::fov::{hfov_half_tangent, opening_angle_half_tangent};
use camera::ratio::Ratio;
use camera::spatial::{
    detection_distance, distance_at_resolution, identification_distance, observation_distance,
    recognition_distance, spatial_resolution,
};

/// Tangent of half the angle, in degrees, as a ratio scaled to nine
/// decimal digits.
fn tan_half_ratio(angle_degrees: f64) -> Ratio {
    let tangent = (angle_degrees.to_radians() / 2.0).tan();
    Ratio::new((tangent * 1e9).round() as u64, 1_000_000_000)
}

fn ratio_value(r: Ratio) -> f64 {
    r.num as f64 / r.den as f64
}

#[test]
fn test_detection_distance() {
    let angle = 90.0;
    let pixels = 300;
    let result = ratio_value(detection_distance(tan_half_ratio(angle), pixels));
    let expected = 6.0;
    assert!(
        (result - expected).abs() < 1e-6,
        "Expected: {}, Got: {}",
        expected,
        result
    );
}

#[test]
fn test_observation_distance() {
    let angle = 90.0;
    let pixels = 300;
    let result = ratio_value(observation_distance(tan_half_ratio(angle), pixels));
    let expected = 2.4;
    assert!(
        (result - expected).abs() < 1e-6,
        "Expected: {}, Got: {}",
        expected,
        result
    );
}

#[test]
fn test_recognition_distance() {
    let angle = 90.0;
    let pixels = 300;
    let result = ratio_value(recognition_distance(tan_half_ratio(angle), pixels));
    let expected = 1.2;
    assert!(
        (result - expected).abs() < 1e-6,
        "Expected: {}, Got: {}",
        expected,
        result
    );
}

#[test]
fn test_identification_distance() {
    let angle = 90.0;
    let pixels = 300;
    let result = ratio_value(identification_distance(tan_half_ratio(angle), pixels));
    let expected = 0.6;
    assert!(
        (result - expected).abs() < 1e-6,
        "Expected: {}, Got: {}",
        expected,
        result
    );
}

#[test]
fn test_focal_length_conversion() {
    let focal_length = Ratio::new(8, 1); // mm
    let working_distance = Ratio::new(200, 1); // mm
    let sensor_width = Ratio::new(2, 1); // mm
    let half_tangent = hfov_half_tangent(focal_length, working_distance, sensor_width);
    let result = (2.0 * ratio_value(half_tangent).atan()).to_degrees();
    let expected = 14.25; // degrees
    assert!(
        (result - expected).abs() < 1e-4,
        "Expected: {}, Got: {}",
        expected,
        result
    );
}

#[test]
fn test_focal_length_to_opening_angle() {
    let focal_length = Ratio::new(50, 1); // mm
    let sensor_width = Ratio::new(36, 1); // mm
    let half_tangent = opening_angle_half_tangent(focal_length, sensor_width);
    let result = (2.0 * ratio_value(half_tangent).atan()).to_degrees();
    let expected = 39.59776; // degrees
    assert!(
        (result - expected).abs() < 1e-4,
        "Expected: {}, Got: {}",
        expected,
        result
    );
}

#[test]
fn test_spatial_resolution() {
    let angle: f64 = 90.0;
    let pixels = 300;
    let distance = 100.0;
    let result = ratio_value(spatial_resolution(
        tan_half_ratio(angle),
        pixels,
        Ratio::new(100, 1),
    ));
    let width = 2.0 * distance * (angle.to_radians() / 2.0).tan();
    let expected = pixels as f64 / width;
    assert!(
        (result - expected).abs() < 1e-6,
        "Expected: {}, Got: {}",
        expected,
        result
    );
}

#[test]
fn test_distance_at_resolution() {
    let hfov: f64 = 90.0;
    let pixels = 300;
    let resolution = 25.0;
    let result = ratio_value(distance_at_resolution(
        tan_half_ratio(hfov),
        pixels,
        Ratio::new(25, 1),
    ));
    let expected = pixels as f64 / (2.0 * resolution * (hfov.to_radians() / 2.0).tan());
    assert!(
        (result - expected).abs() < 1e-6,
        "Expected: {}, Got: {}",
        expected,
        result
    );
}

/// The exact results behind the literal scenario at 90 degrees and 300
/// pixels: 6.0, 2.4, 1.2 and 0.6 meters, as ratios, with no tolerance.
#[test]
fn test_category_distances_exact_at_90_degrees() {
    let tangent = Ratio::new(1, 1); // tan(45 degrees)
    let det = detection_distance(tangent, 300);
    let obs = observation_distance(tangent, 300);
    let rec = recognition_distance(tangent, 300);
    let ident = identification_distance(tangent, 300);
    // value * 10 as an exact cross-multiplication: r.num * 10 == v10 * r.den
    assert_eq!(det.num as u128 * 10, 60 * det.den as u128);
    assert_eq!(obs.num as u128 * 10, 24 * obs.den as u128);
    assert_eq!(rec.num as u128 * 10, 12 * rec.den as u128);
    assert_eq!(ident.num as u128 * 10, 6 * ident.den as u128);
}

/// Round trip: distance_at_resolution inverts spatial_resolution exactly,
/// here on an awkward fraction of a distance.
#[test]
fn test_resolution_distance_round_trip() {
    let tangent = Ratio::new(3, 7);
    let pixels = 640;
    let distance = Ratio::new(55, 2); // 27.5 m
    let resolution = spatial_resolution(tangent, pixels, distance);
    let back = distance_at_resolution(tangent, pixels, resolution);
    assert_eq!(
        back.num as u128 * distance.den as u128,
        distance.num as u128 * back.den as u128
    );
    let target = Ratio::new(62, 5); // 12.4 ppm
    let reach = distance_at_resolution(tangent, pixels, target);
    let again = spatial_resolution(tangent, pixels, reach);
    assert_eq!(
        again.num as u128 * target.den as u128,
        target.num as u128 * again.den as u128
    );
}

/// Monotonicity: a strictly finer resolution requirement is met strictly
/// closer to the camera.
#[test]
fn test_distance_decreases_with_resolution() {
    let tangent = Ratio::new(577350269, 1_000_000_000); // tan(30 degrees)
    let pixels = 1920;
    let coarse = distance_at_resolution(tangent, pixels, Ratio::new(30, 1));
    let fine = distance_at_resolution(tangent, pixels, Ratio::new(40, 1));
    assert!((fine.num as u128) * (coarse.den as u128) < (coarse.num as u128) * (fine.den as u128));
}

/// Ordering of the four categories at one field of view and pixel count.
#[test]
fn test_category_distances_ordered() {
    let tangent = Ratio::new(839099631, 1_000_000_000); // tan(80 degrees / 2)
    let pixels = 1280;
    let det = detection_distance(tangent, pixels);
    let obs = observation_distance(tangent, pixels);
    let rec = recognition_distance(tangent, pixels);
    let ident = identification_distance(tangent, pixels);
    let le = |a: Ratio, b: Ratio| (a.num as u128) * (b.den as u128) <= (b.num as u128) * (a.den as u128);
    assert!(le(ident, rec));
    assert!(le(rec, obs));
    assert!(le(obs, det));
}

/// The working distance cancels: the half-angle tangent at a working
/// distance equals the opening-angle half tangent of the lens alone.
#[test]
fn test_hfov_agrees_with_opening_angle() {
    let focal_length = Ratio::new(8, 1);
    let working_distance = Ratio::new(123, 4);
    let sensor_width = Ratio::new(2, 1);
    let with_wd = hfov_half_tangent(focal_length, working_distance, sensor_width);
    let lens_only = opening_angle_half_tangent(focal_length, sensor_width);
    assert_eq!(
        with_wd.num as u128 * lens_only.den as u128,
        lens_only.num as u128 * with_wd.den as u128
    );
}

/// The largest pixel count a frame can state still computes.
#[test]
fn test_largest_pixel_count() {
    let tangent = Ratio::new(1, 1);
    let pixels = u32::MAX;
    let det = detection_distance(tangent, pixels);
    assert_eq!(det.num, u32::MAX as u64);
    assert_eq!(det.den, 50);
}

/// A frame with no pixels meets no resolution anywhere: every category
/// distance is exactly zero.
#[test]
fn test_zero_pixels_give_zero_distance() {
    let tangent = Ratio::new(1, 1);
    let det = detection_distance(tangent, 0);
    assert_eq!(det.num, 0);
    assert!(det.den >= 1);
}
