//! Camera lens geometry: exact rational computation of surveillance
//! distance metrics (detection, observation, recognition, identification)
//! and field-of-view conversions.
//!
//! Every formula of this library is of the form `pixels / (2 * x * t)`,
//! where `t` is the tangent of half the horizontal field of view. The
//! tangent itself is irrational for almost every angle, so the angular
//! input crosses the library boundary already in tangent form, as a
//! positive rational; everything past that point is exact rational
//! arithmetic, stated and proved here.

pub mod fov;
pub mod laws;
pub mod ratio;
pub mod spatial;
