//! Classification of the ground probe's hit.

use vstd::prelude::*;
use crate::vector::Vector3;

verus! {

/// The nearest hit of the shape cast below the body, as the physics engine reports it.
#[derive(Clone, Copy, Debug, PartialEq, Eq, Structural)]
pub struct ProbeHit {
    /// Distance in mm from the body's center down to the surface.
    pub distance: u32,
    /// The surface normal, in direction units.
    pub normal: Vector3,
}

/// What the probe found on one physics tick.
#[derive(Clone, Copy, Debug, PartialEq, Eq, Structural)]
pub struct GroundingResult {
    pub is_grounded: bool,
    /// The surface normal; zero, and not to be read, when nothing was hit within range.
    pub surface_normal: Vector3,
    /// Distance in mm from the body's center down to the surface; the probe range when
    /// nothing was hit within it.
    pub distance_to_surface: u32,
}

/// A surface `distance` mm below the center supports a body that floats `float_height` mm
/// up: it lies within the tolerance band, whose far edge counts as inside.
pub open spec fn within_band(distance: int, float_height: int, tolerance: int) -> bool {
    distance <= float_height + tolerance
}

/// The result that `probe` gives.
pub open spec fn grounding_of(hit: Option<ProbeHit>, float_height: u32, tolerance: u32, range: u32) -> GroundingResult {
    match hit {
        Some(h) if h.distance <= range => GroundingResult {
            is_grounded: within_band(h.distance as int, float_height as int, tolerance as int),
            surface_normal: h.normal,
            distance_to_surface: h.distance,
        },
        _ => GroundingResult {
            is_grounded: false,
            surface_normal: Vector3 { x: 0, y: 0, z: 0 },
            distance_to_surface: range,
        },
    }
}

/// Classifies the probe's nearest hit: grounded when it lies within `range` mm and no more
/// than `tolerance` mm beyond the float height.
pub fn probe(hit: Option<ProbeHit>, float_height: u32, tolerance: u32, range: u32) -> (r: GroundingResult)
    requires
        tolerance > 0,
    ensures
        r == grounding_of(hit, float_height, tolerance, range),
{
    match hit {
        Some(h) => {
            if h.distance <= range {
                let band: u64 = float_height as u64 + tolerance as u64;
                GroundingResult {
                    is_grounded: (h.distance as u64) <= band,
                    surface_normal: h.normal,
                    distance_to_surface: h.distance,
                }
            } else {
                GroundingResult {
                    is_grounded: false,
                    surface_normal: Vector3::zero(),
                    distance_to_surface: range,
                }
            }
        },
        None => GroundingResult {
            is_grounded: false,
            surface_normal: Vector3::zero(),
            distance_to_surface: range,
        },
    }
}

/// A hit exactly at the far edge of the tolerance band is grounded.
pub proof fn lemma_band_edge_is_grounded(hit: ProbeHit, float_height: u32, tolerance: u32, range: u32)
    requires
        tolerance > 0,
        hit.distance == float_height + tolerance,
        hit.distance <= range,
    ensures
        grounding_of(Some(hit), float_height, tolerance, range).is_grounded,
{
}

} // verus!
