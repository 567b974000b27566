use crate::scalar::Scalar;
use vstd::prelude::*;

verus! {

/// What happens to a photon next, with the distance at which it happens.
#[derive(Clone, Copy, Debug, PartialEq, Eq, Structural)]
pub enum Event {
    /// The photon reaches the wall of its voxel.
    Voxel(Scalar),
    /// The photon is scattered by the medium.
    Scattering(Scalar),
    /// The photon hits a surface.
    Surface(Scalar),
    /// The photon reaches the boundary of the domain.
    Boundary(Scalar),
}

/// `dist` is no farther than any of the candidate distances.
pub open spec fn nearest(
    dist: Scalar,
    voxel: Scalar,
    scattering: Scalar,
    surface: Option<Scalar>,
    boundary: Scalar,
) -> bool {
    &&& dist.le_spec(voxel)
    &&& dist.le_spec(scattering)
    &&& surface matches Some(hit) ==> dist.le_spec(hit)
    &&& dist.le_spec(boundary)
}

impl Event {
    /// The distance at which the event happens.
    pub open spec fn dist_spec(self) -> Scalar {
        match self {
            Event::Voxel(d) => d,
            Event::Scattering(d) => d,
            Event::Surface(d) => d,
            Event::Boundary(d) => d,
        }
    }

    /// The place of the event's kind in the order of precedence: among
    /// events at one distance the one with the least place happens.
    pub open spec fn precedence(self) -> nat {
        match self {
            Event::Voxel(_) => 0,
            Event::Scattering(_) => 1,
            Event::Surface(_) => 2,
            Event::Boundary(_) => 3,
        }
    }

    /// The event that happens: the first, in the order voxel, scattering,
    /// surface, boundary, that is no farther than all the others. Where a
    /// distance is a NaN nothing is nearest, and the boundary is left.
    pub open spec fn select(
        voxel: Scalar,
        scattering: Scalar,
        surface: Option<Scalar>,
        boundary: Scalar,
    ) -> Event {
        if nearest(voxel, voxel, scattering, surface, boundary) {
            Event::Voxel(voxel)
        } else if nearest(scattering, voxel, scattering, surface, boundary) {
            Event::Scattering(scattering)
        } else if surface is Some && nearest(surface->0, voxel, scattering, surface, boundary) {
            Event::Surface(surface->0)
        } else {
            Event::Boundary(boundary)
        }
    }

    /// Picks the event that happens from the four candidate distances.
    pub fn new(
        voxel_dist: Scalar,
        scat_dist: Scalar,
        surf_hit: Option<Scalar>,
        boundary_hit: Scalar,
    ) -> (event: Event)
        ensures
            event == Event::select(voxel_dist, scat_dist, surf_hit, boundary_hit),
    {
        if is_nearest(voxel_dist, voxel_dist, scat_dist, surf_hit, boundary_hit) {
            return Event::Voxel(voxel_dist);
        }
        if is_nearest(scat_dist, voxel_dist, scat_dist, surf_hit, boundary_hit) {
            return Event::Scattering(scat_dist);
        }
        if let Some(hit) = surf_hit {
            if is_nearest(hit, voxel_dist, scat_dist, surf_hit, boundary_hit) {
                return Event::Surface(hit);
            }
        }
        Event::Boundary(boundary_hit)
    }

    #[verifier::when_used_as_spec(dist_spec)]
    pub fn dist(self) -> (d: Scalar)
        ensures
            d == self.dist_spec(),
    {
        match self {
            Event::Voxel(d) => d,
            Event::Scattering(d) => d,
            Event::Surface(d) => d,
            Event::Boundary(d) => d,
        }
    }
}

/// Tells whether `dist` is no farther than any of the candidate distances.
pub fn is_nearest(
    dist: Scalar,
    voxel: Scalar,
    scattering: Scalar,
    surface: Option<Scalar>,
    boundary: Scalar,
) -> (b: bool)
    ensures
        b == nearest(dist, voxel, scattering, surface, boundary),
{
    let before_surface = match surface {
        Some(hit) => dist.le(hit),
        None => true,
    };
    dist.le(voxel) && dist.le(scattering) && before_surface && dist.le(boundary)
}

/// The bound that is put on the search for a surface: a surface beyond the
/// nearer of the voxel wall and the scattering site cannot be the event.
pub fn search_bound(voxel_dist: Scalar, scat_dist: Scalar) -> (bound: Scalar)
    ensures
        bound == voxel_dist.min_spec(scat_dist),
{
    voxel_dist.min(scat_dist)
}

/// Of the candidates that are numbers the nearest happens, and of two that
/// are equally near the one that comes first in the order voxel, scattering,
/// surface, boundary.
pub proof fn law_nearest_event_happens(
    voxel: Scalar,
    scattering: Scalar,
    surface: Option<Scalar>,
    boundary: Scalar,
)
    requires
        !voxel.nan(),
        !scattering.nan(),
        surface matches Some(hit) ==> !hit.nan(),
        !boundary.nan(),
    ensures
        ({
            let event = Event::select(voxel, scattering, surface, boundary);
            &&& nearest(event.dist_spec(), voxel, scattering, surface, boundary)
            &&& event.precedence() > 0 ==> event.dist_spec().lt_spec(voxel)
            &&& event.precedence() > 1 ==> event.dist_spec().lt_spec(scattering)
            &&& event.precedence() > 2 && surface is Some ==> event.dist_spec().lt_spec(surface->0)
            &&& event is Surface ==> surface == Some(event.dist_spec())
        }),
{
}

/// A voxel wall and a scattering site at one distance, with nothing nearer:
/// the voxel wall is the event.
pub proof fn law_voxel_precedes_scattering(
    voxel: Scalar,
    scattering: Scalar,
    surface: Option<Scalar>,
    boundary: Scalar,
)
    requires
        !voxel.nan(),
        !scattering.nan(),
        voxel.rank() == scattering.rank(),
        surface matches Some(hit) ==> voxel.le_spec(hit),
        voxel.le_spec(boundary),
    ensures
        Event::select(voxel, scattering, surface, boundary) == Event::Voxel(voxel),
{
}

} // verus!
