//! The decisions of a Monte Carlo simulation of light in a turbid medium.
//!
//! Two things are settled here. The first is the linking of a scene's surface
//! attributes: a description that names its detectors and materials becomes,
//! stage by stage, an attribute that holds indices and materials, or an error
//! that tells which name is missing. The second is the walk of a photon: from
//! what the caller observes (is the photon inside the domain, how heavy is
//! it, how far are the voxel wall, the scattering site, the next surface and
//! the boundary) the walk says what is to happen next, until the photon is
//! dropped.
//!
//! Nothing here does arithmetic on floating-point numbers, draws a random
//! number or touches a file. A number is held by its bit pattern, which is
//! enough to carry it and to order it; the caller computes.

pub mod error;
pub mod geom;
pub mod math;
pub mod ord;
pub mod phys;
pub mod scalar;
pub mod sim;
pub mod tools;
