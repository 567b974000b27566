use crate::geom::Orient;
use crate::phys::Reflectance;
use crate::scalar::Scalar;
use crate::tools::Binner;
use vstd::prelude::*;

verus! {

/// A surface attribute as the walk of a photon uses it: no name is left in
/// it. The materials of an interface are those of the set it was linked
/// against.
#[derive(Debug, PartialEq, Eq)]
pub enum Attribute<'a, M> {
    /// Material interface, inside material, outside material.
    Interface(&'a M, &'a M),
    /// Partially reflective mirror, reflection fraction.
    Mirror(Scalar),
    /// Spectrometer index.
    Spectrometer(usize),
    /// Imager index, horizontal width, orientation.
    Imager(usize, Scalar, Orient),
    /// Ccd index, horizontal width, orientation, wavelength binner.
    Ccd(usize, Scalar, Orient, Binner),
    /// A purely reflecting material, with its reflectance.
    Reflector(Reflectance),
    /// A photon collector, by its index.
    PhotonCollector(usize),
    /// A chain of attributes, which are applied in order.
    AttributeChain(Vec<Attribute<'a, M>>),
    /// An output into the output plane of this index.
    Rasterise(usize),
    /// An output into the output volume of this index.
    Hyperspectral(usize),
}

} // verus!
