use crate::scalar::Scalar;
use vstd::prelude::*;

verus! {

/// How a surface reflects: the share of the light that it throws back
/// diffusely and the share that it mirrors.
#[derive(Clone, Copy, Debug, PartialEq, Eq, Structural)]
pub struct Reflectance {
    pub diffuse_albedo: Scalar,
    pub specular_albedo: Scalar,
}

} // verus!
