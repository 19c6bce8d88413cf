//! Positions and sizes in texels, with the fixed values that `wgpu_types` defines.

use vstd::prelude::*;

verus! {

/// Position of a texel in a two-dimensional image, relative to its top-left corner.
#[derive(Clone, Copy, Debug, PartialEq, Eq, Structural)]
pub struct Origin2 {
    pub x: u32,
    pub y: u32,
}

/// Position of a texel in a texture.
#[derive(Clone, Copy, Debug, PartialEq, Eq, Structural)]
pub struct Origin3 {
    pub x: u32,
    pub y: u32,
    pub z: u32,
}

/// Size of a texture, or of a region of one.
#[derive(Clone, Copy, Debug, PartialEq, Eq, Structural)]
pub struct Extent {
    pub width: u32,
    pub height: u32,
    pub depth_or_array_layers: u32,
}

impl Origin2 {
    /// The top-left corner.
    pub open spec fn zero() -> Origin2 {
        Origin2 { x: 0, y: 0 }
    }
}

impl Origin3 {
    /// The first texel of the first layer.
    pub open spec fn zero() -> Origin3 {
        Origin3 { x: 0, y: 0, z: 0 }
    }
}

impl Extent {
    /// One texel, one layer.
    pub open spec fn unit() -> Extent {
        Extent { width: 1, height: 1, depth_or_array_layers: 1 }
    }

    /// A single layer of `width` by `height` texels.
    pub open spec fn flat(width: u32, height: u32) -> Extent {
        Extent { width, height, depth_or_array_layers: 1 }
    }

    /// A single-layer extent: every field but width and height is left at the
    /// default that `wgpu_types` gives an extent.
    pub fn new_2d(width: u32, height: u32) -> (e: Extent)
        ensures
            e == Extent::flat(width, height),
    {
        let base = default_extent();
        Extent { width, height, depth_or_array_layers: base.depth_or_array_layers }
    }
}

/// Reads `wgpu_types::Origin2d::ZERO`.
///
/// Trusted: the constant is the origin whose two coordinates are zero.
#[verifier::external_body]
pub(crate) fn origin2_zero() -> (o: Origin2)
    ensures
        o == Origin2::zero(),
{
    let zero = wgpu_types::Origin2d::ZERO;
    Origin2 { x: zero.x, y: zero.y }
}

/// Reads `wgpu_types::Origin3d::ZERO`.
///
/// Trusted: the constant is the origin whose three coordinates are zero.
#[verifier::external_body]
pub(crate) fn origin3_zero() -> (o: Origin3)
    ensures
        o == Origin3::zero(),
{
    let zero = wgpu_types::Origin3d::ZERO;
    Origin3 { x: zero.x, y: zero.y, z: zero.z }
}

/// Calls `<wgpu_types::Extent3d as Default>::default`.
///
/// Trusted: the default extent is one texel wide, one high and one layer deep.
#[verifier::external_body]
pub(crate) fn default_extent() -> (e: Extent)
    ensures
        e == Extent::unit(),
{
    let base = wgpu_types::Extent3d::default();
    Extent {
        width: base.width,
        height: base.height,
        depth_or_array_layers: base.depth_or_array_layers,
    }
}

} // verus!
