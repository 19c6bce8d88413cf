//! The render target: what is asked of the resource table, and the identity
//! that the table hands back.

use vstd::prelude::*;
use crate::geometry::Extent;

verus! {

/// Stable logical handle to a GPU texture resource.
///
/// The resource table assigns it once, at allocation. The live GPU resource
/// behind it may be recreated or moved between ticks; the identity is not.
#[derive(Clone, Copy, Debug, PartialEq, Eq, Hash, Structural)]
pub struct TextureIdentity {
    pub raw: u64,
}

/// Texel layout of a texture.
#[derive(Clone, Copy, Debug, PartialEq, Eq, Structural)]
pub enum TextureFormat {
    /// Red, green, blue and alpha, 8 bits each, unsigned normalized.
    Rgba8Unorm,
    /// The same layout, read through the sRGB transfer function.
    Rgba8UnormSrgb,
}

/// Dimensionality of a texture.
#[derive(Clone, Copy, Debug, PartialEq, Eq, Structural)]
pub enum TextureDimension {
    D1,
    D2,
    D3,
}

/// Which side of the engine keeps the texture's data.
#[derive(Clone, Copy, Debug, PartialEq, Eq, Structural)]
pub enum Residency {
    /// Kept for CPU-side access only.
    MainWorld,
    /// Kept for the render pipeline only.
    RenderWorld,
    /// Kept on both sides.
    Both,
}

/// What the resource table is asked for: an uninitialized texture whose
/// contents are undefined until the first copy lands.
#[derive(Clone, Copy, Debug, PartialEq, Eq, Structural)]
pub struct TargetRequest {
    pub size: Extent,
    pub dimension: TextureDimension,
    pub format: TextureFormat,
    pub residency: Residency,
}

/// Usage bit of a texture that may be the destination of a copy.
pub open spec fn usage_copy_dst() -> u32 {
    0x02
}

/// Usage bit of a texture that may be an output attachment of a render pass.
pub open spec fn usage_render_attachment() -> u32 {
    0x10
}

/// The usage flags that a streaming target must carry: a copy from an
/// external image asks both of its destination.
pub open spec fn required_usage() -> u32 {
    usage_copy_dst() | usage_render_attachment()
}

/// The usage flags of a texture after it has been made a streaming target:
/// every flag it had, and the required ones.
pub open spec fn augmented_usage(base: u32) -> u32 {
    base | required_usage()
}

/// Whether a texture with these usage flags can be written by the frame copy:
/// it must be both a copy destination and a render attachment.
pub open spec fn is_streaming_target(usage: u32) -> bool {
    usage & required_usage() == required_usage()
}

/// Reads the bits of `wgpu_types::TextureUsages::COPY_DST`.
///
/// Trusted: the flag is bit 1.
#[verifier::external_body]
pub(crate) fn copy_dst_bits() -> (bits: u32)
    ensures
        bits == usage_copy_dst(),
{
    wgpu_types::TextureUsages::COPY_DST.bits()
}

/// Reads the bits of `wgpu_types::TextureUsages::RENDER_ATTACHMENT`.
///
/// Trusted: the flag is bit 4.
#[verifier::external_body]
pub(crate) fn render_attachment_bits() -> (bits: u32)
    ensures
        bits == usage_render_attachment(),
{
    wgpu_types::TextureUsages::RENDER_ATTACHMENT.bits()
}

/// The request for a render target of `width` by `height` texels: a single
/// layer, two-dimensional, 8-bit RGBA unsigned normalized, kept for the render
/// pipeline.
pub fn target_request(width: u32, height: u32) -> (request: TargetRequest)
    ensures
        request == (TargetRequest {
            size: Extent::flat(width, height),
            dimension: TextureDimension::D2,
            format: TextureFormat::Rgba8Unorm,
            residency: Residency::RenderWorld,
        }),
{
    TargetRequest {
        size: Extent::new_2d(width, height),
        dimension: TextureDimension::D2,
        format: TextureFormat::Rgba8Unorm,
        residency: Residency::RenderWorld,
    }
}

/// Adds to the usage flags of a freshly requested texture what the frame copy
/// needs, and keeps every flag that was set.
pub fn augment_usage(base: u32) -> (usage: u32)
    ensures
        usage == augmented_usage(base),
        is_streaming_target(usage),
        usage & base == base,
{
    let copy_dst = copy_dst_bits();
    let attachment = render_attachment_bits();
    let usage = base | copy_dst | attachment;
    assert(usage == base | (copy_dst | attachment)) by (bit_vector)
        requires
            usage == base | copy_dst | attachment,
    ;
    proof {
        lemma_augmented_is_streaming_target(base);
    }
    usage
}

/// Whether a texture with these usage flags can be written by the frame copy.
pub fn can_stream_into(usage: u32) -> (ok: bool)
    ensures
        ok == is_streaming_target(usage),
{
    let needed = copy_dst_bits() | render_attachment_bits();
    usage & needed == needed
}

/// An augmented texture is a streaming target and has lost no flag.
pub proof fn lemma_augmented_is_streaming_target(base: u32)
    ensures
        is_streaming_target(augmented_usage(base)),
        augmented_usage(base) & base == base,
{
    let required = required_usage();
    assert((base | required) & required == required) by (bit_vector);
    assert((base | required) & base == base) by (bit_vector);
}

/// Augmenting twice changes nothing more.
pub proof fn lemma_augment_idempotent(base: u32)
    ensures
        augmented_usage(augmented_usage(base)) == augmented_usage(base),
{
    let required = required_usage();
    assert((base | required) | required == base | required) by (bit_vector);
}

/// Usage flags are a streaming target's exactly when augmenting leaves them
/// as they are.
pub proof fn lemma_streaming_target_is_fixed_point(usage: u32)
    ensures
        is_streaming_target(usage) <==> augmented_usage(usage) == usage,
{
    let required = required_usage();
    assert((usage & required == required) <==> (usage | required) == usage) by (bit_vector);
}

} // verus!
